use carsa::error::CarsaError;
use carsa::initialize_lokal_mint;
use carsa::math::{
    checked_add_u128, checked_add_u64, checked_div_u128, checked_div_u64, checked_mul_u128,
    checked_mul_u64, checked_sub_u128, checked_sub_u64, narrow_u128_to_u64,
};

fn tx(n: u8) -> [u8; 32] {
    let mut id = [0u8; 32];
    id[0] = n;
    id
}

#[test]
fn transfer_writes_the_audit_row() {
    let mut l = initialize_lokal_mint(1, 2);
    let memo = b"rent for april".to_vec();
    let row = l.transfer_tokens(5, 6, 1_000, 250, tx(1), &memo, 99).unwrap();
    assert_eq!(row.from, 5);
    assert_eq!(row.to, 6);
    assert_eq!(row.amount, 250);
    assert_eq!(row.timestamp, 99);
    assert_eq!(&row.memo[..memo.len()], memo.as_slice());
    assert!(row.memo[memo.len()..].iter().all(|&b| b == 0));
    assert_eq!(l.transfers.len(), 1);
}

#[test]
fn transfer_validation_errors() {
    let mut l = initialize_lokal_mint(1, 2);
    let memo: Vec<u8> = Vec::new();
    let long_memo = vec![b'm'; 65];
    assert_eq!(
        l.transfer_tokens(5, 5, 1_000, 100, tx(1), &memo, 0),
        Err(CarsaError::SelfTransferNotAllowed)
    );
    assert_eq!(
        l.transfer_tokens(5, 6, 1_000, 0, tx(1), &memo, 0),
        Err(CarsaError::InvalidTransferAmount)
    );
    assert_eq!(
        l.transfer_tokens(5, 6, u64::MAX, 10_000_000_000_001, tx(1), &memo, 0),
        Err(CarsaError::TransferAmountTooLarge)
    );
    assert_eq!(
        l.transfer_tokens(5, 6, 1_000, 100, tx(1), &long_memo, 0),
        Err(CarsaError::InvalidMerchantName)
    );
    assert_eq!(
        l.transfer_tokens(5, 6, 99, 100, tx(1), &memo, 0),
        Err(CarsaError::InsufficientBalance)
    );
    assert!(l.transfers.is_empty());
}

#[test]
fn transfer_replay_is_rejected() {
    let mut l = initialize_lokal_mint(1, 2);
    let memo: Vec<u8> = Vec::new();
    l.transfer_tokens(5, 6, 1_000, 100, tx(1), &memo, 0).unwrap();
    assert_eq!(
        l.transfer_tokens(5, 7, 1_000, 50, tx(1), &memo, 1),
        Err(CarsaError::DuplicateRecord)
    );
    assert_eq!(l.transfers.len(), 1);
    // The same key from a different sender is a different row.
    assert!(l.transfer_tokens(6, 7, 1_000, 50, tx(1), &memo, 1).is_ok());
}

#[test]
fn redemption_updates_merchant_and_writes_the_row() {
    let mut l = initialize_lokal_mint(1, 2);
    let name = b"shop".to_vec();
    let category = b"books".to_vec();
    l.register_merchant(7, &name, &category, 300, 0).unwrap();
    let row = l.redeem_tokens(5, 7, 5_000, 2_000, 1_500, 250, tx(1), 42).unwrap();
    assert_eq!(row.customer, 5);
    assert_eq!(row.merchant, 7);
    assert_eq!(row.token_amount, 2_000);
    assert_eq!(row.fiat_value, 1_500);
    assert_eq!(row.discount_rate, 250);
    assert_eq!(l.merchants[0].total_transactions, 1);
    assert_eq!(l.merchants[0].total_volume, 1_500);
    assert_eq!(l.merchants[0].total_rewards_distributed, 0);
    assert_eq!(l.redemptions.len(), 1);
}

#[test]
fn redemption_validation_errors() {
    let mut l = initialize_lokal_mint(1, 2);
    let name = b"shop".to_vec();
    let category = b"books".to_vec();
    l.register_merchant(7, &name, &category, 300, 0).unwrap();
    assert_eq!(
        l.redeem_tokens(5, 9, 5_000, 2_000, 1_500, 250, tx(1), 0),
        Err(CarsaError::RecordNotFound)
    );
    assert_eq!(
        l.redeem_tokens(5, 7, 5_000, 0, 1_500, 250, tx(1), 0),
        Err(CarsaError::InvalidRedemptionAmount)
    );
    assert_eq!(
        l.redeem_tokens(5, 7, u64::MAX, 10_000_000_000_001, 1_500, 250, tx(1), 0),
        Err(CarsaError::RedemptionAmountTooLarge)
    );
    assert_eq!(
        l.redeem_tokens(5, 7, 5_000, 2_000, 1_500, 10_001, tx(1), 0),
        Err(CarsaError::InvalidDiscountPercentage)
    );
    assert_eq!(
        l.redeem_tokens(5, 7, 1_999, 2_000, 1_500, 250, tx(1), 0),
        Err(CarsaError::InsufficientBalance)
    );
    l.update_merchant(7, None, Some(false)).unwrap();
    assert_eq!(
        l.redeem_tokens(5, 7, 5_000, 2_000, 1_500, 250, tx(1), 0),
        Err(CarsaError::RedemptionMerchantNotActive)
    );
    assert!(l.redemptions.is_empty());
}

#[test]
fn redemption_replay_is_rejected() {
    let mut l = initialize_lokal_mint(1, 2);
    let name = b"shop".to_vec();
    let category = b"books".to_vec();
    l.register_merchant(7, &name, &category, 300, 0).unwrap();
    l.redeem_tokens(5, 7, 5_000, 2_000, 1_500, 250, tx(1), 0).unwrap();
    assert_eq!(
        l.redeem_tokens(5, 7, 5_000, 2_000, 1_500, 250, tx(1), 1),
        Err(CarsaError::DuplicateRecord)
    );
    assert_eq!(l.merchants[0].total_transactions, 1);
    assert_eq!(l.redemptions.len(), 1);
}

#[test]
fn checked_helpers_compute_exactly() {
    assert_eq!(checked_add_u64(2, 3), Ok(5));
    assert_eq!(checked_add_u64(u64::MAX, 1), Err(CarsaError::ArithmeticOverflow));
    assert_eq!(checked_sub_u64(5, 3), Ok(2));
    assert_eq!(checked_sub_u64(3, 5), Err(CarsaError::ArithmeticOverflow));
    assert_eq!(checked_mul_u64(6, 7), Ok(42));
    assert_eq!(
        checked_mul_u64(u64::MAX, 2),
        Err(CarsaError::ArithmeticOverflow)
    );
    assert_eq!(checked_div_u64(7, 2), Ok(3));
    assert_eq!(checked_div_u64(7, 0), Err(CarsaError::DivisionByZero));
    assert_eq!(checked_add_u128(1, 2), Ok(3));
    assert_eq!(
        checked_add_u128(u128::MAX, 1),
        Err(CarsaError::ArithmeticOverflow)
    );
    assert_eq!(checked_sub_u128(9, 4), Ok(5));
    assert_eq!(checked_sub_u128(4, 9), Err(CarsaError::ArithmeticOverflow));
    assert_eq!(checked_mul_u128(1 << 70, 4), Ok(1 << 72));
    assert_eq!(
        checked_mul_u128(u128::MAX, 2),
        Err(CarsaError::ArithmeticOverflow)
    );
    assert_eq!(checked_div_u128(10, 3), Ok(3));
    assert_eq!(checked_div_u128(10, 0), Err(CarsaError::DivisionByZero));
    assert_eq!(narrow_u128_to_u64(u64::MAX as u128), Ok(u64::MAX));
    assert_eq!(
        narrow_u128_to_u64(u64::MAX as u128 + 1),
        Err(CarsaError::ArithmeticOverflow)
    );
}
