use carsa::error::CarsaError;
use carsa::initialize_lokal_mint;
use carsa::ledger::Ledger;
use carsa::mint_tokens::{InitializeLokalMint, MintLokalTokens};
use carsa::rewards::{ProcessPurchase, UpdateMerchant};
use carsa::state::{LokalMintConfig, MerchantAccount};

fn ledger_with_merchant(rate: u16) -> Ledger {
    let mut l = initialize_lokal_mint(1, 2);
    let name = b"cafe".to_vec();
    let category = b"coffee".to_vec();
    l.register_merchant(7, &name, &category, rate, 100).unwrap();
    l
}

fn tx(n: u8) -> [u8; 32] {
    let mut id = [0u8; 32];
    id[0] = n;
    id
}

#[test]
fn full_cashback_on_one_token_worth() {
    // 10000 bps on a purchase worth one whole token (1000 currency units)
    // mints exactly one whole token in base units.
    let mut l = ledger_with_merchant(10_000);
    let receipt = l.process_purchase(5, 7, 0, 1000, None, tx(1), 200).unwrap();
    assert_eq!(receipt.reward_minted, 1_000_000_000);
    assert_eq!(l.config.total_supply, 1_000_000_000);
    assert_eq!(receipt.transaction_record.total_value, 1000);
    assert_eq!(receipt.transaction_record.cashback_rate, 10_000);
    assert!(!receipt.transaction_record.used_tokens);
}

#[test]
fn zero_rate_mints_nothing() {
    let mut l = ledger_with_merchant(0);
    let receipt = l.process_purchase(5, 7, 0, 1000, None, tx(1), 200).unwrap();
    assert_eq!(receipt.reward_minted, 0);
    assert_eq!(l.config.total_supply, 0);
    assert_eq!(l.merchants[0].total_transactions, 1);
    assert_eq!(l.merchants[0].total_volume, 1000);
    assert_eq!(l.merchants[0].total_rewards_distributed, 0);
}

#[test]
fn purchase_blends_redeemed_tokens_into_value() {
    // 2.5 tokens redeemed floor to 2 whole tokens = 2000 currency units.
    let mut l = ledger_with_merchant(500);
    let receipt = l
        .process_purchase(5, 7, 3_000_000_000, 500_000, Some(2_500_000_000), tx(1), 200)
        .unwrap();
    assert_eq!(receipt.tokens_redeemed, 2_500_000_000);
    assert_eq!(receipt.transaction_record.total_value, 502_000);
    // 502000 * 500 bps = 25100 currency units = 25.1 tokens in base units.
    assert_eq!(receipt.reward_minted, 25_100_000_000);
    assert!(receipt.transaction_record.used_tokens);
}

#[test]
fn redeeming_zero_tokens_is_a_fiat_only_purchase() {
    let mut l = ledger_with_merchant(500);
    let receipt = l.process_purchase(5, 7, 0, 2000, Some(0), tx(1), 200).unwrap();
    assert_eq!(receipt.tokens_redeemed, 0);
    assert!(!receipt.transaction_record.used_tokens);
    assert_eq!(receipt.transaction_record.total_value, 2000);
    assert_eq!(receipt.reward_minted, 100_000_000);
}

#[test]
fn purchase_replay_applies_once() {
    let mut l = ledger_with_merchant(250);
    let first = l.process_purchase(5, 7, 0, 1000, None, tx(9), 200);
    assert!(first.is_ok());
    let supply = l.config.total_supply;
    let transactions = l.merchants[0].total_transactions;
    let rows = l.purchases.len();
    let second = l.process_purchase(5, 7, 0, 1000, None, tx(9), 300);
    assert_eq!(second, Err(CarsaError::DuplicateRecord));
    assert_eq!(l.config.total_supply, supply);
    assert_eq!(l.merchants[0].total_transactions, transactions);
    assert_eq!(l.purchases.len(), rows);
    // A fresh key from the same customer goes through.
    assert!(l.process_purchase(5, 7, 0, 1000, None, tx(10), 300).is_ok());
}

#[test]
fn supply_tracks_mints_and_burns_exactly() {
    let mut l = ledger_with_merchant(10_000);
    l.process_purchase(5, 7, 0, 1000, None, tx(1), 200).unwrap();
    l.mint_lokal_tokens(2, 500).unwrap();
    l.burn_tokens(5, 1_000_000_000, 400).unwrap();
    assert_eq!(l.config.total_supply, 1_000_000_000 + 500 - 400);
}

#[test]
fn merchant_counter_matches_replaying_the_records() {
    let mut l = ledger_with_merchant(750);
    l.process_purchase(5, 7, 0, 1000, None, tx(1), 200).unwrap();
    l.process_purchase(6, 7, 2_000_000_000, 40_000, Some(1_000_000_000), tx(1), 250).unwrap();
    let mut replayed: u64 = 0;
    for row in &l.purchases {
        assert_eq!(row.merchant, 7);
        let wide = (row.total_value as u128) * (row.cashback_rate as u128) * 1_000_000_000u128
            / 10_000u128
            / 1_000u128;
        replayed += u64::try_from(wide).unwrap();
    }
    assert!(l.merchants[0].total_rewards_distributed <= replayed);
    assert_eq!(l.merchants[0].total_rewards_distributed, replayed);
}

#[test]
fn register_merchant_validates_inputs() {
    let mut l = initialize_lokal_mint(1, 2);
    let name = b"cafe".to_vec();
    let category = b"coffee".to_vec();
    let empty: Vec<u8> = Vec::new();
    let long_name = vec![b'x'; 33];
    let long_category = vec![b'y'; 17];
    assert_eq!(
        l.register_merchant(7, &empty, &category, 100, 0),
        Err(CarsaError::InvalidMerchantName)
    );
    assert_eq!(
        l.register_merchant(7, &long_name, &category, 100, 0),
        Err(CarsaError::InvalidMerchantName)
    );
    assert_eq!(
        l.register_merchant(7, &name, &empty, 100, 0),
        Err(CarsaError::InvalidMerchantCategory)
    );
    assert_eq!(
        l.register_merchant(7, &name, &long_category, 100, 0),
        Err(CarsaError::InvalidMerchantCategory)
    );
    assert_eq!(
        l.register_merchant(7, &name, &category, 10_001, 0),
        Err(CarsaError::InvalidCashbackRate)
    );
    assert!(l.register_merchant(7, &name, &category, 10_000, 0).is_ok());
    assert_eq!(
        l.register_merchant(7, &name, &category, 100, 0),
        Err(CarsaError::DuplicateRecord)
    );
}

#[test]
fn merchant_name_is_stored_zero_padded() {
    let l = ledger_with_merchant(100);
    let m = &l.merchants[0];
    assert_eq!(&m.name[..4], b"cafe");
    assert!(m.name[4..].iter().all(|&b| b == 0));
    assert_eq!(&m.category[..6], b"coffee");
    assert!(m.category[6..].iter().all(|&b| b == 0));
    assert!(m.is_active);
    assert_eq!(m.created_at, 100);
}

#[test]
fn update_merchant_applies_fields_independently() {
    let mut l = ledger_with_merchant(100);
    assert!(l.update_merchant(7, Some(250), None).is_ok());
    assert_eq!(l.merchants[0].cashback_rate, 250);
    assert!(l.merchants[0].is_active);
    assert!(l.update_merchant(7, None, Some(false)).is_ok());
    assert_eq!(l.merchants[0].cashback_rate, 250);
    assert!(!l.merchants[0].is_active);
    assert_eq!(
        l.update_merchant(7, Some(10_001), None),
        Err(CarsaError::InvalidCashbackRate)
    );
    assert_eq!(l.merchants[0].cashback_rate, 250);
    assert_eq!(
        l.update_merchant(8, Some(100), None),
        Err(CarsaError::RecordNotFound)
    );
}

#[test]
fn update_merchant_checks_the_owner() {
    let mut ctx = UpdateMerchant {
        merchant_owner: 8,
        merchant_account: MerchantAccount {
            merchant_wallet: 7,
            name: [0u8; 32],
            category: [0u8; 16],
            cashback_rate: 100,
            is_active: true,
            total_transactions: 0,
            total_rewards_distributed: 0,
            total_volume: 0,
            created_at: 0,
        },
    };
    assert_eq!(ctx.handler(Some(200), None), Err(CarsaError::MerchantOwnerMismatch));
    assert_eq!(ctx.merchant_account.cashback_rate, 100);
}

#[test]
fn purchase_validation_errors() {
    let mut l = ledger_with_merchant(100);
    assert_eq!(
        l.process_purchase(5, 9, 0, 1000, None, tx(1), 200),
        Err(CarsaError::RecordNotFound)
    );
    assert_eq!(
        l.process_purchase(5, 7, 0, 0, None, tx(1), 200),
        Err(CarsaError::InvalidPurchaseAmount)
    );
    assert_eq!(
        l.process_purchase(5, 7, 0, 1_000_000_001, None, tx(1), 200),
        Err(CarsaError::PurchaseAmountTooLarge)
    );
    assert_eq!(
        l.process_purchase(5, 7, 99, 1000, Some(100), tx(1), 200),
        Err(CarsaError::InsufficientBalance)
    );
    l.update_merchant(7, None, Some(false)).unwrap();
    assert_eq!(
        l.process_purchase(5, 7, 0, 1000, None, tx(1), 200),
        Err(CarsaError::MerchantNotActive)
    );
    assert!(l.purchases.is_empty());
}

#[test]
fn purchase_overflow_is_rejected_atomically() {
    let mut l = ledger_with_merchant(100);
    l.config.total_supply = u64::MAX;
    let before = l.merchants[0];
    assert_eq!(
        l.process_purchase(5, 7, 0, 1000, None, tx(1), 200),
        Err(CarsaError::ArithmeticOverflow)
    );
    assert_eq!(l.config.total_supply, u64::MAX);
    assert_eq!(l.merchants[0], before);
    assert!(l.purchases.is_empty());
}

#[test]
fn direct_mint_checks_authority_and_range() {
    let mut l = initialize_lokal_mint(1, 2);
    assert_eq!(l.mint_lokal_tokens(3, 100), Err(CarsaError::UpdateAuthorityMismatch));
    assert_eq!(l.mint_lokal_tokens(2, 0), Err(CarsaError::InvalidMintAmount));
    assert_eq!(
        l.mint_lokal_tokens(2, 10_000_000_000_001),
        Err(CarsaError::MintAmountTooLarge)
    );
    let receipt = l.mint_lokal_tokens(2, 10_000_000_000_000).unwrap();
    assert_eq!(receipt.amount_minted, 10_000_000_000_000);
    assert_eq!(l.config.total_supply, 10_000_000_000_000);
    l.config.total_supply = u64::MAX;
    assert_eq!(l.mint_lokal_tokens(2, 1), Err(CarsaError::ArithmeticOverflow));
}

#[test]
fn mint_handler_matches_ledger_behaviour() {
    let init = InitializeLokalMint { update_authority: 2, mint: 1 };
    let config = init.handler();
    assert_eq!(config, LokalMintConfig { mint: 1, update_authority: 2, total_supply: 0 });
    let mut ctx = MintLokalTokens { authority: 2, config };
    let receipt = ctx.handler(42).unwrap();
    assert_eq!(receipt.amount_minted, 42);
    assert_eq!(ctx.config.total_supply, 42);
}

#[test]
fn burn_decrements_supply_and_never_goes_negative() {
    let mut l = initialize_lokal_mint(1, 2);
    l.mint_lokal_tokens(2, 1000).unwrap();
    assert_eq!(l.burn_tokens(5, 400, 0), Err(CarsaError::InvalidAmount));
    assert_eq!(l.burn_tokens(5, 399, 400), Err(CarsaError::InsufficientBalance));
    let receipt = l.burn_tokens(5, 400, 400).unwrap();
    assert_eq!(receipt.holder, 5);
    assert_eq!(receipt.amount_burned, 400);
    assert_eq!(l.config.total_supply, 600);
    // More balance than tracked supply: the supply still may not go below
    // zero.
    assert_eq!(
        l.burn_tokens(5, u64::MAX, 601),
        Err(CarsaError::ArithmeticOverflow)
    );
    assert_eq!(l.config.total_supply, 600);
}

#[test]
fn purchase_handler_is_atomic_on_error() {
    let mut ctx = ProcessPurchase {
        customer: 5,
        customer_token_balance: 50,
        merchant_account: MerchantAccount {
            merchant_wallet: 7,
            name: [0u8; 32],
            category: [0u8; 16],
            cashback_rate: 100,
            is_active: true,
            total_transactions: 3,
            total_rewards_distributed: 9,
            total_volume: 1234,
            created_at: 0,
        },
        config: LokalMintConfig { mint: 1, update_authority: 2, total_supply: 77 },
    };
    let before_merchant = ctx.merchant_account;
    let before_config = ctx.config;
    assert_eq!(
        ctx.handler(1000, Some(100), [0u8; 32], 9),
        Err(CarsaError::InsufficientBalance)
    );
    assert_eq!(ctx.merchant_account, before_merchant);
    assert_eq!(ctx.config, before_config);
}
