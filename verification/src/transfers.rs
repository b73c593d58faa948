//! Peer-to-peer transfers, merchant redemptions, and burns.
//!
//! These operations are pure bookkeeping over the token service: they
//! validate, update the affected counters, and return the audit row or
//! receipt describing the balance movement the surrounding system must
//! execute. An error leaves every record untouched.

use vstd::prelude::*;

use crate::error::CarsaError;
use crate::state::{
    padded_bytes, copy_zero_padded, LokalMintConfig, MerchantAccount, TokenRedemption,
    TokenTransfer, BPS_DENOMINATOR, MAX_REDEMPTION_AMOUNT, MAX_TRANSFER_AMOUNT,
};

verus! {

/// Transfer context: sender, recipient, and the sender's observed balance.
pub struct TransferTokens {
    /// The sending wallet.
    pub sender: u64,
    /// The receiving wallet.
    pub recipient: u64,
    /// The sender's token balance as the token service reports it.
    pub sender_token_balance: u64,
}

/// Full behaviour of a transfer: which error comes on which input, and on
/// success the exact audit row.
pub open spec fn transfer_tokens_ensures(
    ctx: TransferTokens,
    amount: u64,
    transaction_id: [u8; 32],
    memo: Seq<u8>,
    now: i64,
    r: Result<TokenTransfer, CarsaError>,
) -> bool {
    if ctx.recipient == ctx.sender {
        r == Err::<TokenTransfer, CarsaError>(CarsaError::SelfTransferNotAllowed)
    } else if amount == 0 {
        r == Err::<TokenTransfer, CarsaError>(CarsaError::InvalidTransferAmount)
    } else if amount > MAX_TRANSFER_AMOUNT {
        r == Err::<TokenTransfer, CarsaError>(CarsaError::TransferAmountTooLarge)
    } else if memo.len() > 64 {
        r == Err::<TokenTransfer, CarsaError>(CarsaError::InvalidMerchantName)
    } else if ctx.sender_token_balance < amount {
        r == Err::<TokenTransfer, CarsaError>(CarsaError::InsufficientBalance)
    } else {
        r matches Ok(t) && {
            &&& t.from == ctx.sender
            &&& t.to == ctx.recipient
            &&& t.amount == amount
            &&& t.timestamp == now
            &&& t.transaction_id == transaction_id
            &&& padded_bytes::<64>(t.memo, memo)
        }
    }
}

impl TransferTokens {
    /// Validate a peer-to-peer transfer and build its audit row; the tokens
    /// themselves move in the token service under the sender's authority.
    /// The memo length check reuses the name error kind.
    pub fn handler(
        &self,
        amount: u64,
        transaction_id: [u8; 32],
        memo: &Vec<u8>,
        now: i64,
    ) -> (r: Result<TokenTransfer, CarsaError>)
        ensures
            transfer_tokens_ensures(*self, amount, transaction_id, memo@, now, r),
    {
        if self.recipient == self.sender {
            return Err(CarsaError::SelfTransferNotAllowed);
        }
        if amount == 0 {
            return Err(CarsaError::InvalidTransferAmount);
        }
        if amount > MAX_TRANSFER_AMOUNT {
            return Err(CarsaError::TransferAmountTooLarge);
        }
        if memo.len() > 64 {
            return Err(CarsaError::InvalidMerchantName);
        }
        if self.sender_token_balance < amount {
            return Err(CarsaError::InsufficientBalance);
        }
        let memo_bytes: [u8; 64] = copy_zero_padded::<64>(memo);
        Ok(TokenTransfer {
            from: self.sender,
            to: self.recipient,
            amount,
            timestamp: now,
            transaction_id,
            memo: memo_bytes,
        })
    }
}

/// Full behaviour of a merchant redemption: which error comes on which
/// input, and on success the exact audit row and merchant counter updates.
pub open spec fn redeem_tokens_ensures(
    pre: MerchantAccount,
    post: MerchantAccount,
    customer: u64,
    customer_token_balance: u64,
    token_amount: u64,
    fiat_value: u64,
    discount_rate: u16,
    transaction_id: [u8; 32],
    now: i64,
    r: Result<TokenRedemption, CarsaError>,
) -> bool {
    &&& (r is Err ==> post == pre)
    &&& if !pre.is_active {
        r == Err::<TokenRedemption, CarsaError>(CarsaError::RedemptionMerchantNotActive)
    } else if token_amount == 0 {
        r == Err::<TokenRedemption, CarsaError>(CarsaError::InvalidRedemptionAmount)
    } else if token_amount > MAX_REDEMPTION_AMOUNT {
        r == Err::<TokenRedemption, CarsaError>(CarsaError::RedemptionAmountTooLarge)
    } else if discount_rate > BPS_DENOMINATOR {
        r == Err::<TokenRedemption, CarsaError>(CarsaError::InvalidDiscountPercentage)
    } else if customer_token_balance < token_amount {
        r == Err::<TokenRedemption, CarsaError>(CarsaError::InsufficientBalance)
    } else if pre.total_transactions + 1 > u64::MAX || pre.total_volume + fiat_value > u64::MAX {
        r == Err::<TokenRedemption, CarsaError>(CarsaError::ArithmeticOverflow)
    } else {
        &&& r == Ok::<TokenRedemption, CarsaError>(TokenRedemption {
            customer,
            merchant: pre.merchant_wallet,
            token_amount,
            fiat_value,
            discount_rate,
            timestamp: now,
            transaction_id,
        })
        &&& post == (MerchantAccount {
            total_transactions: (pre.total_transactions + 1) as u64,
            total_volume: (pre.total_volume + fiat_value) as u64,
            ..pre
        })
    }
}

/// Record tokens spent at an active merchant: moves `token_amount` from the
/// customer to the merchant in the token service, updates the merchant's
/// transaction and volume counters, and returns the audit row.
pub fn redeem_tokens(
    merchant_account: &mut MerchantAccount,
    customer: u64,
    customer_token_balance: u64,
    token_amount: u64,
    fiat_value: u64,
    discount_rate: u16,
    transaction_id: [u8; 32],
    now: i64,
) -> (r: Result<TokenRedemption, CarsaError>)
    ensures
        redeem_tokens_ensures(
            *old(merchant_account),
            *final(merchant_account),
            customer,
            customer_token_balance,
            token_amount,
            fiat_value,
            discount_rate,
            transaction_id,
            now,
            r,
        ),
{
    if !merchant_account.is_active {
        return Err(CarsaError::RedemptionMerchantNotActive);
    }
    if token_amount == 0 {
        return Err(CarsaError::InvalidRedemptionAmount);
    }
    if token_amount > MAX_REDEMPTION_AMOUNT {
        return Err(CarsaError::RedemptionAmountTooLarge);
    }
    if discount_rate > BPS_DENOMINATOR as u16 {
        return Err(CarsaError::InvalidDiscountPercentage);
    }
    if customer_token_balance < token_amount {
        return Err(CarsaError::InsufficientBalance);
    }
    let new_transactions: u64 = match merchant_account.total_transactions.checked_add(1) {
        Some(v) => v,
        None => {
            return Err(CarsaError::ArithmeticOverflow);
        },
    };
    let new_volume: u64 = match merchant_account.total_volume.checked_add(fiat_value) {
        Some(v) => v,
        None => {
            return Err(CarsaError::ArithmeticOverflow);
        },
    };
    merchant_account.total_transactions = new_transactions;
    merchant_account.total_volume = new_volume;
    Ok(TokenRedemption {
        customer,
        merchant: merchant_account.merchant_wallet,
        token_amount,
        fiat_value,
        discount_rate,
        timestamp: now,
        transaction_id,
    })
}

/// What a successful burn asks the token service to do.
#[derive(Clone, Copy, Debug, PartialEq, Eq)]
pub struct BurnReceipt {
    /// The wallet whose tokens are destroyed.
    pub holder: u64,
    /// Tokens to burn, in base units.
    pub amount_burned: u64,
}

/// Full behaviour of a burn: which error comes on which input, and on
/// success the exact supply decrement.
pub open spec fn burn_tokens_ensures(
    pre: LokalMintConfig,
    post: LokalMintConfig,
    holder: u64,
    holder_token_balance: u64,
    amount: u64,
    r: Result<BurnReceipt, CarsaError>,
) -> bool {
    &&& (r is Err ==> post == pre)
    &&& if amount == 0 {
        r == Err::<BurnReceipt, CarsaError>(CarsaError::InvalidAmount)
    } else if holder_token_balance < amount {
        r == Err::<BurnReceipt, CarsaError>(CarsaError::InsufficientBalance)
    } else if pre.total_supply < amount {
        r == Err::<BurnReceipt, CarsaError>(CarsaError::ArithmeticOverflow)
    } else {
        &&& r == Ok::<BurnReceipt, CarsaError>(BurnReceipt { holder, amount_burned: amount })
        &&& post == (LokalMintConfig {
            total_supply: (pre.total_supply - amount) as u64,
            ..pre
        })
    }
}

/// Destroy `amount` tokens held by `holder`: decrements the tracked total
/// supply, which never goes below zero, and returns the burn to execute.
pub fn burn_tokens(
    config: &mut LokalMintConfig,
    holder: u64,
    holder_token_balance: u64,
    amount: u64,
) -> (r: Result<BurnReceipt, CarsaError>)
    ensures
        burn_tokens_ensures(*old(config), *final(config), holder, holder_token_balance, amount, r),
{
    if amount == 0 {
        return Err(CarsaError::InvalidAmount);
    }
    if holder_token_balance < amount {
        return Err(CarsaError::InsufficientBalance);
    }
    let new_supply: u64 = match config.total_supply.checked_sub(amount) {
        Some(v) => v,
        None => {
            return Err(CarsaError::ArithmeticOverflow);
        },
    };
    config.total_supply = new_supply;
    Ok(BurnReceipt { holder, amount_burned: amount })
}

} // verus!
