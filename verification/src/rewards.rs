//! Merchant registry and the purchase reward engine.
//!
//! A purchase blends a fiat payment and an optional token redemption into one
//! value, computes the merchant's cashback on that blended value in wide
//! arithmetic, and updates the merchant's and the mint's counters. Each
//! operation either applies completely or leaves every record untouched; the
//! receipt tells the surrounding system which balances to move.

use vstd::prelude::*;

use crate::error::CarsaError;
use crate::state::{
    padded_bytes, copy_zero_padded, merchant_wf, LokalMintConfig, MerchantAccount,
    PurchaseTransaction, BPS_DENOMINATOR, MAX_PURCHASE_AMOUNT, TOKEN_BASE_UNITS,
    TOKEN_TO_FIAT_RATE,
};
use crate::math::narrow_u128_to_u64;

verus! {

/// The token amount a purchase redeems: the argument, or zero when absent.
pub open spec fn redeemed_of(redeem_token_amount: Option<u64>) -> u64 {
    match redeem_token_amount {
        Some(r) => r,
        None => 0,
    }
}

/// Fiat equivalent of a redeemed token amount: whole tokens (floor) times the
/// fixed token-to-fiat rate.
pub open spec fn token_fiat_value(redeemed: u64) -> int {
    (redeemed as int / (TOKEN_BASE_UNITS as int)) * (TOKEN_TO_FIAT_RATE as int)
}

/// Blended purchase value in currency units: fiat plus the fiat equivalent of
/// the redeemed tokens.
pub open spec fn blended_total_value(fiat_amount: u64, redeemed: u64) -> int {
    fiat_amount + token_fiat_value(redeemed)
}

/// Reward tokens (in base units) for a blended value at a cashback rate:
/// the basis-point fraction of the value, converted from currency units to
/// token base units, rounded toward zero.
pub open spec fn reward_for(total_value: int, cashback_rate: u16) -> int {
    total_value * cashback_rate * (TOKEN_BASE_UNITS as int) / (BPS_DENOMINATOR as int)
        / (TOKEN_TO_FIAT_RATE as int)
}

/// Records a purchase touches: the paying customer, the merchant, the mint
/// configuration, and the customer's observed token balance.
pub struct ProcessPurchase {
    /// The customer's wallet.
    pub customer: u64,
    /// The customer's token balance as the token service reports it.
    pub customer_token_balance: u64,
    /// The merchant being paid.
    pub merchant_account: MerchantAccount,
    /// The mint configuration tracking total supply.
    pub config: LokalMintConfig,
}

/// What a successful purchase asks the surrounding system to do, and the
/// audit row to persist.
#[derive(Clone, Copy, Debug, PartialEq, Eq)]
pub struct PurchaseReceipt {
    /// The audit row to create under `(customer, transaction_id)`.
    pub transaction_record: PurchaseTransaction,
    /// Tokens to move from the customer to the merchant.
    pub tokens_redeemed: u64,
    /// Reward tokens to mint to the customer under the mint authority.
    pub reward_minted: u64,
}

/// The first validation failure of a purchase, if any.
pub open spec fn purchase_validation_error(
    pre: ProcessPurchase,
    fiat_amount: u64,
    redeemed: u64,
) -> Option<CarsaError> {
    if !pre.merchant_account.is_active {
        Some(CarsaError::MerchantNotActive)
    } else if fiat_amount == 0 {
        Some(CarsaError::InvalidPurchaseAmount)
    } else if fiat_amount > MAX_PURCHASE_AMOUNT {
        Some(CarsaError::PurchaseAmountTooLarge)
    } else if redeemed > 0 && pre.customer_token_balance < redeemed {
        Some(CarsaError::InsufficientBalance)
    } else {
        None
    }
}

/// Whether a validated purchase stays within the ledger's 64-bit width:
/// the reward narrows back, and supply and merchant counters do not overflow.
pub open spec fn purchase_fits(pre: ProcessPurchase, fiat_amount: u64, redeemed: u64) -> bool {
    let total_value = blended_total_value(fiat_amount, redeemed);
    let reward = reward_for(total_value, pre.merchant_account.cashback_rate);
    &&& reward <= u64::MAX
    &&& pre.config.total_supply + reward <= u64::MAX
    &&& pre.merchant_account.total_transactions + 1 <= u64::MAX
    &&& pre.merchant_account.total_volume + total_value <= u64::MAX
    &&& pre.merchant_account.total_rewards_distributed + reward <= u64::MAX
}

/// Full behaviour of purchase processing: which error comes on which input,
/// and on success the exact receipt and counter updates.
pub open spec fn process_purchase_ensures(
    pre: ProcessPurchase,
    post: ProcessPurchase,
    fiat_amount: u64,
    redeem_token_amount: Option<u64>,
    transaction_id: [u8; 32],
    now: i64,
    r: Result<PurchaseReceipt, CarsaError>,
) -> bool {
    let redeemed = redeemed_of(redeem_token_amount);
    let total_value = blended_total_value(fiat_amount, redeemed);
    let reward = reward_for(total_value, pre.merchant_account.cashback_rate);
    &&& (r is Err ==> post == pre)
    &&& match purchase_validation_error(pre, fiat_amount, redeemed) {
        Some(e) => r == Err::<PurchaseReceipt, CarsaError>(e),
        None => {
            if !purchase_fits(pre, fiat_amount, redeemed) {
                r == Err::<PurchaseReceipt, CarsaError>(CarsaError::ArithmeticOverflow)
            } else {
                r matches Ok(receipt) && {
                    &&& total_value <= u64::MAX
                    &&& receipt.tokens_redeemed == redeemed
                    &&& receipt.reward_minted == reward
                    &&& receipt.transaction_record == (PurchaseTransaction {
                        customer: pre.customer,
                        merchant: pre.merchant_account.merchant_wallet,
                        fiat_amount,
                        redeemed_token_amount: redeemed,
                        total_value: total_value as u64,
                        reward_amount: reward as u64,
                        cashback_rate: pre.merchant_account.cashback_rate,
                        used_tokens: redeemed > 0,
                        timestamp: now,
                        transaction_id,
                    })
                    &&& post.merchant_account == (MerchantAccount {
                        total_transactions: (pre.merchant_account.total_transactions + 1) as u64,
                        total_volume: (pre.merchant_account.total_volume + total_value) as u64,
                        total_rewards_distributed: (pre.merchant_account.total_rewards_distributed
                            + reward) as u64,
                        ..pre.merchant_account
                    })
                    &&& post.config == (LokalMintConfig {
                        total_supply: (pre.config.total_supply + reward) as u64,
                        ..pre.config
                    })
                    &&& post.customer == pre.customer
                    &&& post.customer_token_balance == pre.customer_token_balance
                }
            }
        },
    }
}

impl ProcessPurchase {
    /// Process a purchase: validate, blend fiat and redeemed tokens into one
    /// value, compute the cashback reward in 128-bit arithmetic, and update
    /// the merchant and supply counters. On any error nothing changes.
    pub fn handler(
        &mut self,
        fiat_amount: u64,
        redeem_token_amount: Option<u64>,
        transaction_id: [u8; 32],
        now: i64,
    ) -> (r: Result<PurchaseReceipt, CarsaError>)
        ensures
            process_purchase_ensures(
                *old(self),
                *final(self),
                fiat_amount,
                redeem_token_amount,
                transaction_id,
                now,
                r,
            ),
    {
        if !self.merchant_account.is_active {
            return Err(CarsaError::MerchantNotActive);
        }
        if fiat_amount == 0 {
            return Err(CarsaError::InvalidPurchaseAmount);
        }
        if fiat_amount > MAX_PURCHASE_AMOUNT {
            return Err(CarsaError::PurchaseAmountTooLarge);
        }
        let redeemed: u64 = match redeem_token_amount {
            Some(v) => v,
            None => 0,
        };
        if redeemed > 0 && self.customer_token_balance < redeemed {
            return Err(CarsaError::InsufficientBalance);
        }

        // Blend the two denominations: whole tokens, floored, at the fixed
        // token-to-fiat rate.
        proof {
            vstd::arithmetic::div_mod::lemma_div_is_ordered(
                redeemed as int,
                u64::MAX as int,
                TOKEN_BASE_UNITS as int,
            );
        }
        let whole_tokens: u64 = redeemed / TOKEN_BASE_UNITS;
        let token_value: u64 = whole_tokens * TOKEN_TO_FIAT_RATE;
        let total_value: u64 = fiat_amount + token_value;

        // Cashback on the blended value, in a 128-bit intermediate.
        proof {
            vstd::arithmetic::mul::lemma_mul_upper_bound(
                total_value as int,
                u64::MAX as int,
                self.merchant_account.cashback_rate as int,
                u16::MAX as int,
            );
        }
        let wide: u128 = (total_value as u128) * (self.merchant_account.cashback_rate as u128);
        let wide_scaled: u128 = wide * (TOKEN_BASE_UNITS as u128);
        let after_bps: u128 = wide_scaled / (BPS_DENOMINATOR as u128);
        let reward_wide: u128 = after_bps / (TOKEN_TO_FIAT_RATE as u128);
        let reward_amount: u64 = match narrow_u128_to_u64(reward_wide) {
            Ok(v) => v,
            Err(e) => {
                return Err(e);
            },
        };

        // All remaining arithmetic is checked before anything is committed,
        // so a failure leaves every record untouched.
        let new_supply: u64 = match self.config.total_supply.checked_add(reward_amount) {
            Some(v) => v,
            None => {
                return Err(CarsaError::ArithmeticOverflow);
            },
        };
        let new_transactions: u64 = match self.merchant_account.total_transactions.checked_add(1) {
            Some(v) => v,
            None => {
                return Err(CarsaError::ArithmeticOverflow);
            },
        };
        let new_volume: u64 = match self.merchant_account.total_volume.checked_add(total_value) {
            Some(v) => v,
            None => {
                return Err(CarsaError::ArithmeticOverflow);
            },
        };
        let new_rewards: u64 = match self.merchant_account.total_rewards_distributed.checked_add(
            reward_amount,
        ) {
            Some(v) => v,
            None => {
                return Err(CarsaError::ArithmeticOverflow);
            },
        };

        self.config.total_supply = new_supply;
        self.merchant_account.total_transactions = new_transactions;
        self.merchant_account.total_volume = new_volume;
        self.merchant_account.total_rewards_distributed = new_rewards;

        let transaction_record = PurchaseTransaction {
            customer: self.customer,
            merchant: self.merchant_account.merchant_wallet,
            fiat_amount,
            redeemed_token_amount: redeemed,
            total_value,
            reward_amount,
            cashback_rate: self.merchant_account.cashback_rate,
            used_tokens: redeemed > 0,
            timestamp: now,
            transaction_id,
        };
        Ok(PurchaseReceipt {
            transaction_record,
            tokens_redeemed: redeemed,
            reward_minted: reward_amount,
        })
    }
}

/// Registration context: the wallet that will own the merchant record.
pub struct RegisterMerchant {
    /// The owning wallet; the store keys the merchant record by it.
    pub merchant_owner: u64,
}

/// Full behaviour of merchant registration: which error comes on which
/// input, and on success the exact fresh record.
pub open spec fn register_merchant_ensures(
    owner: u64,
    name: Seq<u8>,
    category: Seq<u8>,
    cashback_rate: u16,
    now: i64,
    r: Result<MerchantAccount, CarsaError>,
) -> bool {
    if name.len() == 0 || name.len() > 32 {
        r == Err::<MerchantAccount, CarsaError>(CarsaError::InvalidMerchantName)
    } else if category.len() == 0 || category.len() > 16 {
        r == Err::<MerchantAccount, CarsaError>(CarsaError::InvalidMerchantCategory)
    } else if cashback_rate > BPS_DENOMINATOR {
        r == Err::<MerchantAccount, CarsaError>(CarsaError::InvalidCashbackRate)
    } else {
        r matches Ok(m) && {
            &&& m.merchant_wallet == owner
            &&& padded_bytes::<32>(m.name, name)
            &&& padded_bytes::<16>(m.category, category)
            &&& m.cashback_rate == cashback_rate
            &&& m.is_active
            &&& m.total_transactions == 0
            &&& m.total_rewards_distributed == 0
            &&& m.total_volume == 0
            &&& m.created_at == now
        }
    }
}

impl RegisterMerchant {
    /// Validate the inputs and build a fresh merchant record with all
    /// counters at zero and the merchant active.
    pub fn handler(
        &self,
        name: &Vec<u8>,
        category: &Vec<u8>,
        cashback_rate: u16,
        now: i64,
    ) -> (r: Result<MerchantAccount, CarsaError>)
        ensures
            register_merchant_ensures(self.merchant_owner, name@, category@, cashback_rate, now, r),
            r matches Ok(m) ==> merchant_wf(m),
    {
        if name.len() == 0 || name.len() > 32 {
            return Err(CarsaError::InvalidMerchantName);
        }
        if category.len() == 0 || category.len() > 16 {
            return Err(CarsaError::InvalidMerchantCategory);
        }
        if cashback_rate > BPS_DENOMINATOR as u16 {
            return Err(CarsaError::InvalidCashbackRate);
        }
        let name_bytes: [u8; 32] = copy_zero_padded::<32>(name);
        let category_bytes: [u8; 16] = copy_zero_padded::<16>(category);
        Ok(MerchantAccount {
            merchant_wallet: self.merchant_owner,
            name: name_bytes,
            category: category_bytes,
            cashback_rate,
            is_active: true,
            total_transactions: 0,
            total_rewards_distributed: 0,
            total_volume: 0,
            created_at: now,
        })
    }
}

/// Update context: the caller and the merchant record to change.
pub struct UpdateMerchant {
    /// The wallet asking for the update; must own the merchant.
    pub merchant_owner: u64,
    /// The merchant record being updated.
    pub merchant_account: MerchantAccount,
}

/// Full behaviour of a merchant update: owner check, rate validation, and
/// independent application of each given field.
pub open spec fn update_merchant_ensures(
    pre: UpdateMerchant,
    post: UpdateMerchant,
    new_cashback_rate: Option<u16>,
    is_active: Option<bool>,
    r: Result<(), CarsaError>,
) -> bool {
    &&& (r is Err ==> post == pre)
    &&& if pre.merchant_owner != pre.merchant_account.merchant_wallet {
        r == Err::<(), CarsaError>(CarsaError::MerchantOwnerMismatch)
    } else if new_cashback_rate matches Some(rate) && rate > BPS_DENOMINATOR {
        r == Err::<(), CarsaError>(CarsaError::InvalidCashbackRate)
    } else {
        &&& r is Ok
        &&& post.merchant_owner == pre.merchant_owner
        &&& post.merchant_account == (MerchantAccount {
            cashback_rate: match new_cashback_rate {
                Some(rate) => rate,
                None => pre.merchant_account.cashback_rate,
            },
            is_active: match is_active {
                Some(active) => active,
                None => pre.merchant_account.is_active,
            },
            ..pre.merchant_account
        })
    }
}

impl UpdateMerchant {
    /// Apply the given optional fields to the caller's own merchant record;
    /// omitted fields stay untouched.
    pub fn handler(
        &mut self,
        new_cashback_rate: Option<u16>,
        is_active: Option<bool>,
    ) -> (r: Result<(), CarsaError>)
        ensures
            update_merchant_ensures(*old(self), *final(self), new_cashback_rate, is_active, r),
    {
        if self.merchant_owner != self.merchant_account.merchant_wallet {
            return Err(CarsaError::MerchantOwnerMismatch);
        }
        match new_cashback_rate {
            Some(rate) => {
                if rate > BPS_DENOMINATOR as u16 {
                    return Err(CarsaError::InvalidCashbackRate);
                }
                self.merchant_account.cashback_rate = rate;
            },
            None => {},
        }
        match is_active {
            Some(active) => {
                self.merchant_account.is_active = active;
            },
            None => {},
        }
        Ok(())
    }
}

} // verus!
