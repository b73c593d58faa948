//! Loyalty-token accounting engine.
//!
//! The crate tracks a fungible reward token: merchant cashback on purchases,
//! peer-to-peer transfers and merchant redemptions, mint-supply accounting,
//! and a yield-bearing staking pool settled through a scaled reward index.
//! Every operation is pure bookkeeping over plain values; moving actual token
//! balances and persisting records durably are left to the surrounding
//! system, which executes the receipts these functions return.
//!
//! The functions below are the program's entry points over a [`ledger::Ledger`],
//! the model of the durable store; the per-operation engines live in the
//! modules alongside it.

pub mod error;
pub mod laws;
pub mod ledger;
pub mod math;
pub mod mint_tokens;
pub mod pool_ledger;
pub mod rewards;
pub mod state;
pub mod transfers;
pub mod voucher_pool;

use vstd::prelude::*;

use crate::error::CarsaError;
use crate::ledger::{
    mint_lokal_tokens_ledger_ensures, process_purchase_ledger_ensures,
    register_merchant_ledger_ensures, transfer_tokens_ledger_ensures,
    update_merchant_ledger_ensures, Ledger,
};
use crate::mint_tokens::MintReceipt;
use crate::rewards::PurchaseReceipt;
use crate::state::{LokalMintConfig, TokenTransfer};

verus! {

/// Set up the token mint: a fresh store around a zero-supply configuration.
pub fn initialize_lokal_mint(mint: u64, update_authority: u64) -> (l: Ledger)
    ensures
        l.wf(),
        l.config == (LokalMintConfig { mint, update_authority, total_supply: 0 }),
        l.merchants@.len() == 0,
        l.purchases@.len() == 0,
        l.transfers@.len() == 0,
        l.redemptions@.len() == 0,
        l.minted@ == 0,
        l.burned@ == 0,
{
    Ledger::new(mint, update_authority)
}

/// Mint tokens directly under the update authority.
pub fn mint_lokal_tokens(l: &mut Ledger, authority: u64, amount: u64) -> (r: Result<
    MintReceipt,
    CarsaError,
>)
    requires
        old(l).wf(),
    ensures
        final(l).wf(),
        mint_lokal_tokens_ledger_ensures(*old(l), *final(l), authority, amount, r),
{
    l.mint_lokal_tokens(authority, amount)
}

/// Register a merchant with its cashback rate; one merchant per owner.
pub fn register_merchant(
    l: &mut Ledger,
    merchant_owner: u64,
    name: &Vec<u8>,
    category: &Vec<u8>,
    cashback_rate: u16,
    now: i64,
) -> (r: Result<(), CarsaError>)
    requires
        old(l).wf(),
    ensures
        final(l).wf(),
        register_merchant_ledger_ensures(
            *old(l),
            *final(l),
            merchant_owner,
            name@,
            category@,
            cashback_rate,
            now,
            r,
        ),
{
    l.register_merchant(merchant_owner, name, category, cashback_rate, now)
}

/// Process a purchase with an optional token redemption as one atomic unit.
pub fn process_purchase(
    l: &mut Ledger,
    customer: u64,
    merchant_wallet: u64,
    customer_token_balance: u64,
    fiat_amount: u64,
    redeem_token_amount: Option<u64>,
    transaction_id: [u8; 32],
    now: i64,
) -> (r: Result<PurchaseReceipt, CarsaError>)
    requires
        old(l).wf(),
    ensures
        final(l).wf(),
        process_purchase_ledger_ensures(
            *old(l),
            *final(l),
            customer,
            merchant_wallet,
            customer_token_balance,
            fiat_amount,
            redeem_token_amount,
            transaction_id,
            now,
            r,
        ),
{
    l.process_purchase(
        customer,
        merchant_wallet,
        customer_token_balance,
        fiat_amount,
        redeem_token_amount,
        transaction_id,
        now,
    )
}

/// Update the caller's merchant record: rate and active flag, each optional.
pub fn update_merchant(
    l: &mut Ledger,
    merchant_owner: u64,
    new_cashback_rate: Option<u16>,
    is_active: Option<bool>,
) -> (r: Result<(), CarsaError>)
    requires
        old(l).wf(),
    ensures
        final(l).wf(),
        update_merchant_ledger_ensures(
            *old(l),
            *final(l),
            merchant_owner,
            new_cashback_rate,
            is_active,
            r,
        ),
{
    l.update_merchant(merchant_owner, new_cashback_rate, is_active)
}

/// Record a peer-to-peer transfer as one atomic unit.
pub fn transfer_tokens(
    l: &mut Ledger,
    sender: u64,
    recipient: u64,
    sender_token_balance: u64,
    amount: u64,
    transaction_id: [u8; 32],
    memo: &Vec<u8>,
    now: i64,
) -> (r: Result<TokenTransfer, CarsaError>)
    requires
        old(l).wf(),
    ensures
        final(l).wf(),
        transfer_tokens_ledger_ensures(
            *old(l),
            *final(l),
            sender,
            recipient,
            sender_token_balance,
            amount,
            transaction_id,
            memo@,
            now,
            r,
        ),
{
    l.transfer_tokens(sender, recipient, sender_token_balance, amount, transaction_id, memo, now)
}

} // verus!
