//! The ledger store model: records keyed by stable identifiers, with the
//! global accounting invariants.
//!
//! A [`Ledger`] plays the store's part for one deployment: the singleton
//! mint configuration, the merchant records, and the immutable audit rows.
//! Creation under an existing key fails, which is what makes replaying an
//! operation structurally impossible. Its well-formedness ties the whole
//! system together: the tracked supply equals all mint deltas minus all burn
//! deltas, and every merchant's distributed-rewards counter equals the sum
//! over that merchant's purchase rows.

use vstd::prelude::*;

use crate::error::CarsaError;
use crate::mint_tokens::{
    mint_lokal_tokens_ensures, InitializeLokalMint, MintLokalTokens, MintReceipt,
};
use crate::rewards::{
    blended_total_value, process_purchase_ensures, register_merchant_ensures, reward_for,
    update_merchant_ensures, ProcessPurchase, PurchaseReceipt, RegisterMerchant, UpdateMerchant,
};
use crate::state::{
    merchant_wf, LokalMintConfig, MerchantAccount, PurchaseTransaction, TokenRedemption,
    TokenTransfer,
};
use crate::transfers::{
    burn_tokens, burn_tokens_ensures, redeem_tokens, redeem_tokens_ensures,
    transfer_tokens_ensures, BurnReceipt, TransferTokens,
};

verus! {

/// Some merchant record is keyed by `wallet`.
pub open spec fn has_merchant(ms: Seq<MerchantAccount>, wallet: u64) -> bool {
    exists|i: int| 0 <= i < ms.len() && ms[i].merchant_wallet == wallet
}

/// No two merchant records share a wallet.
pub open spec fn merchants_unique(ms: Seq<MerchantAccount>) -> bool {
    forall|i: int, j: int|
        0 <= i < j < ms.len() ==> ms[i].merchant_wallet != ms[j].merchant_wallet
}

/// The index of the merchant keyed by `wallet`; meaningful when
/// `has_merchant` holds.
pub open spec fn merchant_index_of(ms: Seq<MerchantAccount>, wallet: u64) -> int {
    choose|i: int| 0 <= i < ms.len() && ms[i].merchant_wallet == wallet
}

/// A purchase row agrees with replaying its own inputs: the stored blended
/// value, reward and token flag are the ones the engine computes from the
/// row's fiat amount, redeemed amount and rate.
pub open spec fn purchase_consistent(p: PurchaseTransaction) -> bool {
    &&& p.total_value == blended_total_value(p.fiat_amount, p.redeemed_token_amount)
    &&& p.reward_amount == reward_for(p.total_value as int, p.cashback_rate)
    &&& p.used_tokens == (p.redeemed_token_amount > 0)
}

/// Sum of the stored rewards of one merchant's purchase rows.
pub open spec fn sum_rewards_for(ps: Seq<PurchaseTransaction>, wallet: u64) -> int
    decreases ps.len(),
{
    if ps.len() == 0 {
        0
    } else {
        sum_rewards_for(ps.drop_last(), wallet) + if ps.last().merchant == wallet {
            ps.last().reward_amount as int
        } else {
            0
        }
    }
}

/// Sum of one merchant's rewards as recomputed independently from each
/// row's stored value and rate, ignoring the stored reward.
pub open spec fn replayed_rewards_for(ps: Seq<PurchaseTransaction>, wallet: u64) -> int
    decreases ps.len(),
{
    if ps.len() == 0 {
        0
    } else {
        replayed_rewards_for(ps.drop_last(), wallet) + if ps.last().merchant == wallet {
            reward_for(ps.last().total_value as int, ps.last().cashback_rate)
        } else {
            0
        }
    }
}

/// Some purchase row is keyed by `(customer, transaction_id)`.
pub open spec fn has_purchase(ps: Seq<PurchaseTransaction>, customer: u64, tx: [u8; 32]) -> bool {
    exists|i: int| 0 <= i < ps.len() && ps[i].customer == customer && ps[i].transaction_id == tx
}

/// No two purchase rows share a `(customer, transaction_id)` key.
pub open spec fn purchase_keys_unique(ps: Seq<PurchaseTransaction>) -> bool {
    forall|i: int, j: int|
        0 <= i < j < ps.len() ==> !(ps[i].customer == ps[j].customer && ps[i].transaction_id
            == ps[j].transaction_id)
}

/// Some transfer row is keyed by `(sender, transaction_id)`.
pub open spec fn has_transfer(ts: Seq<TokenTransfer>, sender: u64, tx: [u8; 32]) -> bool {
    exists|i: int| 0 <= i < ts.len() && ts[i].from == sender && ts[i].transaction_id == tx
}

/// No two transfer rows share a `(sender, transaction_id)` key.
pub open spec fn transfer_keys_unique(ts: Seq<TokenTransfer>) -> bool {
    forall|i: int, j: int|
        0 <= i < j < ts.len() ==> !(ts[i].from == ts[j].from && ts[i].transaction_id
            == ts[j].transaction_id)
}

/// Some redemption row is keyed by `(customer, merchant, transaction_id)`.
pub open spec fn has_redemption(
    rs: Seq<TokenRedemption>,
    customer: u64,
    merchant: u64,
    tx: [u8; 32],
) -> bool {
    exists|i: int|
        0 <= i < rs.len() && rs[i].customer == customer && rs[i].merchant == merchant
            && rs[i].transaction_id == tx
}

/// No two redemption rows share a `(customer, merchant, transaction_id)` key.
pub open spec fn redemption_keys_unique(rs: Seq<TokenRedemption>) -> bool {
    forall|i: int, j: int|
        0 <= i < j < rs.len() ==> !(rs[i].customer == rs[j].customer && rs[i].merchant
            == rs[j].merchant && rs[i].transaction_id == rs[j].transaction_id)
}

/// One deployment's durable records, with the mint-and-burn history that
/// the supply invariant is stated against.
pub struct Ledger {
    /// The singleton mint configuration.
    pub config: LokalMintConfig,
    /// Merchant records, one per owning wallet.
    pub merchants: Vec<MerchantAccount>,
    /// Immutable purchase rows.
    pub purchases: Vec<PurchaseTransaction>,
    /// Immutable transfer rows.
    pub transfers: Vec<TokenTransfer>,
    /// Immutable redemption rows.
    pub redemptions: Vec<TokenRedemption>,
    /// Sum of all mint deltas ever applied (history, not stored).
    pub minted: Ghost<nat>,
    /// Sum of all burn deltas ever applied (history, not stored).
    pub burned: Ghost<nat>,
}

impl Ledger {
    /// The ledger's global invariant, preserved by every operation.
    pub open spec fn wf(self) -> bool {
        &&& self.config.total_supply + self.burned@ == self.minted@
        &&& (forall|i: int|
            0 <= i < self.purchases@.len() ==> purchase_consistent(#[trigger] self.purchases@[i]))
        &&& (forall|i: int|
            0 <= i < self.merchants@.len() ==> merchant_wf(#[trigger] self.merchants@[i]))
        &&& merchants_unique(self.merchants@)
        &&& (forall|i: int|
            0 <= i < self.merchants@.len() ==> (#[trigger] self.merchants@[i]).total_rewards_distributed
                == sum_rewards_for(self.purchases@, self.merchants@[i].merchant_wallet))
        &&& (forall|w: u64|
            !has_merchant(self.merchants@, w) ==> #[trigger] sum_rewards_for(self.purchases@, w)
                == 0)
        &&& purchase_keys_unique(self.purchases@)
        &&& transfer_keys_unique(self.transfers@)
        &&& redemption_keys_unique(self.redemptions@)
    }

    /// Create a fresh deployment: an empty store around a zero-supply mint
    /// configuration.
    pub fn new(mint: u64, update_authority: u64) -> (l: Ledger)
        ensures
            l.wf(),
            l.config == (LokalMintConfig { mint, update_authority, total_supply: 0 }),
            l.merchants@.len() == 0,
            l.purchases@.len() == 0,
            l.transfers@.len() == 0,
            l.redemptions@.len() == 0,
            l.minted@ == 0,
            l.burned@ == 0,
    {
        let ctx = InitializeLokalMint { update_authority, mint };
        let config = ctx.handler();
        let l = Ledger {
            config,
            merchants: Vec::new(),
            purchases: Vec::new(),
            transfers: Vec::new(),
            redemptions: Vec::new(),
            minted: Ghost(0),
            burned: Ghost(0),
        };
        proof {
            assert forall|w: u64| !has_merchant(l.merchants@, w) implies #[trigger] sum_rewards_for(
                l.purchases@,
                w,
            ) == 0 by {
                assert(l.purchases@.len() == 0);
            }
        }
        l
    }

    /// Look a merchant up by its owning wallet.
    fn find_merchant_index(&self, wallet: u64) -> (r: Option<usize>)
        ensures
            match r {
                Some(i) => 0 <= i < self.merchants@.len() && self.merchants@[i as int].merchant_wallet
                    == wallet,
                None => !has_merchant(self.merchants@, wallet),
            },
    {
        let mut i: usize = 0;
        while i < self.merchants.len()
            invariant
                i <= self.merchants@.len(),
                forall|j: int| 0 <= j < i ==> self.merchants@[j].merchant_wallet != wallet,
            decreases self.merchants@.len() - i,
        {
            if self.merchants[i].merchant_wallet == wallet {
                return Some(i);
            }
            i += 1;
        }
        None
    }

    /// Whether a purchase row under `(customer, transaction_id)` exists.
    fn purchase_key_taken(&self, customer: u64, transaction_id: &[u8; 32]) -> (r: bool)
        ensures
            r == has_purchase(self.purchases@, customer, *transaction_id),
    {
        let mut i: usize = 0;
        while i < self.purchases.len()
            invariant
                i <= self.purchases@.len(),
                forall|j: int|
                    0 <= j < i ==> !(self.purchases@[j].customer == customer
                        && self.purchases@[j].transaction_id == *transaction_id),
            decreases self.purchases@.len() - i,
        {
            if self.purchases[i].customer == customer && tx_id_eq(
                &self.purchases[i].transaction_id,
                transaction_id,
            ) {
                return true;
            }
            i += 1;
        }
        false
    }

    /// Whether a transfer row under `(sender, transaction_id)` exists.
    fn transfer_key_taken(&self, sender: u64, transaction_id: &[u8; 32]) -> (r: bool)
        ensures
            r == has_transfer(self.transfers@, sender, *transaction_id),
    {
        let mut i: usize = 0;
        while i < self.transfers.len()
            invariant
                i <= self.transfers@.len(),
                forall|j: int|
                    0 <= j < i ==> !(self.transfers@[j].from == sender
                        && self.transfers@[j].transaction_id == *transaction_id),
            decreases self.transfers@.len() - i,
        {
            if self.transfers[i].from == sender && tx_id_eq(
                &self.transfers[i].transaction_id,
                transaction_id,
            ) {
                return true;
            }
            i += 1;
        }
        false
    }

    /// Whether a redemption row under `(customer, merchant, transaction_id)`
    /// exists.
    fn redemption_key_taken(
        &self,
        customer: u64,
        merchant: u64,
        transaction_id: &[u8; 32],
    ) -> (r: bool)
        ensures
            r == has_redemption(self.redemptions@, customer, merchant, *transaction_id),
    {
        let mut i: usize = 0;
        while i < self.redemptions.len()
            invariant
                i <= self.redemptions@.len(),
                forall|j: int|
                    0 <= j < i ==> !(self.redemptions@[j].customer == customer
                        && self.redemptions@[j].merchant == merchant
                        && self.redemptions@[j].transaction_id == *transaction_id),
            decreases self.redemptions@.len() - i,
        {
            if self.redemptions[i].customer == customer && self.redemptions[i].merchant == merchant
                && tx_id_eq(&self.redemptions[i].transaction_id, transaction_id) {
                return true;
            }
            i += 1;
        }
        false
    }
}

/// Appending a purchase row adds its reward to its own merchant's sum and
/// leaves every other merchant's sum unchanged.
pub proof fn lemma_sum_rewards_push(ps: Seq<PurchaseTransaction>, p: PurchaseTransaction, wallet: u64)
    ensures
        sum_rewards_for(ps.push(p), wallet) == sum_rewards_for(ps, wallet) + if p.merchant
            == wallet {
            p.reward_amount as int
        } else {
            0
        },
{
    assert(ps.push(p).drop_last() =~= ps);
    assert(ps.push(p).last() == p);
}

/// A wallet sitting at a unique index is the one the merchant lookup names.
pub proof fn lemma_merchant_index_unique(ms: Seq<MerchantAccount>, idx: int, wallet: u64)
    requires
        merchants_unique(ms),
        0 <= idx < ms.len(),
        ms[idx].merchant_wallet == wallet,
    ensures
        has_merchant(ms, wallet),
        merchant_index_of(ms, wallet) == idx,
{
    assert(has_merchant(ms, wallet));
    let i0 = merchant_index_of(ms, wallet);
    assert(0 <= i0 < ms.len() && ms[i0].merchant_wallet == wallet);
    if i0 < idx {
        assert(ms[i0].merchant_wallet != ms[idx].merchant_wallet);
        assert(false);
    } else if idx < i0 {
        assert(ms[idx].merchant_wallet != ms[i0].merchant_wallet);
        assert(false);
    }
}

/// Full behaviour of registration against the store: an existing key is a
/// duplicate; otherwise the registration validation decides, and on success
/// exactly the fresh record is appended.
pub open spec fn register_merchant_ledger_ensures(
    pre: Ledger,
    post: Ledger,
    merchant_owner: u64,
    name: Seq<u8>,
    category: Seq<u8>,
    cashback_rate: u16,
    now: i64,
    r: Result<(), CarsaError>,
) -> bool {
    &&& (r is Err ==> post == pre)
    &&& if has_merchant(pre.merchants@, merchant_owner) {
        r == Err::<(), CarsaError>(CarsaError::DuplicateRecord)
    } else {
        match r {
            Err(e) => register_merchant_ensures(
                merchant_owner,
                name,
                category,
                cashback_rate,
                now,
                Err::<MerchantAccount, CarsaError>(e),
            ),
            Ok(_) => {
                &&& post.merchants@.len() == pre.merchants@.len() + 1
                &&& (forall|i: int|
                    0 <= i < pre.merchants@.len() ==> post.merchants@[i] == pre.merchants@[i])
                &&& register_merchant_ensures(
                    merchant_owner,
                    name,
                    category,
                    cashback_rate,
                    now,
                    Ok::<MerchantAccount, CarsaError>(post.merchants@.last()),
                )
                &&& post.config == pre.config
                &&& post.purchases@ == pre.purchases@
                &&& post.transfers@ == pre.transfers@
                &&& post.redemptions@ == pre.redemptions@
                &&& post.minted@ == pre.minted@
                &&& post.burned@ == pre.burned@
            },
        }
    }
}

/// Full behaviour of a merchant update against the store: a missing key is
/// not found; otherwise the update validation decides on the stored record,
/// and on success exactly that record is replaced.
pub open spec fn update_merchant_ledger_ensures(
    pre: Ledger,
    post: Ledger,
    merchant_owner: u64,
    new_cashback_rate: Option<u16>,
    is_active: Option<bool>,
    r: Result<(), CarsaError>,
) -> bool {
    &&& (r is Err ==> post == pre)
    &&& if !has_merchant(pre.merchants@, merchant_owner) {
        r == Err::<(), CarsaError>(CarsaError::RecordNotFound)
    } else {
        let i = merchant_index_of(pre.merchants@, merchant_owner);
        let pre_ctx = UpdateMerchant { merchant_owner, merchant_account: pre.merchants@[i] };
        match r {
            Err(e) => update_merchant_ensures(
                pre_ctx,
                pre_ctx,
                new_cashback_rate,
                is_active,
                Err::<(), CarsaError>(e),
            ),
            Ok(_) => {
                &&& post.merchants@.len() == pre.merchants@.len()
                &&& (forall|j: int|
                    0 <= j < pre.merchants@.len() && j != i ==> post.merchants@[j]
                        == pre.merchants@[j])
                &&& update_merchant_ensures(
                    pre_ctx,
                    UpdateMerchant { merchant_owner, merchant_account: post.merchants@[i] },
                    new_cashback_rate,
                    is_active,
                    Ok::<(), CarsaError>(()),
                )
                &&& post.config == pre.config
                &&& post.purchases@ == pre.purchases@
                &&& post.transfers@ == pre.transfers@
                &&& post.redemptions@ == pre.redemptions@
                &&& post.minted@ == pre.minted@
                &&& post.burned@ == pre.burned@
            },
        }
    }
}

impl Ledger {
    /// Register a merchant under its owner's wallet. The store rejects an
    /// owner that already has a merchant; a fresh record starts active with
    /// all counters at zero.
    pub fn register_merchant(
        &mut self,
        merchant_owner: u64,
        name: &Vec<u8>,
        category: &Vec<u8>,
        cashback_rate: u16,
        now: i64,
    ) -> (r: Result<(), CarsaError>)
        requires
            old(self).wf(),
        ensures
            final(self).wf(),
            register_merchant_ledger_ensures(
                *old(self),
                *final(self),
                merchant_owner,
                name@,
                category@,
                cashback_rate,
                now,
                r,
            ),
    {
        match self.find_merchant_index(merchant_owner) {
            Some(_) => {
                return Err(CarsaError::DuplicateRecord);
            },
            None => {},
        }
        let ctx = RegisterMerchant { merchant_owner };
        let m = match ctx.handler(name, category, cashback_rate, now) {
            Ok(m) => m,
            Err(e) => {
                return Err(e);
            },
        };
        self.merchants.push(m);
        proof {
            let pre = *old(self);
            let post = *self;
            assert(post.merchants@ == pre.merchants@.push(m));
            assert forall|i: int| 0 <= i < post.merchants@.len() implies merchant_wf(
                #[trigger] post.merchants@[i],
            ) by {
                if i < pre.merchants@.len() {
                    assert(post.merchants@[i] == pre.merchants@[i]);
                } else {
                    assert(post.merchants@[i] == m);
                }
            }
            assert forall|i: int, j: int|
                0 <= i < j < post.merchants@.len() implies post.merchants@[i].merchant_wallet
                != post.merchants@[j].merchant_wallet by {
                if j < pre.merchants@.len() {
                    assert(post.merchants@[i] == pre.merchants@[i]);
                    assert(post.merchants@[j] == pre.merchants@[j]);
                } else {
                    assert(post.merchants@[j] == m);
                    assert(post.merchants@[i] == pre.merchants@[i]);
                    assert(!has_merchant(pre.merchants@, merchant_owner));
                }
            }
            assert forall|i: int|
                0 <= i < post.merchants@.len() implies (#[trigger] post.merchants@[i]).total_rewards_distributed
                == sum_rewards_for(post.purchases@, post.merchants@[i].merchant_wallet) by {
                if i < pre.merchants@.len() {
                    assert(post.merchants@[i] == pre.merchants@[i]);
                } else {
                    assert(post.merchants@[i] == m);
                    assert(!has_merchant(pre.merchants@, merchant_owner));
                    assert(sum_rewards_for(pre.purchases@, merchant_owner) == 0);
                }
            }
            assert forall|w: u64| !has_merchant(post.merchants@, w) implies #[trigger] sum_rewards_for(
                post.purchases@,
                w,
            ) == 0 by {
                if has_merchant(pre.merchants@, w) {
                    let k = merchant_index_of(pre.merchants@, w);
                    assert(0 <= k < pre.merchants@.len() && pre.merchants@[k].merchant_wallet == w);
                    assert(post.merchants@[k] == pre.merchants@[k]);
                    assert(has_merchant(post.merchants@, w));
                } else {
                    assert(sum_rewards_for(pre.purchases@, w) == 0);
                }
            }
        }
        Ok(())
    }

    /// Update the caller's own merchant record: each given field is
    /// validated and applied independently; omitted fields stay untouched.
    pub fn update_merchant(
        &mut self,
        merchant_owner: u64,
        new_cashback_rate: Option<u16>,
        is_active: Option<bool>,
    ) -> (r: Result<(), CarsaError>)
        requires
            old(self).wf(),
        ensures
            final(self).wf(),
            update_merchant_ledger_ensures(
                *old(self),
                *final(self),
                merchant_owner,
                new_cashback_rate,
                is_active,
                r,
            ),
    {
        let idx = match self.find_merchant_index(merchant_owner) {
            Some(i) => i,
            None => {
                return Err(CarsaError::RecordNotFound);
            },
        };
        proof {
            lemma_merchant_index_unique(self.merchants@, idx as int, merchant_owner);
        }
        let mut ctx = UpdateMerchant {
            merchant_owner,
            merchant_account: self.merchants[idx],
        };
        match ctx.handler(new_cashback_rate, is_active) {
            Ok(_) => {},
            Err(e) => {
                return Err(e);
            },
        }
        self.merchants.set(idx, ctx.merchant_account);
        proof {
            let pre = *old(self);
            let post = *self;
            assert(post.merchants@ == pre.merchants@.update(idx as int, ctx.merchant_account));
            assert forall|i: int| 0 <= i < post.merchants@.len() implies merchant_wf(
                #[trigger] post.merchants@[i],
            ) by {
                if i != idx as int {
                    assert(post.merchants@[i] == pre.merchants@[i]);
                }
            }
            assert forall|i: int, j: int|
                0 <= i < j < post.merchants@.len() implies post.merchants@[i].merchant_wallet
                != post.merchants@[j].merchant_wallet by {
                assert(post.merchants@[i].merchant_wallet == pre.merchants@[i].merchant_wallet);
                assert(post.merchants@[j].merchant_wallet == pre.merchants@[j].merchant_wallet);
            }
            assert forall|i: int|
                0 <= i < post.merchants@.len() implies (#[trigger] post.merchants@[i]).total_rewards_distributed
                == sum_rewards_for(post.purchases@, post.merchants@[i].merchant_wallet) by {
                if i != idx as int {
                    assert(post.merchants@[i] == pre.merchants@[i]);
                }
            }
            assert forall|w: u64| !has_merchant(post.merchants@, w) implies #[trigger] sum_rewards_for(
                post.purchases@,
                w,
            ) == 0 by {
                if has_merchant(pre.merchants@, w) {
                    let k = merchant_index_of(pre.merchants@, w);
                    assert(0 <= k < pre.merchants@.len() && pre.merchants@[k].merchant_wallet == w);
                    assert(post.merchants@[k].merchant_wallet == w);
                    assert(has_merchant(post.merchants@, w));
                }
            }
        }
        Ok(())
    }
}

/// Full behaviour of purchase processing against the store: an unknown
/// merchant is not found; a replayed `(customer, transaction_id)` key is a
/// duplicate and changes nothing; otherwise the purchase engine decides,
/// and on success exactly one row is appended and the merchant and supply
/// counters move by the computed amounts.
pub open spec fn process_purchase_ledger_ensures(
    pre: Ledger,
    post: Ledger,
    customer: u64,
    merchant_wallet: u64,
    customer_token_balance: u64,
    fiat_amount: u64,
    redeem_token_amount: Option<u64>,
    transaction_id: [u8; 32],
    now: i64,
    r: Result<PurchaseReceipt, CarsaError>,
) -> bool {
    &&& (r is Err ==> post == pre)
    &&& if !has_merchant(pre.merchants@, merchant_wallet) {
        r == Err::<PurchaseReceipt, CarsaError>(CarsaError::RecordNotFound)
    } else if has_purchase(pre.purchases@, customer, transaction_id) {
        r == Err::<PurchaseReceipt, CarsaError>(CarsaError::DuplicateRecord)
    } else {
        let i = merchant_index_of(pre.merchants@, merchant_wallet);
        let pre_ctx = ProcessPurchase {
            customer,
            customer_token_balance,
            merchant_account: pre.merchants@[i],
            config: pre.config,
        };
        match r {
            Err(e) => process_purchase_ensures(
                pre_ctx,
                pre_ctx,
                fiat_amount,
                redeem_token_amount,
                transaction_id,
                now,
                Err::<PurchaseReceipt, CarsaError>(e),
            ),
            Ok(receipt) => {
                let post_ctx = ProcessPurchase {
                    customer,
                    customer_token_balance,
                    merchant_account: post.merchants@[i],
                    config: post.config,
                };
                &&& process_purchase_ensures(
                    pre_ctx,
                    post_ctx,
                    fiat_amount,
                    redeem_token_amount,
                    transaction_id,
                    now,
                    Ok::<PurchaseReceipt, CarsaError>(receipt),
                )
                &&& post.merchants@.len() == pre.merchants@.len()
                &&& (forall|j: int|
                    0 <= j < pre.merchants@.len() && j != i ==> post.merchants@[j]
                        == pre.merchants@[j])
                &&& post.purchases@ == pre.purchases@.push(receipt.transaction_record)
                &&& post.transfers@ == pre.transfers@
                &&& post.redemptions@ == pre.redemptions@
                &&& post.minted@ == pre.minted@ + receipt.reward_minted
                &&& post.burned@ == pre.burned@
            },
        }
    }
}

impl Ledger {
    /// Process a purchase as one atomic unit: look the merchant up, claim
    /// the fresh `(customer, transaction_id)` key — a replayed key fails
    /// here before anything moves — then compute the blended value, reward
    /// and counter updates, and append the audit row.
    pub fn process_purchase(
        &mut self,
        customer: u64,
        merchant_wallet: u64,
        customer_token_balance: u64,
        fiat_amount: u64,
        redeem_token_amount: Option<u64>,
        transaction_id: [u8; 32],
        now: i64,
    ) -> (r: Result<PurchaseReceipt, CarsaError>)
        requires
            old(self).wf(),
        ensures
            final(self).wf(),
            process_purchase_ledger_ensures(
                *old(self),
                *final(self),
                customer,
                merchant_wallet,
                customer_token_balance,
                fiat_amount,
                redeem_token_amount,
                transaction_id,
                now,
                r,
            ),
    {
        let idx = match self.find_merchant_index(merchant_wallet) {
            Some(i) => i,
            None => {
                return Err(CarsaError::RecordNotFound);
            },
        };
        proof {
            lemma_merchant_index_unique(self.merchants@, idx as int, merchant_wallet);
        }
        if self.purchase_key_taken(customer, &transaction_id) {
            return Err(CarsaError::DuplicateRecord);
        }
        let mut ctx = ProcessPurchase {
            customer,
            customer_token_balance,
            merchant_account: self.merchants[idx],
            config: self.config,
        };
        let receipt = match ctx.handler(fiat_amount, redeem_token_amount, transaction_id, now) {
            Ok(receipt) => receipt,
            Err(e) => {
                return Err(e);
            },
        };
        self.merchants.set(idx, ctx.merchant_account);
        self.config = ctx.config;
        self.purchases.push(receipt.transaction_record);
        self.minted = Ghost((self.minted@ + receipt.reward_minted) as nat);
        proof {
            let pre = *old(self);
            let post = *self;
            let record = receipt.transaction_record;
            let wallet_i = pre.merchants@[idx as int].merchant_wallet;
            assert(wallet_i == merchant_wallet);
            assert(post.merchants@ == pre.merchants@.update(idx as int, ctx.merchant_account));
            assert(post.purchases@ == pre.purchases@.push(record));
            assert(record.merchant == merchant_wallet);

            // The new row replays to itself.
            assert forall|i: int| 0 <= i < post.purchases@.len() implies purchase_consistent(
                #[trigger] post.purchases@[i],
            ) by {
                if i < pre.purchases@.len() {
                    assert(post.purchases@[i] == pre.purchases@[i]);
                } else {
                    assert(post.purchases@[i] == record);
                }
            }

            assert forall|i: int| 0 <= i < post.merchants@.len() implies merchant_wf(
                #[trigger] post.merchants@[i],
            ) by {
                if i != idx as int {
                    assert(post.merchants@[i] == pre.merchants@[i]);
                }
            }
            assert forall|i: int, j: int|
                0 <= i < j < post.merchants@.len() implies post.merchants@[i].merchant_wallet
                != post.merchants@[j].merchant_wallet by {
                assert(post.merchants@[i].merchant_wallet == pre.merchants@[i].merchant_wallet);
                assert(post.merchants@[j].merchant_wallet == pre.merchants@[j].merchant_wallet);
            }

            // Each merchant's counter still equals the sum over its rows:
            // the paid merchant's sum and counter both grew by the reward.
            assert forall|i: int|
                0 <= i < post.merchants@.len() implies (#[trigger] post.merchants@[i]).total_rewards_distributed
                == sum_rewards_for(post.purchases@, post.merchants@[i].merchant_wallet) by {
                let w = post.merchants@[i].merchant_wallet;
                lemma_sum_rewards_push(pre.purchases@, record, w);
                if i == idx as int {
                    assert(w == merchant_wallet);
                } else {
                    assert(post.merchants@[i] == pre.merchants@[i]);
                    assert(pre.merchants@[i].merchant_wallet != wallet_i);
                    assert(record.merchant != w);
                }
            }
            assert forall|w: u64| !has_merchant(post.merchants@, w) implies #[trigger] sum_rewards_for(
                post.purchases@,
                w,
            ) == 0 by {
                lemma_sum_rewards_push(pre.purchases@, record, w);
                assert(post.merchants@[idx as int].merchant_wallet == merchant_wallet);
                assert(has_merchant(post.merchants@, merchant_wallet));
                assert(w != merchant_wallet);
                if has_merchant(pre.merchants@, w) {
                    let k = merchant_index_of(pre.merchants@, w);
                    assert(0 <= k < pre.merchants@.len() && pre.merchants@[k].merchant_wallet == w);
                    assert(post.merchants@[k].merchant_wallet == w);
                    assert(has_merchant(post.merchants@, w));
                } else {
                    assert(sum_rewards_for(pre.purchases@, w) == 0);
                }
            }

            // The claimed key was fresh, so keys stay unique.
            assert forall|i: int, j: int|
                0 <= i < j < post.purchases@.len() implies !(post.purchases@[i].customer
                == post.purchases@[j].customer && post.purchases@[i].transaction_id
                == post.purchases@[j].transaction_id) by {
                if j < pre.purchases@.len() {
                    assert(post.purchases@[i] == pre.purchases@[i]);
                    assert(post.purchases@[j] == pre.purchases@[j]);
                } else {
                    assert(post.purchases@[j] == record);
                    assert(post.purchases@[i] == pre.purchases@[i]);
                    assert(!has_purchase(pre.purchases@, customer, transaction_id));
                }
            }
        }
        Ok(receipt)
    }
}

/// Full behaviour of a direct mint against the store: the mint validation
/// decides, and on success the supply and the mint history grow together.
pub open spec fn mint_lokal_tokens_ledger_ensures(
    pre: Ledger,
    post: Ledger,
    authority: u64,
    amount: u64,
    r: Result<MintReceipt, CarsaError>,
) -> bool {
    let pre_ctx = MintLokalTokens { authority, config: pre.config };
    &&& (r is Err ==> post == pre)
    &&& match r {
        Err(e) => mint_lokal_tokens_ensures(
            pre_ctx,
            pre_ctx,
            amount,
            Err::<MintReceipt, CarsaError>(e),
        ),
        Ok(receipt) => {
            &&& mint_lokal_tokens_ensures(
                pre_ctx,
                MintLokalTokens { authority, config: post.config },
                amount,
                Ok::<MintReceipt, CarsaError>(receipt),
            )
            &&& post.merchants@ == pre.merchants@
            &&& post.purchases@ == pre.purchases@
            &&& post.transfers@ == pre.transfers@
            &&& post.redemptions@ == pre.redemptions@
            &&& post.minted@ == pre.minted@ + receipt.amount_minted
            &&& post.burned@ == pre.burned@
        },
    }
}

/// Full behaviour of a burn against the store: the burn validation decides,
/// and on success the supply shrinks and the burn history grows by the same
/// amount.
pub open spec fn burn_tokens_ledger_ensures(
    pre: Ledger,
    post: Ledger,
    holder: u64,
    holder_token_balance: u64,
    amount: u64,
    r: Result<BurnReceipt, CarsaError>,
) -> bool {
    &&& (r is Err ==> post == pre)
    &&& match r {
        Err(e) => burn_tokens_ensures(
            pre.config,
            pre.config,
            holder,
            holder_token_balance,
            amount,
            Err::<BurnReceipt, CarsaError>(e),
        ),
        Ok(receipt) => {
            &&& burn_tokens_ensures(
                pre.config,
                post.config,
                holder,
                holder_token_balance,
                amount,
                Ok::<BurnReceipt, CarsaError>(receipt),
            )
            &&& post.merchants@ == pre.merchants@
            &&& post.purchases@ == pre.purchases@
            &&& post.transfers@ == pre.transfers@
            &&& post.redemptions@ == pre.redemptions@
            &&& post.minted@ == pre.minted@
            &&& post.burned@ == pre.burned@ + receipt.amount_burned
        },
    }
}

/// Full behaviour of a transfer against the store: a replayed
/// `(sender, transaction_id)` key is a duplicate; otherwise the transfer
/// validation decides, and on success exactly one row is appended.
pub open spec fn transfer_tokens_ledger_ensures(
    pre: Ledger,
    post: Ledger,
    sender: u64,
    recipient: u64,
    sender_token_balance: u64,
    amount: u64,
    transaction_id: [u8; 32],
    memo: Seq<u8>,
    now: i64,
    r: Result<TokenTransfer, CarsaError>,
) -> bool {
    let ctx = TransferTokens { sender, recipient, sender_token_balance };
    &&& (r is Err ==> post == pre)
    &&& if has_transfer(pre.transfers@, sender, transaction_id) {
        r == Err::<TokenTransfer, CarsaError>(CarsaError::DuplicateRecord)
    } else {
        match r {
            Err(e) => transfer_tokens_ensures(
                ctx,
                amount,
                transaction_id,
                memo,
                now,
                Err::<TokenTransfer, CarsaError>(e),
            ),
            Ok(row) => {
                &&& transfer_tokens_ensures(
                    ctx,
                    amount,
                    transaction_id,
                    memo,
                    now,
                    Ok::<TokenTransfer, CarsaError>(row),
                )
                &&& post.transfers@ == pre.transfers@.push(row)
                &&& post.merchants@ == pre.merchants@
                &&& post.purchases@ == pre.purchases@
                &&& post.redemptions@ == pre.redemptions@
                &&& post.config == pre.config
                &&& post.minted@ == pre.minted@
                &&& post.burned@ == pre.burned@
            },
        }
    }
}

/// Full behaviour of a merchant redemption against the store: an unknown
/// merchant is not found; a replayed `(customer, merchant, transaction_id)`
/// key is a duplicate; otherwise the redemption validation decides on the
/// stored merchant, and on success that record is replaced and one row is
/// appended.
pub open spec fn redeem_tokens_ledger_ensures(
    pre: Ledger,
    post: Ledger,
    customer: u64,
    merchant_wallet: u64,
    customer_token_balance: u64,
    token_amount: u64,
    fiat_value: u64,
    discount_rate: u16,
    transaction_id: [u8; 32],
    now: i64,
    r: Result<TokenRedemption, CarsaError>,
) -> bool {
    &&& (r is Err ==> post == pre)
    &&& if !has_merchant(pre.merchants@, merchant_wallet) {
        r == Err::<TokenRedemption, CarsaError>(CarsaError::RecordNotFound)
    } else if has_redemption(pre.redemptions@, customer, merchant_wallet, transaction_id) {
        r == Err::<TokenRedemption, CarsaError>(CarsaError::DuplicateRecord)
    } else {
        let i = merchant_index_of(pre.merchants@, merchant_wallet);
        match r {
            Err(e) => redeem_tokens_ensures(
                pre.merchants@[i],
                pre.merchants@[i],
                customer,
                customer_token_balance,
                token_amount,
                fiat_value,
                discount_rate,
                transaction_id,
                now,
                Err::<TokenRedemption, CarsaError>(e),
            ),
            Ok(row) => {
                &&& redeem_tokens_ensures(
                    pre.merchants@[i],
                    post.merchants@[i],
                    customer,
                    customer_token_balance,
                    token_amount,
                    fiat_value,
                    discount_rate,
                    transaction_id,
                    now,
                    Ok::<TokenRedemption, CarsaError>(row),
                )
                &&& post.merchants@.len() == pre.merchants@.len()
                &&& (forall|j: int|
                    0 <= j < pre.merchants@.len() && j != i ==> post.merchants@[j]
                        == pre.merchants@[j])
                &&& post.redemptions@ == pre.redemptions@.push(row)
                &&& post.purchases@ == pre.purchases@
                &&& post.transfers@ == pre.transfers@
                &&& post.config == pre.config
                &&& post.minted@ == pre.minted@
                &&& post.burned@ == pre.burned@
            },
        }
    }
}

impl Ledger {
    /// Mint tokens directly under the update authority; the tracked supply
    /// and the mint history grow by exactly the minted amount.
    pub fn mint_lokal_tokens(&mut self, authority: u64, amount: u64) -> (r: Result<
        MintReceipt,
        CarsaError,
    >)
        requires
            old(self).wf(),
        ensures
            final(self).wf(),
            mint_lokal_tokens_ledger_ensures(*old(self), *final(self), authority, amount, r),
    {
        let mut ctx = MintLokalTokens { authority, config: self.config };
        let receipt = match ctx.handler(amount) {
            Ok(v) => v,
            Err(e) => {
                return Err(e);
            },
        };
        self.config = ctx.config;
        self.minted = Ghost((self.minted@ + receipt.amount_minted) as nat);
        Ok(receipt)
    }

    /// Burn tokens held by `holder`; the tracked supply shrinks and the
    /// burn history grows by exactly the burned amount.
    pub fn burn_tokens(&mut self, holder: u64, holder_token_balance: u64, amount: u64) -> (r:
        Result<BurnReceipt, CarsaError>)
        requires
            old(self).wf(),
        ensures
            final(self).wf(),
            burn_tokens_ledger_ensures(
                *old(self),
                *final(self),
                holder,
                holder_token_balance,
                amount,
                r,
            ),
    {
        let receipt = match burn_tokens(&mut self.config, holder, holder_token_balance, amount) {
            Ok(v) => v,
            Err(e) => {
                return Err(e);
            },
        };
        self.burned = Ghost((self.burned@ + receipt.amount_burned) as nat);
        Ok(receipt)
    }

    /// Record a peer-to-peer transfer as one atomic unit: claim the fresh
    /// `(sender, transaction_id)` key, validate, and append the audit row.
    pub fn transfer_tokens(
        &mut self,
        sender: u64,
        recipient: u64,
        sender_token_balance: u64,
        amount: u64,
        transaction_id: [u8; 32],
        memo: &Vec<u8>,
        now: i64,
    ) -> (r: Result<TokenTransfer, CarsaError>)
        requires
            old(self).wf(),
        ensures
            final(self).wf(),
            transfer_tokens_ledger_ensures(
                *old(self),
                *final(self),
                sender,
                recipient,
                sender_token_balance,
                amount,
                transaction_id,
                memo@,
                now,
                r,
            ),
    {
        if self.transfer_key_taken(sender, &transaction_id) {
            return Err(CarsaError::DuplicateRecord);
        }
        let ctx = TransferTokens { sender, recipient, sender_token_balance };
        let row = match ctx.handler(amount, transaction_id, memo, now) {
            Ok(v) => v,
            Err(e) => {
                return Err(e);
            },
        };
        self.transfers.push(row);
        proof {
            let pre = *old(self);
            let post = *self;
            assert(post.transfers@ == pre.transfers@.push(row));
            assert forall|i: int, j: int|
                0 <= i < j < post.transfers@.len() implies !(post.transfers@[i].from
                == post.transfers@[j].from && post.transfers@[i].transaction_id
                == post.transfers@[j].transaction_id) by {
                if j < pre.transfers@.len() {
                    assert(post.transfers@[i] == pre.transfers@[i]);
                    assert(post.transfers@[j] == pre.transfers@[j]);
                } else {
                    assert(post.transfers@[j] == row);
                    assert(post.transfers@[i] == pre.transfers@[i]);
                    assert(!has_transfer(pre.transfers@, sender, transaction_id));
                }
            }
        }
        Ok(row)
    }

    /// Record tokens spent at a merchant as one atomic unit: look the
    /// merchant up, claim the fresh `(customer, merchant, transaction_id)`
    /// key, validate, update the merchant's counters, and append the row.
    pub fn redeem_tokens(
        &mut self,
        customer: u64,
        merchant_wallet: u64,
        customer_token_balance: u64,
        token_amount: u64,
        fiat_value: u64,
        discount_rate: u16,
        transaction_id: [u8; 32],
        now: i64,
    ) -> (r: Result<TokenRedemption, CarsaError>)
        requires
            old(self).wf(),
        ensures
            final(self).wf(),
            redeem_tokens_ledger_ensures(
                *old(self),
                *final(self),
                customer,
                merchant_wallet,
                customer_token_balance,
                token_amount,
                fiat_value,
                discount_rate,
                transaction_id,
                now,
                r,
            ),
    {
        let idx = match self.find_merchant_index(merchant_wallet) {
            Some(i) => i,
            None => {
                return Err(CarsaError::RecordNotFound);
            },
        };
        proof {
            lemma_merchant_index_unique(self.merchants@, idx as int, merchant_wallet);
        }
        if self.redemption_key_taken(customer, merchant_wallet, &transaction_id) {
            return Err(CarsaError::DuplicateRecord);
        }
        let mut merchant = self.merchants[idx];
        let row = match redeem_tokens(
            &mut merchant,
            customer,
            customer_token_balance,
            token_amount,
            fiat_value,
            discount_rate,
            transaction_id,
            now,
        ) {
            Ok(v) => v,
            Err(e) => {
                return Err(e);
            },
        };
        self.merchants.set(idx, merchant);
        self.redemptions.push(row);
        proof {
            let pre = *old(self);
            let post = *self;
            assert(post.merchants@ == pre.merchants@.update(idx as int, merchant));
            assert(post.redemptions@ == pre.redemptions@.push(row));
            assert forall|i: int| 0 <= i < post.merchants@.len() implies merchant_wf(
                #[trigger] post.merchants@[i],
            ) by {
                if i != idx as int {
                    assert(post.merchants@[i] == pre.merchants@[i]);
                }
            }
            assert forall|i: int, j: int|
                0 <= i < j < post.merchants@.len() implies post.merchants@[i].merchant_wallet
                != post.merchants@[j].merchant_wallet by {
                assert(post.merchants@[i].merchant_wallet == pre.merchants@[i].merchant_wallet);
                assert(post.merchants@[j].merchant_wallet == pre.merchants@[j].merchant_wallet);
            }
            assert forall|i: int|
                0 <= i < post.merchants@.len() implies (#[trigger] post.merchants@[i]).total_rewards_distributed
                == sum_rewards_for(post.purchases@, post.merchants@[i].merchant_wallet) by {
                if i != idx as int {
                    assert(post.merchants@[i] == pre.merchants@[i]);
                }
            }
            assert forall|w: u64| !has_merchant(post.merchants@, w) implies #[trigger] sum_rewards_for(
                post.purchases@,
                w,
            ) == 0 by {
                if has_merchant(pre.merchants@, w) {
                    let k = merchant_index_of(pre.merchants@, w);
                    assert(0 <= k < pre.merchants@.len() && pre.merchants@[k].merchant_wallet == w);
                    assert(post.merchants@[k].merchant_wallet == w);
                    assert(has_merchant(post.merchants@, w));
                }
            }
            assert forall|i: int, j: int|
                0 <= i < j < post.redemptions@.len() implies !(post.redemptions@[i].customer
                == post.redemptions@[j].customer && post.redemptions@[i].merchant
                == post.redemptions@[j].merchant && post.redemptions@[i].transaction_id
                == post.redemptions@[j].transaction_id) by {
                if j < pre.redemptions@.len() {
                    assert(post.redemptions@[i] == pre.redemptions@[i]);
                    assert(post.redemptions@[j] == pre.redemptions@[j]);
                } else {
                    assert(post.redemptions@[j] == row);
                    assert(post.redemptions@[i] == pre.redemptions@[i]);
                    assert(!has_redemption(
                        pre.redemptions@,
                        customer,
                        merchant_wallet,
                        transaction_id,
                    ));
                }
            }
        }
        Ok(row)
    }
}

/// Compare two 32-byte transaction keys.
pub fn tx_id_eq(a: &[u8; 32], b: &[u8; 32]) -> (r: bool)
    ensures
        r <==> *a == *b,
{
    let mut i: usize = 0;
    while i < 32
        invariant
            i <= 32,
            forall|j: int| 0 <= j < i ==> a[j] == b[j],
        decreases 32 - i,
    {
        if a[i] != b[i] {
            proof {
                assert(a[i as int] != b[i as int]);
            }
            return false;
        }
        i += 1;
    }
    proof {
        assert(*a =~= *b);
    }
    true
}

} // verus!
