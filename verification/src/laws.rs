//! System-wide laws: statements that relate several operations or hold of
//! every reachable state, proved from the operations' contracts.

use vstd::prelude::*;

use crate::error::CarsaError;
use crate::ledger::{
    has_purchase, merchant_index_of, process_purchase_ledger_ensures, purchase_consistent,
    replayed_rewards_for, sum_rewards_for, Ledger,
};
use crate::rewards::PurchaseReceipt;
use crate::state::{PurchaseTransaction, UserStakeRecord, REWARD_INDEX_SCALE};
use crate::voucher_pool::{claimable_yield, deposit_voucher_ensures, DepositVoucher};

verus! {

/// Law: in every well-formed ledger the tracked total supply equals the
/// sum of all mint deltas minus the sum of all burn deltas ever applied —
/// exactly, with no drift.
pub proof fn lemma_supply_matches_history(l: Ledger)
    requires
        l.wf(),
    ensures
        l.config.total_supply == l.minted@ - l.burned@,
{
}

/// Over rows that replay to themselves, the stored rewards sum to the same
/// value as the independently recomputed rewards.
pub proof fn lemma_sum_equals_replayed(ps: Seq<PurchaseTransaction>, wallet: u64)
    requires
        forall|i: int| 0 <= i < ps.len() ==> purchase_consistent(#[trigger] ps[i]),
    ensures
        sum_rewards_for(ps, wallet) == replayed_rewards_for(ps, wallet),
    decreases ps.len(),
{
    if ps.len() > 0 {
        assert forall|i: int| 0 <= i < ps.drop_last().len() implies purchase_consistent(
            #[trigger] ps.drop_last()[i],
        ) by {
            assert(ps.drop_last()[i] == ps[i]);
        }
        lemma_sum_equals_replayed(ps.drop_last(), wallet);
        assert(purchase_consistent(ps.last()));
    }
}

/// Law: in every well-formed ledger each merchant's distributed-rewards
/// counter equals — and so never exceeds — the sum of the rewards obtained
/// by independently replaying every purchase row of that merchant.
pub proof fn lemma_rewards_match_replay(l: Ledger, i: int)
    requires
        l.wf(),
        0 <= i < l.merchants@.len(),
    ensures
        l.merchants@[i].total_rewards_distributed == replayed_rewards_for(
            l.purchases@,
            l.merchants@[i].merchant_wallet,
        ),
        l.merchants@[i].total_rewards_distributed <= replayed_rewards_for(
            l.purchases@,
            l.merchants@[i].merchant_wallet,
        ),
{
    lemma_sum_equals_replayed(l.purchases@, l.merchants@[i].merchant_wallet);
}

/// Law: submitting a purchase twice under one `(customer, transaction_id)`
/// key applies its effects exactly once. After a successful first call the
/// second call with the same key fails as a duplicate and changes nothing.
pub proof fn lemma_purchase_replay_applies_once(
    pre: Ledger,
    mid: Ledger,
    post: Ledger,
    customer: u64,
    merchant_wallet: u64,
    balance1: u64,
    balance2: u64,
    fiat1: u64,
    fiat2: u64,
    redeem1: Option<u64>,
    redeem2: Option<u64>,
    transaction_id: [u8; 32],
    now1: i64,
    now2: i64,
    r1: Result<PurchaseReceipt, CarsaError>,
    r2: Result<PurchaseReceipt, CarsaError>,
)
    requires
        pre.wf(),
        process_purchase_ledger_ensures(
            pre,
            mid,
            customer,
            merchant_wallet,
            balance1,
            fiat1,
            redeem1,
            transaction_id,
            now1,
            r1,
        ),
        r1 is Ok,
        process_purchase_ledger_ensures(
            mid,
            post,
            customer,
            merchant_wallet,
            balance2,
            fiat2,
            redeem2,
            transaction_id,
            now2,
            r2,
        ),
    ensures
        r2 == Err::<PurchaseReceipt, CarsaError>(CarsaError::DuplicateRecord),
        post == mid,
{
    match r1 {
        Ok(receipt) => {
            let i = merchant_index_of(pre.merchants@, merchant_wallet);
            let record = receipt.transaction_record;
            assert(mid.purchases@ == pre.purchases@.push(record));
            assert(record.customer == customer && record.transaction_id == transaction_id);
            assert(mid.purchases@[mid.purchases@.len() - 1] == record);
            assert(has_purchase(mid.purchases@, customer, transaction_id));
            // The merchant record keeps its wallet, so the second call gets
            // past the lookup and fails on the claimed key.
            assert(mid.merchants@[i].merchant_wallet == merchant_wallet);
            assert(crate::ledger::has_merchant(mid.merchants@, merchant_wallet));
        },
        Err(_) => {
            assert(false);
        },
    }
}

/// Law: a staker with `k` times the stake of another, under equal
/// snapshots, is credited exactly `k` times the yield — whenever the
/// smaller entitlement divides the scale evenly, so no rounding is lost.
pub proof fn lemma_proportional_yield(
    a: UserStakeRecord,
    b: UserStakeRecord,
    pool_index: u128,
    k: nat,
)
    requires
        a.user_reward_index == b.user_reward_index,
        a.user_reward_index <= pool_index,
        b.staked_amount == k * a.staked_amount,
        (a.staked_amount * (pool_index - a.user_reward_index)) % (REWARD_INDEX_SCALE as int) == 0,
    ensures
        claimable_yield(b.staked_amount, pool_index, b.user_reward_index) == k * claimable_yield(
            a.staked_amount,
            pool_index,
            a.user_reward_index,
        ),
{
    let s = REWARD_INDEX_SCALE as int;
    let d = pool_index - a.user_reward_index;
    let m = a.staked_amount * d;
    let q = m / s;
    vstd::arithmetic::div_mod::lemma_fundamental_div_mod(m, s);
    assert(m == s * q);
    assert(q >= 0) by {
        assert(m >= 0) by (nonlinear_arith)
            requires
                a.staked_amount >= 0,
                d >= 0,
                m == a.staked_amount * d,
        ;
        vstd::arithmetic::div_mod::lemma_div_is_ordered(0, m, s);
    }
    assert(b.staked_amount * d == k * m) by (nonlinear_arith)
        requires
            b.staked_amount == k * a.staked_amount,
            m == a.staked_amount * d,
    ;
    assert(k * m == (k * q) * s) by (nonlinear_arith)
        requires
            m == s * q,
    ;
    vstd::arithmetic::div_mod::lemma_div_by_multiple(k * q, s);
    assert(((k * q) * s) / s == k * q);
}

/// Law: rounding never favours the larger staker's peers. With equal
/// snapshots, a staker holding `k` times another's stake is credited at
/// least `k` times the other's yield, whatever the rounding.
pub proof fn lemma_proportional_yield_lower_bound(
    a: UserStakeRecord,
    b: UserStakeRecord,
    pool_index: u128,
    k: nat,
)
    requires
        a.user_reward_index == b.user_reward_index,
        a.user_reward_index <= pool_index,
        b.staked_amount == k * a.staked_amount,
    ensures
        claimable_yield(b.staked_amount, pool_index, b.user_reward_index) >= k * claimable_yield(
            a.staked_amount,
            pool_index,
            a.user_reward_index,
        ),
{
    let s = REWARD_INDEX_SCALE as int;
    let d = pool_index - a.user_reward_index;
    let m = a.staked_amount * d;
    let q = m / s;
    vstd::arithmetic::div_mod::lemma_fundamental_div_mod(m, s);
    vstd::arithmetic::div_mod::lemma_mod_bound(m, s);
    assert(m >= s * q);
    assert(q >= 0) by {
        assert(m >= 0) by (nonlinear_arith)
            requires
                a.staked_amount >= 0,
                d >= 0,
                m == a.staked_amount * d,
        ;
        vstd::arithmetic::div_mod::lemma_div_is_ordered(0, m, s);
    }
    assert(b.staked_amount * d == k * m) by (nonlinear_arith)
        requires
            b.staked_amount == k * a.staked_amount,
            m == a.staked_amount * d,
    ;
    assert(k * m >= (k * q) * s) by (nonlinear_arith)
        requires
            m >= s * q,
            k >= 0,
    ;
    vstd::arithmetic::div_mod::lemma_div_is_ordered((k * q) * s, k * m, s);
    vstd::arithmetic::div_mod::lemma_div_by_multiple(k * q, s);
    assert(((k * q) * s) / s == k * q);
}

/// Law: a user whose first deposit happens after a yield event accrues
/// nothing from it. The deposit snapshots the pool's current reward index,
/// so at that index their claimable yield is zero.
pub proof fn lemma_late_joiner_accrues_nothing(
    pre: DepositVoucher,
    post: DepositVoucher,
    amount: u64,
    now: i64,
)
    requires
        pre.user_stake_record.staked_amount == 0,
        deposit_voucher_ensures(pre, post, amount, now, Ok::<(), CarsaError>(())),
    ensures
        claimable_yield(
            post.user_stake_record.staked_amount,
            post.pool_state.reward_index,
            post.user_stake_record.user_reward_index,
        ) == 0,
{
    let staked = post.user_stake_record.staked_amount;
    assert(post.user_stake_record.user_reward_index == post.pool_state.reward_index);
    assert(staked * (post.pool_state.reward_index - post.pool_state.reward_index) == 0)
        by (nonlinear_arith);
}

} // verus!
