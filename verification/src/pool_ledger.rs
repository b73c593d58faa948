//! The staking pool's store model: the singleton pool state and every
//! user's stake record, with the pool-wide invariants.
//!
//! Well-formedness ties the records together: the pool's staked total is
//! the sum of the individual stakes, the staker count is the number of
//! records with a positive stake, and no snapshot ever runs ahead of the
//! pool's reward index.

use vstd::prelude::*;

use crate::error::CarsaError;
use crate::state::{pool_wf, PoolConfig, PoolState, UserStakeRecord};
use crate::voucher_pool::{
    deposit_voucher_ensures, initialize_pool_ensures, record_yield_ensures,
    redeem_voucher_ensures, update_pool_config_ensures, DepositVoucher, InitializePool,
    RecordYield, RedeemReceipt, RedeemVoucher, UpdatePoolConfig,
};

verus! {

/// Sum of the staked amounts over a set of stake records.
pub open spec fn total_staked(ss: Seq<UserStakeRecord>) -> int
    decreases ss.len(),
{
    if ss.len() == 0 {
        0
    } else {
        total_staked(ss.drop_last()) + ss.last().staked_amount
    }
}

/// Number of records with a positive stake.
pub open spec fn active_stakers(ss: Seq<UserStakeRecord>) -> int
    decreases ss.len(),
{
    if ss.len() == 0 {
        0
    } else {
        active_stakers(ss.drop_last()) + if ss.last().staked_amount > 0 {
            1int
        } else {
            0int
        }
    }
}

/// Some stake record belongs to `user`.
pub open spec fn has_stake(ss: Seq<UserStakeRecord>, user: u64) -> bool {
    exists|i: int| 0 <= i < ss.len() && ss[i].user == user
}

/// No two stake records share a user.
pub open spec fn stakes_unique(ss: Seq<UserStakeRecord>) -> bool {
    forall|i: int, j: int| 0 <= i < j < ss.len() ==> ss[i].user != ss[j].user
}

/// The index of the record belonging to `user`; meaningful when `has_stake`
/// holds.
pub open spec fn stake_index_of(ss: Seq<UserStakeRecord>, user: u64) -> int {
    choose|i: int| 0 <= i < ss.len() && ss[i].user == user
}

/// The semantically empty record of a user who has never staked.
pub open spec fn empty_stake(user: u64, pool: u64) -> UserStakeRecord {
    UserStakeRecord {
        user,
        pool,
        staked_amount: 0,
        user_reward_index: 0,
        total_yield_claimed: 0,
        staked_at: 0,
        last_action_at: 0,
    }
}

/// Appending a record adds its stake to the total and, if positive, one
/// active staker.
pub proof fn lemma_staked_push(ss: Seq<UserStakeRecord>, r: UserStakeRecord)
    ensures
        total_staked(ss.push(r)) == total_staked(ss) + r.staked_amount,
        active_stakers(ss.push(r)) == active_stakers(ss) + if r.staked_amount > 0 {
            1int
        } else {
            0int
        },
{
    assert(ss.push(r).drop_last() =~= ss);
    assert(ss.push(r).last() == r);
}

/// Replacing one record moves the total and the active count by exactly
/// that record's change.
pub proof fn lemma_staked_update(ss: Seq<UserStakeRecord>, i: int, r: UserStakeRecord)
    requires
        0 <= i < ss.len(),
    ensures
        total_staked(ss.update(i, r)) == total_staked(ss) - ss[i].staked_amount + r.staked_amount,
        active_stakers(ss.update(i, r)) == active_stakers(ss) - (if ss[i].staked_amount > 0 {
            1int
        } else {
            0int
        }) + (if r.staked_amount > 0 {
            1int
        } else {
            0int
        }),
    decreases ss.len(),
{
    if i == ss.len() - 1 {
        assert(ss.update(i, r).drop_last() =~= ss.drop_last());
        assert(ss.update(i, r).last() == r);
    } else {
        lemma_staked_update(ss.drop_last(), i, r);
        assert(ss.update(i, r).drop_last() =~= ss.drop_last().update(i, r));
        assert(ss.update(i, r).last() == ss.last());
    }
}

/// One record's stake never exceeds the pool total, and a positive stake
/// means at least one active staker.
pub proof fn lemma_stake_bounds(ss: Seq<UserStakeRecord>, i: int)
    requires
        0 <= i < ss.len(),
    ensures
        ss[i].staked_amount <= total_staked(ss),
        ss[i].staked_amount > 0 ==> active_stakers(ss) >= 1,
        total_staked(ss) >= 0,
        active_stakers(ss) >= 0,
    decreases ss.len(),
{
    lemma_staked_nonneg(ss);
    if i == ss.len() - 1 {
        lemma_staked_nonneg(ss.drop_last());
    } else {
        lemma_stake_bounds(ss.drop_last(), i);
        assert(ss.drop_last()[i] == ss[i]);
    }
}

/// Totals over stake records are never negative.
pub proof fn lemma_staked_nonneg(ss: Seq<UserStakeRecord>)
    ensures
        total_staked(ss) >= 0,
        active_stakers(ss) >= 0,
    decreases ss.len(),
{
    if ss.len() > 0 {
        lemma_staked_nonneg(ss.drop_last());
    }
}

/// A user sitting at a unique index is the one the stake lookup names.
pub proof fn lemma_stake_index_unique(ss: Seq<UserStakeRecord>, idx: int, user: u64)
    requires
        stakes_unique(ss),
        0 <= idx < ss.len(),
        ss[idx].user == user,
    ensures
        has_stake(ss, user),
        stake_index_of(ss, user) == idx,
{
    assert(has_stake(ss, user));
    let i0 = stake_index_of(ss, user);
    assert(0 <= i0 < ss.len() && ss[i0].user == user);
    if i0 < idx {
        assert(ss[i0].user != ss[idx].user);
        assert(false);
    } else if idx < i0 {
        assert(ss[idx].user != ss[i0].user);
        assert(false);
    }
}

/// The singleton pool and all of its stake records.
pub struct PoolLedger {
    /// Store key of the pool, recorded in each stake record.
    pub pool_id: u64,
    /// The pool state.
    pub pool: PoolState,
    /// One stake record per user who ever deposited.
    pub stakes: Vec<UserStakeRecord>,
}

impl PoolLedger {
    /// The pool store's invariant, preserved by every operation.
    pub open spec fn wf(self) -> bool {
        &&& pool_wf(self.pool)
        &&& stakes_unique(self.stakes@)
        &&& total_staked(self.stakes@) == self.pool.total_voucher_staked
        &&& active_stakers(self.stakes@) == self.pool.total_stakers
        &&& (forall|i: int|
            0 <= i < self.stakes@.len() ==> (#[trigger] self.stakes@[i]).user_reward_index
                <= self.pool.reward_index)
        &&& (forall|i: int|
            0 <= i < self.stakes@.len() ==> (#[trigger] self.stakes@[i]).pool == self.pool_id)
    }

    /// The record the store holds for `user`, or the empty one if they have
    /// never staked.
    pub open spec fn spec_stake_of(self, user: u64) -> UserStakeRecord {
        if has_stake(self.stakes@, user) {
            self.stakes@[stake_index_of(self.stakes@, user)]
        } else {
            empty_stake(user, self.pool_id)
        }
    }

    /// Create the pool under `pool_id` after validating its configuration.
    pub fn initialize(
        pool_id: u64,
        pool_authority: u64,
        pool_delegate: u64,
        vault_ata: u64,
        voucher_mint: u64,
        config: PoolConfig,
        now: i64,
    ) -> (r: Result<PoolLedger, CarsaError>)
        ensures
            match r {
                Ok(l) => {
                    &&& l.wf()
                    &&& l.pool_id == pool_id
                    &&& l.stakes@.len() == 0
                    &&& initialize_pool_ensures(
                        InitializePool { pool_authority, pool_delegate, vault_ata, voucher_mint },
                        config,
                        now,
                        Ok::<PoolState, CarsaError>(l.pool),
                    )
                },
                Err(e) => initialize_pool_ensures(
                    InitializePool { pool_authority, pool_delegate, vault_ata, voucher_mint },
                    config,
                    now,
                    Err::<PoolState, CarsaError>(e),
                ),
            },
    {
        let ctx = InitializePool { pool_authority, pool_delegate, vault_ata, voucher_mint };
        let pool = match ctx.handler(config, now) {
            Ok(p) => p,
            Err(e) => {
                return Err(e);
            },
        };
        Ok(PoolLedger { pool_id, pool, stakes: Vec::new() })
    }

    /// Look a stake record up by its user.
    fn find_stake_index(&self, user: u64) -> (r: Option<usize>)
        ensures
            match r {
                Some(i) => 0 <= i < self.stakes@.len() && self.stakes@[i as int].user == user,
                None => !has_stake(self.stakes@, user),
            },
    {
        let mut i: usize = 0;
        while i < self.stakes.len()
            invariant
                i <= self.stakes@.len(),
                forall|j: int| 0 <= j < i ==> self.stakes@[j].user != user,
            decreases self.stakes@.len() - i,
        {
            if self.stakes[i].user == user {
                return Some(i);
            }
            i += 1;
        }
        None
    }
}

/// Full behaviour of a deposit against the store: the deposit engine
/// decides on the user's stored (or empty) record, and on success exactly
/// that record and the pool move.
pub open spec fn deposit_voucher_ledger_ensures(
    pre: PoolLedger,
    post: PoolLedger,
    pool_delegate: u64,
    user: u64,
    amount: u64,
    now: i64,
    r: Result<(), CarsaError>,
) -> bool {
    let pre_ctx = DepositVoucher {
        user,
        pool: pre.pool_id,
        pool_delegate,
        pool_state: pre.pool,
        user_stake_record: pre.spec_stake_of(user),
    };
    &&& (r is Err ==> post == pre)
    &&& match r {
        Err(e) => deposit_voucher_ensures(pre_ctx, pre_ctx, amount, now, Err::<(), CarsaError>(e)),
        Ok(_) => {
            &&& post.pool_id == pre.pool_id
            &&& if has_stake(pre.stakes@, user) {
                post.stakes@ == pre.stakes@.update(
                    stake_index_of(pre.stakes@, user),
                    post.stakes@[stake_index_of(pre.stakes@, user)],
                ) && deposit_voucher_ensures(
                    pre_ctx,
                    DepositVoucher {
                        user,
                        pool: pre.pool_id,
                        pool_delegate,
                        pool_state: post.pool,
                        user_stake_record: post.stakes@[stake_index_of(pre.stakes@, user)],
                    },
                    amount,
                    now,
                    Ok::<(), CarsaError>(()),
                )
            } else {
                post.stakes@ == pre.stakes@.push(post.stakes@.last()) && deposit_voucher_ensures(
                    pre_ctx,
                    DepositVoucher {
                        user,
                        pool: pre.pool_id,
                        pool_delegate,
                        pool_state: post.pool,
                        user_stake_record: post.stakes@.last(),
                    },
                    amount,
                    now,
                    Ok::<(), CarsaError>(()),
                )
            }
        },
    }
}

/// Full behaviour of a redemption against the store: a user without a
/// record is not found; otherwise the redemption engine decides on the
/// stored record, and on success exactly that record and the pool move.
pub open spec fn redeem_voucher_ledger_ensures(
    pre: PoolLedger,
    post: PoolLedger,
    user: u64,
    amount: u64,
    now: i64,
    r: Result<RedeemReceipt, CarsaError>,
) -> bool {
    &&& (r is Err ==> post == pre)
    &&& if !has_stake(pre.stakes@, user) {
        r == Err::<RedeemReceipt, CarsaError>(CarsaError::RecordNotFound)
    } else {
        let i = stake_index_of(pre.stakes@, user);
        let pre_ctx = RedeemVoucher {
            user,
            pool_state: pre.pool,
            user_stake_record: pre.stakes@[i],
        };
        match r {
            Err(e) => redeem_voucher_ensures(
                pre_ctx,
                pre_ctx,
                amount,
                now,
                Err::<RedeemReceipt, CarsaError>(e),
            ),
            Ok(receipt) => {
                &&& post.pool_id == pre.pool_id
                &&& post.stakes@ == pre.stakes@.update(i, post.stakes@[i])
                &&& redeem_voucher_ensures(
                    pre_ctx,
                    RedeemVoucher {
                        user,
                        pool_state: post.pool,
                        user_stake_record: post.stakes@[i],
                    },
                    amount,
                    now,
                    Ok::<RedeemReceipt, CarsaError>(receipt),
                )
            },
        }
    }
}

impl PoolLedger {
    /// Stake `amount` for `user` under delegated authority, creating their
    /// record on a first deposit with the snapshot set to the current
    /// reward index.
    pub fn deposit_voucher(
        &mut self,
        pool_delegate: u64,
        user: u64,
        amount: u64,
        now: i64,
    ) -> (r: Result<(), CarsaError>)
        requires
            old(self).wf(),
        ensures
            final(self).wf(),
            deposit_voucher_ledger_ensures(
                *old(self),
                *final(self),
                pool_delegate,
                user,
                amount,
                now,
                r,
            ),
    {
        let found = self.find_stake_index(user);
        let record = match found {
            Some(i) => {
                proof {
                    lemma_stake_index_unique(self.stakes@, i as int, user);
                }
                self.stakes[i]
            },
            None => UserStakeRecord::empty(user, self.pool_id),
        };
        let mut ctx = DepositVoucher {
            user,
            pool: self.pool_id,
            pool_delegate,
            pool_state: self.pool,
            user_stake_record: record,
        };
        match ctx.handler(amount, now) {
            Ok(_) => {},
            Err(e) => {
                return Err(e);
            },
        }
        self.pool = ctx.pool_state;
        proof {
            if found is Some {
                lemma_staked_update(
                    old(self).stakes@,
                    found->Some_0 as int,
                    ctx.user_stake_record,
                );
            } else {
                lemma_staked_push(old(self).stakes@, ctx.user_stake_record);
            }
        }
        match found {
            Some(i) => {
                self.stakes.set(i, ctx.user_stake_record);
                proof {
                    let pre = *old(self);
                    let post = *self;
                    assert(post.stakes@ == pre.stakes@.update(i as int, ctx.user_stake_record));
                    assert forall|a: int, b: int|
                        0 <= a < b < post.stakes@.len() implies post.stakes@[a].user
                        != post.stakes@[b].user by {
                        assert(post.stakes@[a].user == pre.stakes@[a].user);
                        assert(post.stakes@[b].user == pre.stakes@[b].user);
                    }
                }
            },
            None => {
                self.stakes.push(ctx.user_stake_record);
                proof {
                    let pre = *old(self);
                    let post = *self;
                    assert(post.stakes@ == pre.stakes@.push(ctx.user_stake_record));
                    assert(ctx.user_stake_record.user == user);
                    assert forall|a: int, b: int|
                        0 <= a < b < post.stakes@.len() implies post.stakes@[a].user
                        != post.stakes@[b].user by {
                        if b < pre.stakes@.len() {
                            assert(post.stakes@[a] == pre.stakes@[a]);
                            assert(post.stakes@[b] == pre.stakes@[b]);
                        } else {
                            assert(post.stakes@[b] == ctx.user_stake_record);
                            assert(post.stakes@[a] == pre.stakes@[a]);
                            assert(!has_stake(pre.stakes@, user));
                        }
                    }
                }
            },
        }
        Ok(())
    }

    /// Record externally earned yield; one index update credits every
    /// current staker proportionally.
    pub fn record_yield(&mut self, pool_delegate: u64, sol_amount: u64, now: i64) -> (r: Result<
        (),
        CarsaError,
    >)
        requires
            old(self).wf(),
        ensures
            final(self).wf(),
            final(self).pool_id == old(self).pool_id,
            final(self).stakes@ == old(self).stakes@,
            record_yield_ensures(
                RecordYield { pool_delegate, pool_state: old(self).pool },
                RecordYield { pool_delegate, pool_state: final(self).pool },
                sol_amount,
                now,
                r,
            ),
    {
        let mut ctx = RecordYield { pool_delegate, pool_state: self.pool };
        let result = ctx.handler(sol_amount, now);
        match result {
            Ok(_) => {
                self.pool = ctx.pool_state;
                Ok(())
            },
            Err(e) => Err(e),
        }
    }

    /// Redeem `amount` of the user's stake and settle their yield since the
    /// last interaction.
    pub fn redeem_voucher(&mut self, user: u64, amount: u64, now: i64) -> (r: Result<
        RedeemReceipt,
        CarsaError,
    >)
        requires
            old(self).wf(),
        ensures
            final(self).wf(),
            redeem_voucher_ledger_ensures(*old(self), *final(self), user, amount, now, r),
    {
        let idx = match self.find_stake_index(user) {
            Some(i) => i,
            None => {
                return Err(CarsaError::RecordNotFound);
            },
        };
        proof {
            lemma_stake_index_unique(self.stakes@, idx as int, user);
            lemma_stake_bounds(self.stakes@, idx as int);
        }
        let mut ctx = RedeemVoucher {
            user,
            pool_state: self.pool,
            user_stake_record: self.stakes[idx],
        };
        let receipt = match ctx.handler(amount, now) {
            Ok(v) => v,
            Err(e) => {
                return Err(e);
            },
        };
        self.pool = ctx.pool_state;
        self.stakes.set(idx, ctx.user_stake_record);
        proof {
            lemma_staked_update(old(self).stakes@, idx as int, ctx.user_stake_record);
            let pre = *old(self);
            let post = *self;
            assert(post.stakes@ == pre.stakes@.update(idx as int, ctx.user_stake_record));
            assert forall|a: int, b: int|
                0 <= a < b < post.stakes@.len() implies post.stakes@[a].user
                != post.stakes@[b].user by {
                assert(post.stakes@[a].user == pre.stakes@[a].user);
                assert(post.stakes@[b].user == pre.stakes@[b].user);
            }
        }
        Ok(receipt)
    }

    /// Replace the pool configuration wholesale; only the pool authority
    /// may do so, and the new configuration is validated like the first.
    pub fn update_pool_config(&mut self, pool_authority: u64, new_config: PoolConfig) -> (r:
        Result<(), CarsaError>)
        requires
            old(self).wf(),
        ensures
            final(self).wf(),
            final(self).pool_id == old(self).pool_id,
            final(self).stakes@ == old(self).stakes@,
            update_pool_config_ensures(
                UpdatePoolConfig { pool_authority, pool_state: old(self).pool },
                UpdatePoolConfig { pool_authority, pool_state: final(self).pool },
                new_config,
                r,
            ),
    {
        let mut ctx = UpdatePoolConfig { pool_authority, pool_state: self.pool };
        let result = ctx.handler(new_config);
        match result {
            Ok(_) => {
                self.pool = ctx.pool_state;
                Ok(())
            },
            Err(e) => Err(e),
        }
    }
}

} // verus!
