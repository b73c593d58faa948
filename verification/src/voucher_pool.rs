//! Staking pool engine: deposits, yield recording, and redemption.
//!
//! Yield is distributed through a scaled reward index. Each yield event adds
//! `yield * SCALE / total_staked` to the pool index in one O(1) step; a
//! user's unclaimed share is their stake times the index growth since their
//! last interaction, divided by the scale. Divisions round toward zero, so a
//! staker never receives more than their exact proportional share and the
//! residue stays in the vault as unattributed dust.

use vstd::prelude::*;

use crate::error::CarsaError;
use crate::state::{
    pool_config_wf, pool_wf, stake_consistent, PoolConfig, PoolState, UserStakeRecord,
    BPS_DENOMINATOR, REWARD_INDEX_SCALE,
};
use crate::math::narrow_u128_to_u64;

verus! {

/// Index growth one yield event adds when `total_staked` is positive:
/// the yield per staked base unit, scaled, rounded toward zero.
pub open spec fn yield_per_token(sol_amount: u64, total_staked: u64) -> int {
    sol_amount * (REWARD_INDEX_SCALE as int) / (total_staked as int)
}

/// A staker's unclaimed yield: their stake times the index growth since
/// their snapshot, unscaled, rounded toward zero.
pub open spec fn claimable_yield(staked_amount: u64, pool_index: u128, user_index: u128) -> int {
    staked_amount * (pool_index - user_index) / (REWARD_INDEX_SCALE as int)
}

/// Initialization context: the principals and accounts the pool will record.
pub struct InitializePool {
    /// Administrator of the new pool.
    pub pool_authority: u64,
    /// Principal allowed to deposit on users' behalf and record yield.
    pub pool_delegate: u64,
    /// Token account that will hold all staked vouchers.
    pub vault_ata: u64,
    /// Mint of the voucher token the pool accepts.
    pub voucher_mint: u64,
}

/// Full behaviour of pool initialization: configuration validation and the
/// exact fresh state.
pub open spec fn initialize_pool_ensures(
    ctx: InitializePool,
    config: PoolConfig,
    now: i64,
    r: Result<PoolState, CarsaError>,
) -> bool {
    if !pool_config_wf(config) {
        r == Err::<PoolState, CarsaError>(CarsaError::InvalidAmount)
    } else {
        r == Ok::<PoolState, CarsaError>(PoolState {
            pool_authority: ctx.pool_authority,
            pool_delegate: ctx.pool_delegate,
            vault_ata: ctx.vault_ata,
            voucher_mint: ctx.voucher_mint,
            config,
            total_voucher_staked: 0,
            total_sol_staked: 0,
            total_yield_earned: 0,
            total_stakers: 0,
            reward_index: 0,
            created_at: now,
            last_yield_update: now,
        })
    }
}

impl InitializePool {
    /// Validate the configuration and build a fresh pool with every counter
    /// and the reward index at zero.
    pub fn handler(&self, config: PoolConfig, now: i64) -> (r: Result<PoolState, CarsaError>)
        ensures
            initialize_pool_ensures(*self, config, now, r),
            r matches Ok(p) ==> pool_wf(p),
    {
        if config.min_stake_amount == 0 {
            return Err(CarsaError::InvalidAmount);
        }
        if config.max_stake_per_user < config.min_stake_amount {
            return Err(CarsaError::InvalidAmount);
        }
        if config.apy_basis_points > BPS_DENOMINATOR as u16 {
            return Err(CarsaError::InvalidAmount);
        }
        Ok(PoolState {
            pool_authority: self.pool_authority,
            pool_delegate: self.pool_delegate,
            vault_ata: self.vault_ata,
            voucher_mint: self.voucher_mint,
            config,
            total_voucher_staked: 0,
            total_sol_staked: 0,
            total_yield_earned: 0,
            total_stakers: 0,
            reward_index: 0,
            created_at: now,
            last_yield_update: now,
        })
    }
}

/// Deposit context: the user, the executing delegate, the pool, the store
/// key of the pool, and the user's stake record (a zeroed record for a user
/// who has never staked).
pub struct DepositVoucher {
    /// The user whose tokens are staked.
    pub user: u64,
    /// Store key of the pool, recorded in a fresh stake record.
    pub pool: u64,
    /// The principal executing the deposit; must match the pool's delegate.
    pub pool_delegate: u64,
    /// The pool state.
    pub pool_state: PoolState,
    /// The user's stake record.
    pub user_stake_record: UserStakeRecord,
}

/// Full behaviour of a deposit: authorization, amount validation, first-time
/// snapshot initialization, and the exact counter updates.
pub open spec fn deposit_voucher_ensures(
    pre: DepositVoucher,
    post: DepositVoucher,
    amount: u64,
    now: i64,
    r: Result<(), CarsaError>,
) -> bool {
    let first = pre.user_stake_record.staked_amount == 0;
    let new_total = pre.user_stake_record.staked_amount + amount;
    &&& (r is Err ==> post == pre)
    &&& if pre.pool_delegate != pre.pool_state.pool_delegate {
        r == Err::<(), CarsaError>(CarsaError::UnauthorizedDelegate)
    } else if !pre.pool_state.config.deposits_enabled {
        r == Err::<(), CarsaError>(CarsaError::DepositsDisabled)
    } else if !first && pre.user_stake_record.user != pre.user {
        r == Err::<(), CarsaError>(CarsaError::InvalidOwner)
    } else if amount == 0 || amount < pre.pool_state.config.min_stake_amount {
        r == Err::<(), CarsaError>(CarsaError::InvalidAmount)
    } else if new_total > u64::MAX {
        r == Err::<(), CarsaError>(CarsaError::Overflow)
    } else if new_total > pre.pool_state.config.max_stake_per_user {
        r == Err::<(), CarsaError>(CarsaError::ExceedsMaxStake)
    } else if first && pre.pool_state.total_stakers + 1 > u64::MAX {
        r == Err::<(), CarsaError>(CarsaError::Overflow)
    } else if pre.pool_state.total_voucher_staked + amount > u64::MAX {
        r == Err::<(), CarsaError>(CarsaError::Overflow)
    } else {
        &&& r is Ok
        &&& post.user == pre.user
        &&& post.pool == pre.pool
        &&& post.pool_delegate == pre.pool_delegate
        &&& post.pool_state == (PoolState {
            total_voucher_staked: (pre.pool_state.total_voucher_staked + amount) as u64,
            total_stakers: if first {
                (pre.pool_state.total_stakers + 1) as u64
            } else {
                pre.pool_state.total_stakers
            },
            ..pre.pool_state
        })
        &&& post.user_stake_record == (if first {
            UserStakeRecord {
                user: pre.user,
                pool: pre.pool,
                staked_amount: new_total as u64,
                user_reward_index: pre.pool_state.reward_index,
                total_yield_claimed: 0,
                staked_at: now,
                last_action_at: now,
            }
        } else {
            UserStakeRecord {
                staked_amount: new_total as u64,
                last_action_at: now,
                ..pre.user_stake_record
            }
        })
    }
}

impl DepositVoucher {
    /// Stake `amount` for the user under delegated authority. A first
    /// deposit snapshots the current reward index — not zero — so the user
    /// accrues nothing from yield recorded before they joined.
    pub fn handler(&mut self, amount: u64, now: i64) -> (r: Result<(), CarsaError>)
        ensures
            deposit_voucher_ensures(*old(self), *final(self), amount, now, r),
    {
        if self.pool_delegate != self.pool_state.pool_delegate {
            return Err(CarsaError::UnauthorizedDelegate);
        }
        if !self.pool_state.config.deposits_enabled {
            return Err(CarsaError::DepositsDisabled);
        }
        let first = self.user_stake_record.staked_amount == 0;
        if !first && self.user_stake_record.user != self.user {
            return Err(CarsaError::InvalidOwner);
        }
        if amount == 0 || amount < self.pool_state.config.min_stake_amount {
            return Err(CarsaError::InvalidAmount);
        }
        let new_total: u64 = match self.user_stake_record.staked_amount.checked_add(amount) {
            Some(v) => v,
            None => {
                return Err(CarsaError::Overflow);
            },
        };
        if new_total > self.pool_state.config.max_stake_per_user {
            return Err(CarsaError::ExceedsMaxStake);
        }
        let new_stakers: u64 = if first {
            match self.pool_state.total_stakers.checked_add(1) {
                Some(v) => v,
                None => {
                    return Err(CarsaError::Overflow);
                },
            }
        } else {
            self.pool_state.total_stakers
        };
        let new_pool_total: u64 = match self.pool_state.total_voucher_staked.checked_add(amount) {
            Some(v) => v,
            None => {
                return Err(CarsaError::Overflow);
            },
        };

        if first {
            self.user_stake_record.user = self.user;
            self.user_stake_record.pool = self.pool;
            self.user_stake_record.user_reward_index = self.pool_state.reward_index;
            self.user_stake_record.total_yield_claimed = 0;
            self.user_stake_record.staked_at = now;
        }
        self.user_stake_record.staked_amount = new_total;
        self.user_stake_record.last_action_at = now;
        self.pool_state.total_stakers = new_stakers;
        self.pool_state.total_voucher_staked = new_pool_total;
        Ok(())
    }
}

/// Yield-recording context: the executing delegate and the pool.
pub struct RecordYield {
    /// The principal recording the yield; must match the pool's delegate.
    pub pool_delegate: u64,
    /// The pool state.
    pub pool_state: PoolState,
}

/// Full behaviour of a yield event: authorization, totals, and the index
/// update — or, with nobody staked, the totals alone (yield accrued with no
/// stakers is not distributed retroactively).
pub open spec fn record_yield_ensures(
    pre: RecordYield,
    post: RecordYield,
    sol_amount: u64,
    now: i64,
    r: Result<(), CarsaError>,
) -> bool {
    let staked = pre.pool_state.total_voucher_staked;
    let growth = if staked > 0 {
        yield_per_token(sol_amount, staked)
    } else {
        0
    };
    &&& (r is Err ==> post == pre)
    &&& post.pool_state.reward_index >= pre.pool_state.reward_index
    &&& if pre.pool_delegate != pre.pool_state.pool_delegate {
        r == Err::<(), CarsaError>(CarsaError::UnauthorizedDelegate)
    } else if sol_amount == 0 {
        r == Err::<(), CarsaError>(CarsaError::InvalidAmount)
    } else if pre.pool_state.total_sol_staked + sol_amount > u64::MAX {
        r == Err::<(), CarsaError>(CarsaError::Overflow)
    } else if pre.pool_state.total_yield_earned + sol_amount > u64::MAX {
        r == Err::<(), CarsaError>(CarsaError::Overflow)
    } else if pre.pool_state.reward_index + growth > u128::MAX {
        r == Err::<(), CarsaError>(CarsaError::Overflow)
    } else {
        &&& r is Ok
        &&& post.pool_delegate == pre.pool_delegate
        &&& post.pool_state == (PoolState {
            total_sol_staked: (pre.pool_state.total_sol_staked + sol_amount) as u64,
            total_yield_earned: (pre.pool_state.total_yield_earned + sol_amount) as u64,
            reward_index: (pre.pool_state.reward_index + growth) as u128,
            last_yield_update: now,
            ..pre.pool_state
        })
    }
}

impl RecordYield {
    /// Record externally earned yield. One index update credits every
    /// current staker proportionally; the reward index never decreases.
    pub fn handler(&mut self, sol_amount: u64, now: i64) -> (r: Result<(), CarsaError>)
        ensures
            record_yield_ensures(*old(self), *final(self), sol_amount, now, r),
    {
        if self.pool_delegate != self.pool_state.pool_delegate {
            return Err(CarsaError::UnauthorizedDelegate);
        }
        if sol_amount == 0 {
            return Err(CarsaError::InvalidAmount);
        }
        let new_sol: u64 = match self.pool_state.total_sol_staked.checked_add(sol_amount) {
            Some(v) => v,
            None => {
                return Err(CarsaError::Overflow);
            },
        };
        let new_yield: u64 = match self.pool_state.total_yield_earned.checked_add(sol_amount) {
            Some(v) => v,
            None => {
                return Err(CarsaError::Overflow);
            },
        };
        let staked = self.pool_state.total_voucher_staked;
        let new_index: u128 = if staked > 0 {
            let scaled: u128 = (sol_amount as u128) * REWARD_INDEX_SCALE;
            let growth: u128 = scaled / (staked as u128);
            match self.pool_state.reward_index.checked_add(growth) {
                Some(v) => v,
                None => {
                    return Err(CarsaError::Overflow);
                },
            }
        } else {
            self.pool_state.reward_index
        };

        self.pool_state.total_sol_staked = new_sol;
        self.pool_state.total_yield_earned = new_yield;
        self.pool_state.reward_index = new_index;
        self.pool_state.last_yield_update = now;
        Ok(())
    }
}

/// Redemption context: the withdrawing user, the pool, and their stake.
pub struct RedeemVoucher {
    /// The user redeeming part or all of their stake.
    pub user: u64,
    /// The pool state.
    pub pool_state: PoolState,
    /// The user's stake record.
    pub user_stake_record: UserStakeRecord,
}

/// What a successful redemption asks the surrounding system to do.
#[derive(Clone, Copy, Debug, PartialEq, Eq)]
pub struct RedeemReceipt {
    /// Voucher tokens to move from the vault back to the user, under the
    /// pool-derived vault authority.
    pub amount_redeemed: u64,
    /// Yield settled for the user by this redemption.
    pub yield_claimed: u64,
    /// The user's stake left after the redemption.
    pub remaining_stake: u64,
}

/// Full behaviour of a redemption: gating, balance checks, the settled
/// yield on the pre-redemption stake, and the exact counter updates.
pub open spec fn redeem_voucher_ensures(
    pre: RedeemVoucher,
    post: RedeemVoucher,
    amount: u64,
    now: i64,
    r: Result<RedeemReceipt, CarsaError>,
) -> bool {
    let staked = pre.user_stake_record.staked_amount;
    let claimable = claimable_yield(
        staked,
        pre.pool_state.reward_index,
        pre.user_stake_record.user_reward_index,
    );
    let raw = staked * (pre.pool_state.reward_index - pre.user_stake_record.user_reward_index);
    &&& (r is Err ==> post == pre)
    &&& if !pre.pool_state.config.withdrawals_enabled {
        r == Err::<RedeemReceipt, CarsaError>(CarsaError::WithdrawalsDisabled)
    } else if pre.user_stake_record.user != pre.user {
        r == Err::<RedeemReceipt, CarsaError>(CarsaError::InvalidOwner)
    } else if amount == 0 {
        r == Err::<RedeemReceipt, CarsaError>(CarsaError::InvalidAmount)
    } else if amount > staked {
        r == Err::<RedeemReceipt, CarsaError>(CarsaError::InsufficientBalance)
    } else if raw > u128::MAX {
        r == Err::<RedeemReceipt, CarsaError>(CarsaError::Overflow)
    } else if claimable > u64::MAX {
        r == Err::<RedeemReceipt, CarsaError>(CarsaError::Overflow)
    } else if pre.user_stake_record.total_yield_claimed + claimable > u64::MAX {
        r == Err::<RedeemReceipt, CarsaError>(CarsaError::Overflow)
    } else {
        let remaining = (staked - amount) as u64;
        &&& r == Ok::<RedeemReceipt, CarsaError>(RedeemReceipt {
            amount_redeemed: amount,
            yield_claimed: claimable as u64,
            remaining_stake: remaining,
        })
        &&& post.user == pre.user
        &&& post.pool_state == (PoolState {
            total_voucher_staked: (pre.pool_state.total_voucher_staked - amount) as u64,
            total_stakers: if remaining == 0 {
                (pre.pool_state.total_stakers - 1) as u64
            } else {
                pre.pool_state.total_stakers
            },
            ..pre.pool_state
        })
        &&& post.user_stake_record == (UserStakeRecord {
            staked_amount: remaining,
            user_reward_index: pre.pool_state.reward_index,
            total_yield_claimed: (pre.user_stake_record.total_yield_claimed + claimable) as u64,
            last_action_at: now,
            ..pre.user_stake_record
        })
    }
}

impl RedeemVoucher {
    /// Redeem `amount` staked vouchers and settle the yield accrued since
    /// the user's last interaction, computed on the pre-redemption stake.
    /// Consumes the snapshot: the record's index is set to the pool's.
    pub fn handler(&mut self, amount: u64, now: i64) -> (r: Result<RedeemReceipt, CarsaError>)
        requires
            stake_consistent(old(self).user_stake_record, old(self).pool_state),
        ensures
            redeem_voucher_ensures(*old(self), *final(self), amount, now, r),
    {
        if !self.pool_state.config.withdrawals_enabled {
            return Err(CarsaError::WithdrawalsDisabled);
        }
        if self.user_stake_record.user != self.user {
            return Err(CarsaError::InvalidOwner);
        }
        if amount == 0 {
            return Err(CarsaError::InvalidAmount);
        }
        let staked = self.user_stake_record.staked_amount;
        if amount > staked {
            return Err(CarsaError::InsufficientBalance);
        }

        // Yield accrues on what was staked during the interval, so the diff
        // applies to the stake before the withdrawal is taken out.
        let index_diff: u128 = self.pool_state.reward_index
            - self.user_stake_record.user_reward_index;
        let raw: u128 = match (staked as u128).checked_mul(index_diff) {
            Some(v) => v,
            None => {
                return Err(CarsaError::Overflow);
            },
        };
        let claimable_wide: u128 = raw / REWARD_INDEX_SCALE;
        let claimable: u64 = match narrow_u128_to_u64(claimable_wide) {
            Ok(v) => v,
            Err(_) => {
                return Err(CarsaError::Overflow);
            },
        };
        let new_claimed: u64 = match self.user_stake_record.total_yield_claimed.checked_add(
            claimable,
        ) {
            Some(v) => v,
            None => {
                return Err(CarsaError::Overflow);
            },
        };

        let remaining: u64 = staked - amount;
        self.pool_state.total_voucher_staked = self.pool_state.total_voucher_staked - amount;
        self.user_stake_record.staked_amount = remaining;
        self.user_stake_record.user_reward_index = self.pool_state.reward_index;
        self.user_stake_record.total_yield_claimed = new_claimed;
        self.user_stake_record.last_action_at = now;
        if remaining == 0 {
            self.pool_state.total_stakers = self.pool_state.total_stakers - 1;
        }
        Ok(RedeemReceipt {
            amount_redeemed: amount,
            yield_claimed: claimable,
            remaining_stake: remaining,
        })
    }
}

/// Reconfiguration context: the caller and the pool.
pub struct UpdatePoolConfig {
    /// The wallet asking for the update; must be the pool authority.
    pub pool_authority: u64,
    /// The pool state.
    pub pool_state: PoolState,
}

/// Full behaviour of a configuration update: authority check, the same
/// validation as initialization, and wholesale replacement.
pub open spec fn update_pool_config_ensures(
    pre: UpdatePoolConfig,
    post: UpdatePoolConfig,
    new_config: PoolConfig,
    r: Result<(), CarsaError>,
) -> bool {
    &&& (r is Err ==> post == pre)
    &&& if pre.pool_authority != pre.pool_state.pool_authority {
        r == Err::<(), CarsaError>(CarsaError::Unauthorized)
    } else if !pool_config_wf(new_config) {
        r == Err::<(), CarsaError>(CarsaError::InvalidAmount)
    } else {
        &&& r is Ok
        &&& post.pool_authority == pre.pool_authority
        &&& post.pool_state == (PoolState { config: new_config, ..pre.pool_state })
    }
}

impl UpdatePoolConfig {
    /// Replace the pool configuration wholesale after re-validating it;
    /// only the pool authority may do so.
    pub fn handler(&mut self, new_config: PoolConfig) -> (r: Result<(), CarsaError>)
        ensures
            update_pool_config_ensures(*old(self), *final(self), new_config, r),
    {
        if self.pool_authority != self.pool_state.pool_authority {
            return Err(CarsaError::Unauthorized);
        }
        if new_config.min_stake_amount == 0 {
            return Err(CarsaError::InvalidAmount);
        }
        if new_config.max_stake_per_user < new_config.min_stake_amount {
            return Err(CarsaError::InvalidAmount);
        }
        if new_config.apy_basis_points > BPS_DENOMINATOR as u16 {
            return Err(CarsaError::InvalidAmount);
        }
        self.pool_state.config = new_config;
        Ok(())
    }
}

} // verus!
