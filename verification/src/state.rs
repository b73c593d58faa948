//! Ledger record types and their well-formedness.
//!
//! Principals (wallets, mints, vaults, pools) are named by plain 64-bit
//! identifiers; the store that persists these records and the token service
//! that moves balances live outside the engine. Bounded text fields are held
//! as fixed-size zero-padded byte arrays, as the durable layout stores them.

use vstd::prelude::*;

verus! {

/// Basis-point denominator: 10000 basis points are 100%.
pub const BPS_DENOMINATOR: u64 = 10_000;

/// Base units of one whole token (nine decimals).
pub const TOKEN_BASE_UNITS: u64 = 1_000_000_000;

/// Fiat currency units per whole token: one token counts as 1000 currency
/// units when a purchase blends fiat and redeemed tokens.
pub const TOKEN_TO_FIAT_RATE: u64 = 1_000;

/// Largest fiat amount a single purchase may carry.
pub const MAX_PURCHASE_AMOUNT: u64 = 1_000_000_000;

/// Largest amount a single peer-to-peer transfer may carry.
pub const MAX_TRANSFER_AMOUNT: u64 = 10_000_000_000_000;

/// Largest amount a single direct mint may carry.
pub const MAX_MINT_AMOUNT: u64 = 10_000_000_000_000;

/// Largest token amount a single merchant redemption may carry.
pub const MAX_REDEMPTION_AMOUNT: u64 = 10_000_000_000_000;

/// Scale of the pool reward index: yield per staked base unit is tracked in
/// units of 10^-12 so integer division keeps sub-unit precision.
pub const REWARD_INDEX_SCALE: u128 = 1_000_000_000_000;

/// Singleton configuration of the reward-token mint.
///
/// `total_supply` is tracked by the engine itself: every mint adds its exact
/// amount, every burn subtracts it, and nothing else touches it.
#[derive(Clone, Copy, Debug, PartialEq, Eq)]
pub struct LokalMintConfig {
    /// Identifier of the token mint this configuration governs.
    pub mint: u64,
    /// The only principal allowed to mint outside of purchase rewards.
    pub update_authority: u64,
    /// Sum of all mint deltas minus all burn deltas ever applied.
    pub total_supply: u64,
}

/// A participating merchant and its cumulative statistics.
#[derive(Clone, Copy, Debug, PartialEq, Eq)]
pub struct MerchantAccount {
    /// Wallet that owns the merchant and receives its payments.
    pub merchant_wallet: u64,
    /// Display name, zero-padded to 32 bytes.
    pub name: [u8; 32],
    /// Business category, zero-padded to 16 bytes.
    pub category: [u8; 16],
    /// Cashback fraction in basis points; at most 10000.
    pub cashback_rate: u16,
    /// Whether purchases and redemptions are currently accepted.
    pub is_active: bool,
    /// Number of purchases and redemptions processed.
    pub total_transactions: u64,
    /// Reward tokens distributed for this merchant's purchases.
    pub total_rewards_distributed: u64,
    /// Cumulative purchase and redemption value, in currency units.
    pub total_volume: u64,
    /// Registration time, seconds since the epoch.
    pub created_at: i64,
}

/// A merchant record's internal invariant.
pub open spec fn merchant_wf(m: MerchantAccount) -> bool {
    m.cashback_rate <= BPS_DENOMINATOR
}

/// Immutable audit row written once per processed purchase.
#[derive(Clone, Copy, Debug, PartialEq, Eq)]
pub struct PurchaseTransaction {
    /// The customer that paid.
    pub customer: u64,
    /// The merchant that was paid.
    pub merchant: u64,
    /// Fiat part of the payment, in currency units.
    pub fiat_amount: u64,
    /// Token part of the payment, in base units; zero if none.
    pub redeemed_token_amount: u64,
    /// Blended purchase value in currency units: fiat plus the fiat
    /// equivalent of the redeemed tokens.
    pub total_value: u64,
    /// Reward tokens minted for this purchase, in base units.
    pub reward_amount: u64,
    /// Cashback rate applied, in basis points.
    pub cashback_rate: u16,
    /// Whether tokens were part of the payment.
    pub used_tokens: bool,
    /// Time of the purchase, seconds since the epoch.
    pub timestamp: i64,
    /// Caller-chosen unique key; replaying it is rejected.
    pub transaction_id: [u8; 32],
}

/// Immutable audit row for a peer-to-peer transfer.
#[derive(Clone, Copy, Debug, PartialEq, Eq)]
pub struct TokenTransfer {
    /// The sending wallet.
    pub from: u64,
    /// The receiving wallet.
    pub to: u64,
    /// Amount moved, in base units.
    pub amount: u64,
    /// Time of the transfer, seconds since the epoch.
    pub timestamp: i64,
    /// Caller-chosen unique key; replaying it is rejected.
    pub transaction_id: [u8; 32],
    /// Free-form note, zero-padded to 64 bytes.
    pub memo: [u8; 64],
}

/// Immutable audit row for tokens spent at a merchant.
#[derive(Clone, Copy, Debug, PartialEq, Eq)]
pub struct TokenRedemption {
    /// The customer that spent tokens.
    pub customer: u64,
    /// The merchant where they were spent.
    pub merchant: u64,
    /// Tokens redeemed, in base units.
    pub token_amount: u64,
    /// Fiat value granted for them, in currency units.
    pub fiat_value: u64,
    /// Discount applied, in basis points.
    pub discount_rate: u16,
    /// Time of the redemption, seconds since the epoch.
    pub timestamp: i64,
    /// Caller-chosen unique key; replaying it is rejected.
    pub transaction_id: [u8; 32],
}

/// Configuration of the voucher staking pool.
#[derive(Clone, Copy, Debug, PartialEq, Eq)]
pub struct PoolConfig {
    /// Smallest amount a single deposit may carry; positive.
    pub min_stake_amount: u64,
    /// Largest total stake a single user may hold; at least the minimum.
    pub max_stake_per_user: u64,
    /// Whether the pool accepts new deposits.
    pub deposits_enabled: bool,
    /// Whether stakers may withdraw.
    pub withdrawals_enabled: bool,
    /// Advertised annual yield in basis points; at most 10000.
    pub apy_basis_points: u16,
}

/// A pool configuration's internal invariant.
pub open spec fn pool_config_wf(c: PoolConfig) -> bool {
    &&& c.min_stake_amount > 0
    &&& c.max_stake_per_user >= c.min_stake_amount
    &&& c.apy_basis_points <= BPS_DENOMINATOR
}

/// Singleton state of the voucher staking pool.
///
/// `reward_index` only ever grows: each yield event adds the yield earned per
/// staked base unit, scaled by [`REWARD_INDEX_SCALE`], so one O(1) update
/// credits every staker proportionally.
#[derive(Clone, Copy, Debug, PartialEq, Eq)]
pub struct PoolState {
    /// Administrator allowed to change the configuration.
    pub pool_authority: u64,
    /// Principal allowed to deposit on users' pre-approved behalf and to
    /// record yield.
    pub pool_delegate: u64,
    /// Token account holding all staked vouchers; owned by the pool, never
    /// by any single user.
    pub vault_ata: u64,
    /// Mint of the voucher token accepted by the pool.
    pub voucher_mint: u64,
    /// Current configuration.
    pub config: PoolConfig,
    /// Voucher tokens currently staked, in base units.
    pub total_voucher_staked: u64,
    /// External stake accumulated from yield activity.
    pub total_sol_staked: u64,
    /// Yield ever recorded for the pool.
    pub total_yield_earned: u64,
    /// Number of users with a positive stake.
    pub total_stakers: u64,
    /// Cumulative yield per staked base unit, scaled by
    /// [`REWARD_INDEX_SCALE`]; never decreases.
    pub reward_index: u128,
    /// Creation time, seconds since the epoch.
    pub created_at: i64,
    /// Time of the last yield event, seconds since the epoch.
    pub last_yield_update: i64,
}

/// A pool's internal invariant.
pub open spec fn pool_wf(p: PoolState) -> bool {
    pool_config_wf(p.config)
}

/// One user's position in the staking pool.
///
/// The record is the sole source of truth for the user's claim: the snapshot
/// `user_reward_index` marks the pool index at the user's last interaction,
/// and diffing it against the current index yields their unclaimed share.
#[derive(Clone, Copy, Debug, PartialEq, Eq)]
pub struct UserStakeRecord {
    /// The staking user.
    pub user: u64,
    /// The pool the stake belongs to.
    pub pool: u64,
    /// Voucher tokens this user has staked, in base units.
    pub staked_amount: u64,
    /// Pool reward index at the user's last deposit or redemption.
    pub user_reward_index: u128,
    /// Yield credited to the user so far.
    pub total_yield_claimed: u64,
    /// Time of the first deposit, seconds since the epoch.
    pub staked_at: i64,
    /// Time of the last deposit or redemption, seconds since the epoch.
    pub last_action_at: i64,
}

/// Consistency of a stake record with the pool it belongs to: the snapshot
/// never runs ahead of the pool index, the stake is covered by the pool
/// total, and a positive stake is counted in `total_stakers`.
pub open spec fn stake_consistent(r: UserStakeRecord, p: PoolState) -> bool {
    &&& r.user_reward_index <= p.reward_index
    &&& r.staked_amount <= p.total_voucher_staked
    &&& (r.staked_amount > 0 ==> p.total_stakers >= 1)
}

/// The fixed-size field `dst` holds exactly the bytes of `src`, zero-padded.
pub open spec fn padded_bytes<const N: usize>(dst: [u8; N], src: Seq<u8>) -> bool {
    &&& (forall|i: int| 0 <= i < src.len() ==> dst[i] == src[i])
    &&& (forall|i: int| src.len() <= i < N ==> dst[i] == 0)
}

/// Copy a bounded byte string into its fixed-size zero-padded storage form.
pub fn copy_zero_padded<const N: usize>(src: &Vec<u8>) -> (r: [u8; N])
    requires
        src@.len() <= N,
    ensures
        padded_bytes::<N>(r, src@),
{
    let mut out: [u8; N] = [0u8; N];
    let mut i: usize = 0;
    while i < src.len()
        invariant
            i <= src@.len() <= N,
            forall|j: int| 0 <= j < i ==> out@[j] == src@[j],
            forall|j: int| i <= j < N ==> out@[j] == 0,
        decreases src@.len() - i,
    {
        out[i] = src[i];
        i += 1;
    }
    out
}

impl UserStakeRecord {
    /// A semantically empty record for a user who has never staked: all
    /// counters zero, ready for a first deposit.
    pub fn empty(user: u64, pool: u64) -> (r: UserStakeRecord)
        ensures
            r == (UserStakeRecord {
                user,
                pool,
                staked_amount: 0,
                user_reward_index: 0,
                total_yield_claimed: 0,
                staked_at: 0,
                last_action_at: 0,
            }),
    {
        UserStakeRecord {
            user,
            pool,
            staked_amount: 0,
            user_reward_index: 0,
            total_yield_claimed: 0,
            staked_at: 0,
            last_action_at: 0,
        }
    }
}

} // verus!
