use carsa::error::CarsaError;
use carsa::pool_ledger::PoolLedger;
use carsa::state::{PoolConfig, UserStakeRecord};
use carsa::voucher_pool::RedeemVoucher;

const DELEGATE: u64 = 11;
const AUTHORITY: u64 = 10;

fn open_pool(min: u64, max: u64, apy: u16) -> PoolLedger {
    let config = PoolConfig {
        min_stake_amount: min,
        max_stake_per_user: max,
        deposits_enabled: true,
        withdrawals_enabled: true,
        apy_basis_points: apy,
    };
    PoolLedger::initialize(1, AUTHORITY, DELEGATE, 12, 13, config, 0).unwrap()
}

#[test]
fn initialize_pool_validates_config() {
    let mut config = PoolConfig {
        min_stake_amount: 0,
        max_stake_per_user: 10_000,
        deposits_enabled: true,
        withdrawals_enabled: true,
        apy_basis_points: 1200,
    };
    assert_eq!(
        PoolLedger::initialize(1, AUTHORITY, DELEGATE, 12, 13, config, 0).err(),
        Some(CarsaError::InvalidAmount)
    );
    config.min_stake_amount = 100;
    config.max_stake_per_user = 99;
    assert_eq!(
        PoolLedger::initialize(1, AUTHORITY, DELEGATE, 12, 13, config, 0).err(),
        Some(CarsaError::InvalidAmount)
    );
    config.max_stake_per_user = 10_000;
    config.apy_basis_points = 10_001;
    assert_eq!(
        PoolLedger::initialize(1, AUTHORITY, DELEGATE, 12, 13, config, 0).err(),
        Some(CarsaError::InvalidAmount)
    );
    config.apy_basis_points = 10_000;
    let pool = PoolLedger::initialize(1, AUTHORITY, DELEGATE, 12, 13, config, 7).unwrap();
    assert_eq!(pool.pool.total_voucher_staked, 0);
    assert_eq!(pool.pool.total_stakers, 0);
    assert_eq!(pool.pool.reward_index, 0);
    assert_eq!(pool.pool.created_at, 7);
}

#[test]
fn yield_scenario_matches_the_index_formula() {
    // Deposit 500, record 1000 yield: the index grows by
    // 1000 * 10^12 / 500 = 2 * 10^12, and redeeming all 500 settles
    // 500 * 2*10^12 / 10^12 = 1000.
    let mut pool = open_pool(100, 10_000, 1200);
    pool.deposit_voucher(DELEGATE, 21, 500, 1).unwrap();
    assert_eq!(pool.pool.total_voucher_staked, 500);
    assert_eq!(pool.pool.total_stakers, 1);
    pool.record_yield(DELEGATE, 1000, 2).unwrap();
    assert_eq!(pool.pool.reward_index, 2_000_000_000_000);
    assert_eq!(pool.pool.total_yield_earned, 1000);
    assert_eq!(pool.pool.total_sol_staked, 1000);
    let receipt = pool.redeem_voucher(21, 500, 3).unwrap();
    assert_eq!(receipt.yield_claimed, 1000);
    assert_eq!(receipt.amount_redeemed, 500);
    assert_eq!(receipt.remaining_stake, 0);
    assert_eq!(pool.pool.total_voucher_staked, 0);
    assert_eq!(pool.pool.total_stakers, 0);
    assert_eq!(pool.stakes[0].total_yield_claimed, 1000);
}

#[test]
fn stakers_share_yield_proportionally() {
    // A stakes 100 and B stakes 300 before a yield of 400: their claims
    // stand in ratio 1:3 whatever the order of redemption.
    let mut pool = open_pool(100, 10_000, 1200);
    pool.deposit_voucher(DELEGATE, 1, 100, 1).unwrap();
    pool.deposit_voucher(DELEGATE, 2, 300, 1).unwrap();
    pool.record_yield(DELEGATE, 400, 2).unwrap();
    let claim_a = pool.redeem_voucher(1, 100, 3).unwrap().yield_claimed;
    let claim_b = pool.redeem_voucher(2, 300, 4).unwrap().yield_claimed;
    assert_eq!(claim_a, 100);
    assert_eq!(claim_b, 300);
    assert_eq!(claim_b, 3 * claim_a);

    let mut other = open_pool(100, 10_000, 1200);
    other.deposit_voucher(DELEGATE, 1, 100, 1).unwrap();
    other.deposit_voucher(DELEGATE, 2, 300, 1).unwrap();
    other.record_yield(DELEGATE, 400, 2).unwrap();
    let claim_b_first = other.redeem_voucher(2, 300, 3).unwrap().yield_claimed;
    let claim_a_second = other.redeem_voucher(1, 100, 4).unwrap().yield_claimed;
    assert_eq!(claim_b_first, 300);
    assert_eq!(claim_a_second, 100);
}

#[test]
fn late_joiner_accrues_nothing_from_earlier_yield() {
    let mut pool = open_pool(100, 10_000, 1200);
    pool.deposit_voucher(DELEGATE, 1, 400, 1).unwrap();
    pool.record_yield(DELEGATE, 800, 2).unwrap();
    // B joins after the yield event: their snapshot is the current index,
    // not zero.
    pool.deposit_voucher(DELEGATE, 2, 400, 3).unwrap();
    assert_eq!(pool.stakes[1].user_reward_index, pool.pool.reward_index);
    let claim_b = pool.redeem_voucher(2, 400, 4).unwrap().yield_claimed;
    assert_eq!(claim_b, 0);
    let claim_a = pool.redeem_voucher(1, 400, 5).unwrap().yield_claimed;
    assert_eq!(claim_a, 800);
}

#[test]
fn yield_with_no_stakers_is_not_distributed_retroactively() {
    let mut pool = open_pool(100, 10_000, 1200);
    pool.record_yield(DELEGATE, 500, 1).unwrap();
    assert_eq!(pool.pool.reward_index, 0);
    assert_eq!(pool.pool.total_yield_earned, 500);
    // A later depositor starts at the unchanged index and accrues nothing
    // from that event.
    pool.deposit_voucher(DELEGATE, 1, 200, 2).unwrap();
    let claim = pool.redeem_voucher(1, 200, 3).unwrap().yield_claimed;
    assert_eq!(claim, 0);
}

#[test]
fn deposit_validation_and_authorization() {
    let mut pool = open_pool(100, 10_000, 1200);
    assert_eq!(
        pool.deposit_voucher(99, 1, 500, 1),
        Err(CarsaError::UnauthorizedDelegate)
    );
    assert_eq!(pool.deposit_voucher(DELEGATE, 1, 0, 1), Err(CarsaError::InvalidAmount));
    assert_eq!(pool.deposit_voucher(DELEGATE, 1, 99, 1), Err(CarsaError::InvalidAmount));
    assert_eq!(
        pool.deposit_voucher(DELEGATE, 1, 10_001, 1),
        Err(CarsaError::ExceedsMaxStake)
    );
    pool.deposit_voucher(DELEGATE, 1, 9_000, 1).unwrap();
    // A second deposit may not push the user's total over the cap.
    assert_eq!(
        pool.deposit_voucher(DELEGATE, 1, 1_001, 2),
        Err(CarsaError::ExceedsMaxStake)
    );
    pool.deposit_voucher(DELEGATE, 1, 1_000, 2).unwrap();
    assert_eq!(pool.stakes[0].staked_amount, 10_000);
    assert_eq!(pool.pool.total_stakers, 1);
}

#[test]
fn disabled_pool_gates_deposits_and_withdrawals() {
    let mut pool = open_pool(100, 10_000, 1200);
    pool.deposit_voucher(DELEGATE, 1, 500, 1).unwrap();
    let closed = PoolConfig {
        min_stake_amount: 100,
        max_stake_per_user: 10_000,
        deposits_enabled: false,
        withdrawals_enabled: false,
        apy_basis_points: 1200,
    };
    pool.update_pool_config(AUTHORITY, closed).unwrap();
    assert_eq!(
        pool.deposit_voucher(DELEGATE, 2, 500, 2),
        Err(CarsaError::DepositsDisabled)
    );
    assert_eq!(pool.redeem_voucher(1, 500, 2), Err(CarsaError::WithdrawalsDisabled));
}

#[test]
fn update_pool_config_checks_authority_and_validates() {
    let mut pool = open_pool(100, 10_000, 1200);
    let config = PoolConfig {
        min_stake_amount: 200,
        max_stake_per_user: 20_000,
        deposits_enabled: true,
        withdrawals_enabled: true,
        apy_basis_points: 800,
    };
    assert_eq!(pool.update_pool_config(99, config), Err(CarsaError::Unauthorized));
    let bad = PoolConfig { min_stake_amount: 0, ..config };
    assert_eq!(pool.update_pool_config(AUTHORITY, bad), Err(CarsaError::InvalidAmount));
    pool.update_pool_config(AUTHORITY, config).unwrap();
    assert_eq!(pool.pool.config, config);
}

#[test]
fn record_yield_validation() {
    let mut pool = open_pool(100, 10_000, 1200);
    assert_eq!(
        pool.record_yield(99, 100, 1),
        Err(CarsaError::UnauthorizedDelegate)
    );
    assert_eq!(pool.record_yield(DELEGATE, 0, 1), Err(CarsaError::InvalidAmount));
}

#[test]
fn redeem_validation() {
    let mut pool = open_pool(100, 10_000, 1200);
    pool.deposit_voucher(DELEGATE, 1, 500, 1).unwrap();
    assert_eq!(pool.redeem_voucher(2, 100, 2), Err(CarsaError::RecordNotFound));
    assert_eq!(pool.redeem_voucher(1, 0, 2), Err(CarsaError::InvalidAmount));
    assert_eq!(pool.redeem_voucher(1, 501, 2), Err(CarsaError::InsufficientBalance));
    let receipt = pool.redeem_voucher(1, 200, 2).unwrap();
    assert_eq!(receipt.remaining_stake, 300);
    assert_eq!(pool.pool.total_stakers, 1);
    assert_eq!(pool.pool.total_voucher_staked, 300);
}

#[test]
fn redeem_handler_checks_the_record_owner() {
    let pool = open_pool(100, 10_000, 1200);
    let mut ctx = RedeemVoucher {
        user: 2,
        pool_state: pool.pool,
        user_stake_record: UserStakeRecord {
            user: 1,
            pool: 1,
            staked_amount: 0,
            user_reward_index: 0,
            total_yield_claimed: 0,
            staked_at: 0,
            last_action_at: 0,
        },
    };
    assert_eq!(ctx.handler(100, 2), Err(CarsaError::InvalidOwner));
}

#[test]
fn partial_redemption_keeps_accruing_on_the_remainder() {
    let mut pool = open_pool(100, 10_000, 1200);
    pool.deposit_voucher(DELEGATE, 1, 1_000, 1).unwrap();
    pool.record_yield(DELEGATE, 1_000, 2).unwrap();
    // First settlement: full stake over the first interval.
    let first = pool.redeem_voucher(1, 400, 3).unwrap();
    assert_eq!(first.yield_claimed, 1_000);
    assert_eq!(first.remaining_stake, 600);
    // Second interval accrues on the remaining 600 only.
    pool.record_yield(DELEGATE, 300, 4).unwrap();
    let second = pool.redeem_voucher(1, 600, 5).unwrap();
    assert_eq!(second.yield_claimed, 300);
    assert_eq!(pool.stakes[0].total_yield_claimed, 1_300);
    assert_eq!(pool.pool.total_stakers, 0);
}

#[test]
fn rejoining_user_starts_a_fresh_position() {
    let mut pool = open_pool(100, 10_000, 1200);
    pool.deposit_voucher(DELEGATE, 1, 500, 1).unwrap();
    pool.record_yield(DELEGATE, 500, 2).unwrap();
    pool.redeem_voucher(1, 500, 3).unwrap();
    assert_eq!(pool.pool.total_stakers, 0);
    pool.deposit_voucher(DELEGATE, 1, 200, 4).unwrap();
    assert_eq!(pool.pool.total_stakers, 1);
    assert_eq!(pool.stakes[0].total_yield_claimed, 0);
    assert_eq!(pool.stakes[0].user_reward_index, pool.pool.reward_index);
    assert_eq!(pool.stakes[0].staked_at, 4);
}

#[test]
fn overflowing_pool_arithmetic_is_rejected() {
    let mut pool = open_pool(1, u64::MAX, 1200);
    pool.deposit_voucher(DELEGATE, 1, u64::MAX, 1).unwrap();
    // A further deposit would overflow the user's staked amount.
    assert_eq!(pool.deposit_voucher(DELEGATE, 1, 1, 2), Err(CarsaError::Overflow));
    assert_eq!(pool.stakes[0].staked_amount, u64::MAX);
    // Yield totals are checked the same way.
    pool.record_yield(DELEGATE, u64::MAX, 3).unwrap();
    assert_eq!(pool.record_yield(DELEGATE, 1, 4), Err(CarsaError::Overflow));
    assert_eq!(pool.pool.total_yield_earned, u64::MAX);
}

#[test]
fn rounding_dust_stays_in_the_vault() {
    // Yield 1 over 3 staked: the index floors to 333_333_333_333 and a full
    // redemption claims 3 * 333_333_333_333 / 10^12 = 0 - the dust is never
    // credited to anyone.
    let mut pool = open_pool(1, 10_000, 1200);
    pool.deposit_voucher(DELEGATE, 1, 3, 1).unwrap();
    pool.record_yield(DELEGATE, 1, 2).unwrap();
    assert_eq!(pool.pool.reward_index, 333_333_333_333);
    let claim = pool.redeem_voucher(1, 3, 3).unwrap().yield_claimed;
    assert_eq!(claim, 0);
}
