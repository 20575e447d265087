use staking_program::StakePool;
use staking_program::StakingError;
use staking_program::StakingLedger;
use staking_program::TokenTransfer;
use staking_program::UserStake;
use staking_program::calculate_reward;
use staking_program::ledger::transfer_result;
use staking_program::state::apply_claim;
use staking_program::state::apply_stake;
use staking_program::state::apply_unstake;

const MINT: u64 = 7;
const AUTHORITY: u64 = 1;
const ALICE: u64 = 100;
const BOB: u64 = 200;

#[test]
fn reward_formula_exact_values() {
    assert_eq!(calculate_reward(500, 100, 10), Ok(500));
    assert_eq!(calculate_reward(500, 100, 20), Ok(1000));
    assert_eq!(calculate_reward(1, 1, 1), Ok(0));
    assert_eq!(calculate_reward(3, 700, 1), Ok(2));
}

#[test]
fn reward_zero_elapsed_is_zero() {
    assert_eq!(calculate_reward(0, 0, 0), Ok(0));
    assert_eq!(calculate_reward(500, 100, 0), Ok(0));
    assert_eq!(calculate_reward(u64::MAX, u64::MAX, 0), Ok(0));
}

#[test]
fn reward_monotonic_in_amount_and_elapsed() {
    let base = calculate_reward(500, 100, 10).unwrap();
    assert!(calculate_reward(1000, 100, 10).unwrap() >= base);
    assert!(calculate_reward(500, 100, 20).unwrap() >= base);
    assert!(calculate_reward(1000, 100, 20).unwrap() >= base);
}

#[test]
fn reward_overflow_at_boundary() {
    assert_eq!(
        calculate_reward(u64::MAX, u64::MAX, 2),
        Err(StakingError::ArithmeticOverflow)
    );
    assert_eq!(
        calculate_reward(u64::MAX, u64::MAX, u64::MAX),
        Err(StakingError::ArithmeticOverflow)
    );
    assert_eq!(
        calculate_reward(u64::MAX, 1001, 1),
        Err(StakingError::ArithmeticOverflow)
    );
    // The largest representable reward is still computed exactly.
    assert_eq!(calculate_reward(u64::MAX, 1000, 1), Ok(u64::MAX));
}

#[test]
fn initialize_creates_empty_pool() {
    let mut ledger = StakingLedger::new();
    assert_eq!(ledger.initialize_stake_pool(AUTHORITY, MINT, 100), Ok(()));
    assert_eq!(
        ledger.pool(MINT),
        Some(StakePool {
            authority: AUTHORITY,
            token_mint: MINT,
            total_staked: 0,
            stake_rate: 100,
        })
    );
}

#[test]
fn initialize_twice_fails_and_preserves_pool() {
    let mut ledger = StakingLedger::new();
    assert_eq!(ledger.initialize_stake_pool(AUTHORITY, MINT, 100), Ok(()));
    let before = ledger.pool(MINT);
    assert_eq!(
        ledger.initialize_stake_pool(BOB, MINT, 999),
        Err(StakingError::PoolAlreadyExists)
    );
    assert_eq!(ledger.pool(MINT), before);
}

#[test]
fn stake_then_immediate_unstake_returns_amount() {
    let mut ledger = StakingLedger::new();
    ledger.initialize_stake_pool(AUTHORITY, MINT, 100).unwrap();
    let total_before = ledger.pool(MINT).unwrap().total_staked;
    assert_eq!(
        ledger.stake_tokens(ALICE, MINT, 500, 42),
        Ok(TokenTransfer { from: ALICE, to: MINT, amount: 500 })
    );
    assert_eq!(
        ledger.unstake_tokens(ALICE, MINT, 500, 42),
        Ok(TokenTransfer { from: MINT, to: ALICE, amount: 500 })
    );
    assert_eq!(ledger.pool(MINT).unwrap().total_staked, total_before);
    assert_eq!(ledger.user_stake(ALICE, MINT).unwrap().amount, 0);
}

#[test]
fn unstake_more_than_staked_fails_unchanged() {
    let mut ledger = StakingLedger::new();
    ledger.initialize_stake_pool(AUTHORITY, MINT, 100).unwrap();
    ledger.stake_tokens(ALICE, MINT, 500, 0).unwrap();
    let pool_before = ledger.pool(MINT);
    let stake_before = ledger.user_stake(ALICE, MINT);
    assert_eq!(
        ledger.unstake_tokens(ALICE, MINT, 501, 10),
        Err(StakingError::InsufficientStake)
    );
    assert_eq!(ledger.pool(MINT), pool_before);
    assert_eq!(ledger.user_stake(ALICE, MINT), stake_before);
}

#[test]
fn claim_pays_accrued_reward_and_records_debt() {
    let mut ledger = StakingLedger::new();
    ledger.initialize_stake_pool(AUTHORITY, MINT, 100).unwrap();
    ledger.stake_tokens(ALICE, MINT, 500, 0).unwrap();
    assert_eq!(
        ledger.claim_rewards(ALICE, MINT, 10),
        Ok(TokenTransfer { from: MINT, to: ALICE, amount: 500 })
    );
    let stake = ledger.user_stake(ALICE, MINT).unwrap();
    assert_eq!(stake.reward_debt, 500);
    assert_eq!(stake.amount, 500);
    assert_eq!(stake.staked_at, 0);
}

#[test]
fn partial_unstake_pays_stake_plus_reward() {
    let mut ledger = StakingLedger::new();
    ledger.initialize_stake_pool(AUTHORITY, MINT, 100).unwrap();
    ledger.stake_tokens(ALICE, MINT, 500, 0).unwrap();
    // reward = floor(500 * 100 * 20 / 1000) = 1000; transfer = 200 + 1000.
    assert_eq!(
        ledger.unstake_tokens(ALICE, MINT, 200, 20),
        Ok(TokenTransfer { from: MINT, to: ALICE, amount: 1200 })
    );
    assert_eq!(ledger.pool(MINT).unwrap().total_staked, 300);
    let stake = ledger.user_stake(ALICE, MINT).unwrap();
    assert_eq!(stake.amount, 300);
    assert_eq!(stake.staked_at, 0);
    assert_eq!(stake.reward_debt, 0);
}

#[test]
fn restaking_overwrites_and_resets_baseline() {
    let mut ledger = StakingLedger::new();
    ledger.initialize_stake_pool(AUTHORITY, MINT, 100).unwrap();
    ledger.stake_tokens(ALICE, MINT, 500, 0).unwrap();
    ledger.claim_rewards(ALICE, MINT, 10).unwrap();
    ledger.stake_tokens(ALICE, MINT, 200, 30).unwrap();
    let stake = ledger.user_stake(ALICE, MINT).unwrap();
    assert_eq!(stake.amount, 200);
    assert_eq!(stake.staked_at, 30);
    assert_eq!(stake.reward_debt, 0);
    // The pool total accumulates even though the user record is overwritten.
    assert_eq!(ledger.pool(MINT).unwrap().total_staked, 700);
}

#[test]
fn distinct_users_have_distinct_stake_records() {
    let mut ledger = StakingLedger::new();
    ledger.initialize_stake_pool(AUTHORITY, MINT, 100).unwrap();
    ledger.stake_tokens(ALICE, MINT, 500, 0).unwrap();
    ledger.stake_tokens(BOB, MINT, 300, 5).unwrap();
    assert_eq!(ledger.user_stake(ALICE, MINT).unwrap().amount, 500);
    assert_eq!(ledger.user_stake(BOB, MINT).unwrap().amount, 300);
    assert_eq!(ledger.pool(MINT).unwrap().total_staked, 800);
}

#[test]
fn missing_pool_is_reported() {
    let mut ledger = StakingLedger::new();
    assert_eq!(
        ledger.stake_tokens(ALICE, MINT, 500, 0),
        Err(StakingError::PoolNotFound)
    );
    assert_eq!(
        ledger.unstake_tokens(ALICE, MINT, 500, 0),
        Err(StakingError::PoolNotFound)
    );
    assert_eq!(
        ledger.claim_rewards(ALICE, MINT, 0),
        Err(StakingError::PoolNotFound)
    );
}

#[test]
fn missing_user_stake_is_reported() {
    let mut ledger = StakingLedger::new();
    ledger.initialize_stake_pool(AUTHORITY, MINT, 100).unwrap();
    assert_eq!(
        ledger.unstake_tokens(ALICE, MINT, 1, 0),
        Err(StakingError::UserStakeNotFound)
    );
    assert_eq!(
        ledger.claim_rewards(ALICE, MINT, 0),
        Err(StakingError::UserStakeNotFound)
    );
}

#[test]
fn clock_before_baseline_is_invalid() {
    let mut ledger = StakingLedger::new();
    ledger.initialize_stake_pool(AUTHORITY, MINT, 100).unwrap();
    ledger.stake_tokens(ALICE, MINT, 500, 50).unwrap();
    assert_eq!(
        ledger.claim_rewards(ALICE, MINT, 49),
        Err(StakingError::InvalidClock)
    );
    assert_eq!(
        ledger.unstake_tokens(ALICE, MINT, 100, 49),
        Err(StakingError::InvalidClock)
    );
}

#[test]
fn stake_overflowing_pool_total_fails_unchanged() {
    let mut ledger = StakingLedger::new();
    ledger.initialize_stake_pool(AUTHORITY, MINT, 0).unwrap();
    ledger.stake_tokens(ALICE, MINT, u64::MAX, 0).unwrap();
    assert_eq!(
        ledger.stake_tokens(BOB, MINT, 1, 0),
        Err(StakingError::ArithmeticOverflow)
    );
    assert_eq!(ledger.pool(MINT).unwrap().total_staked, u64::MAX);
    assert_eq!(ledger.user_stake(BOB, MINT), None);
}

#[test]
fn unstake_payout_overflow_fails_unchanged() {
    let mut pool = StakePool {
        authority: AUTHORITY,
        token_mint: MINT,
        total_staked: u64::MAX,
        stake_rate: 1000,
    };
    let mut stake = UserStake { amount: u64::MAX, staked_at: 0, reward_debt: 0 };
    // reward = floor(MAX * 1000 * 1 / 1000) = MAX, so MAX + reward overflows.
    assert_eq!(
        apply_unstake(&mut pool, &mut stake, u64::MAX, 1),
        Err(StakingError::ArithmeticOverflow)
    );
    assert_eq!(pool.total_staked, u64::MAX);
    assert_eq!(stake.amount, u64::MAX);
}

#[test]
fn unstake_below_pool_total_underflows() {
    let mut pool = StakePool {
        authority: AUTHORITY,
        token_mint: MINT,
        total_staked: 50,
        stake_rate: 100,
    };
    let mut stake = UserStake { amount: 100, staked_at: 0, reward_debt: 0 };
    assert_eq!(
        apply_unstake(&mut pool, &mut stake, 80, 0),
        Err(StakingError::ArithmeticUnderflow)
    );
    assert_eq!(pool.total_staked, 50);
    assert_eq!(stake.amount, 100);
}

#[test]
fn claim_overflowing_reward_debt_fails_unchanged() {
    let pool = StakePool {
        authority: AUTHORITY,
        token_mint: MINT,
        total_staked: u64::MAX,
        stake_rate: 1000,
    };
    let mut stake = UserStake { amount: u64::MAX, staked_at: 0, reward_debt: u64::MAX };
    assert_eq!(
        apply_claim(&pool, &mut stake, 1),
        Err(StakingError::ArithmeticOverflow)
    );
    assert_eq!(stake.reward_debt, u64::MAX);
}

#[test]
fn zero_rate_pool_accrues_nothing() {
    let mut ledger = StakingLedger::new();
    ledger.initialize_stake_pool(AUTHORITY, MINT, 0).unwrap();
    ledger.stake_tokens(ALICE, MINT, 500, 0).unwrap();
    assert_eq!(
        ledger.claim_rewards(ALICE, MINT, 1_000_000),
        Ok(TokenTransfer { from: MINT, to: ALICE, amount: 0 })
    );
}

#[test]
fn zero_amount_stake_is_accepted() {
    let mut ledger = StakingLedger::new();
    ledger.initialize_stake_pool(AUTHORITY, MINT, 100).unwrap();
    assert_eq!(
        ledger.stake_tokens(ALICE, MINT, 0, 5),
        Ok(TokenTransfer { from: ALICE, to: MINT, amount: 0 })
    );
    assert_eq!(ledger.pool(MINT).unwrap().total_staked, 0);
    let stake = ledger.user_stake(ALICE, MINT).unwrap();
    assert_eq!(stake.amount, 0);
    assert_eq!(stake.staked_at, 5);
}

#[test]
fn repeated_claims_recompute_over_same_baseline() {
    // The accrual baseline is never refreshed by Claim, so a second claim
    // over the same window pays the same reward again.
    let mut ledger = StakingLedger::new();
    ledger.initialize_stake_pool(AUTHORITY, MINT, 100).unwrap();
    ledger.stake_tokens(ALICE, MINT, 500, 0).unwrap();
    assert_eq!(ledger.claim_rewards(ALICE, MINT, 10).unwrap().amount, 500);
    assert_eq!(ledger.claim_rewards(ALICE, MINT, 10).unwrap().amount, 500);
    assert_eq!(ledger.user_stake(ALICE, MINT).unwrap().reward_debt, 1000);
}

#[test]
fn record_level_stake_reports_transfer_of_amount() {
    let mut pool = StakePool {
        authority: AUTHORITY,
        token_mint: MINT,
        total_staked: 10,
        stake_rate: 100,
    };
    let mut stake = UserStake { amount: 3, staked_at: 1, reward_debt: 9 };
    assert_eq!(apply_stake(&mut pool, &mut stake, 40, 8), Ok(40));
    assert_eq!(pool.total_staked, 50);
    assert_eq!(stake, UserStake { amount: 40, staked_at: 8, reward_debt: 0 });
}

#[test]
fn declined_transfer_maps_to_transfer_failed() {
    assert_eq!(transfer_result(true), Ok(()));
    assert_eq!(transfer_result(false), Err(StakingError::TransferFailed));
}
