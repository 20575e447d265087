//! Laws of the staking core that relate several operations.
//!
//! Properties that a single contract already pins down (the exact reward
//! formula, the exact error conditions) live in the `ensures` of the
//! functions themselves; the lemmas here state the behaviour of the core
//! across calls and over all inputs.

use vstd::arithmetic::div_mod::lemma_div_is_ordered;
use vstd::arithmetic::mul::lemma_mul_inequality;
use vstd::arithmetic::mul::lemma_mul_nonnegative;
use vstd::arithmetic::mul::lemma_mul_upper_bound;
use vstd::prelude::*;

use crate::errors::StakingError;
use crate::ledger::LedgerView;
use crate::ledger::TokenTransfer;
use crate::ledger::spec_initialize;
use crate::ledger::spec_stake_key;
use crate::ledger::spec_stake_tokens;
use crate::ledger::spec_unstake_tokens;
use crate::reward::SCALE;
use crate::reward::spec_reward;

verus! {

/// Accrued rewards never decrease when the staked amount or the elapsed
/// time grows (the rate held fixed); in particular doubling either one
/// never decreases the reward.
pub proof fn lemma_reward_monotonic(
    amount1: int,
    amount2: int,
    rate: int,
    elapsed1: int,
    elapsed2: int,
)
    requires
        0 <= amount1 <= amount2,
        0 <= rate,
        0 <= elapsed1 <= elapsed2,
    ensures
        spec_reward(amount1, rate, elapsed1) <= spec_reward(amount2, rate, elapsed2),
{
    lemma_mul_inequality(amount1, amount2, rate);
    lemma_mul_nonnegative(amount1, rate);
    lemma_mul_upper_bound(amount1 * rate, amount2 * rate, elapsed1, elapsed2);
    lemma_div_is_ordered(amount1 * rate * elapsed1, amount2 * rate * elapsed2, SCALE as int);
}

/// No time elapsed means no reward, whatever the amount and the rate.
pub proof fn lemma_reward_zero_elapsed(amount: int, rate: int)
    ensures
        spec_reward(amount, rate, 0) == 0,
{
    assert(amount * rate * 0 == 0);
}

/// Initializing a pool twice for the same mint fails with
/// `PoolAlreadyExists`, and the second call leaves the whole store — in
/// particular the original pool record — unchanged.
pub proof fn lemma_initialize_twice_fails(
    s: LedgerView,
    authority1: u64,
    authority2: u64,
    token_mint: u64,
    stake_rate1: u64,
    stake_rate2: u64,
)
    requires
        spec_initialize(s, authority1, token_mint, stake_rate1).1 is Ok,
    ensures
        ({
            let s1 = spec_initialize(s, authority1, token_mint, stake_rate1).0;
            let (s2, result) = spec_initialize(s1, authority2, token_mint, stake_rate2);
            result == Err::<(), StakingError>(StakingError::PoolAlreadyExists) && s2 == s1
        }),
{
}

/// Staking `amount` and immediately unstaking `amount` at the same time
/// succeeds, returns exactly `amount` (the reward over zero elapsed time
/// is zero), and restores the pool's total to its pre-stake value.
pub proof fn lemma_stake_then_immediate_unstake(
    s: LedgerView,
    user: u64,
    token_mint: u64,
    amount: u64,
    now: i64,
)
    requires
        s.pools.contains_key(token_mint),
        s.pools[token_mint].total_staked + amount <= u64::MAX,
    ensures
        ({
            let (s1, r1) = spec_stake_tokens(s, user, token_mint, amount, now);
            let (s2, r2) = spec_unstake_tokens(s1, user, token_mint, amount, now);
            r1 is Ok && r2 == Ok::<TokenTransfer, StakingError>(
                TokenTransfer { from: token_mint, to: user, amount },
            ) && s2.pools[token_mint].total_staked == s.pools[token_mint].total_staked
        }),
{
    lemma_reward_zero_elapsed(amount as int, s.pools[token_mint].stake_rate as int);
}

/// Unstaking more than the recorded stake fails with `InsufficientStake`
/// and leaves the whole store — both the pool and the user record —
/// unchanged.
pub proof fn lemma_unstake_insufficient(
    s: LedgerView,
    user: u64,
    token_mint: u64,
    amount: u64,
    now: i64,
)
    requires
        s.pools.contains_key(token_mint),
        s.stakes.contains_key(spec_stake_key(user, token_mint)),
        s.stakes[spec_stake_key(user, token_mint)].amount < amount,
    ensures
        ({
            let (s2, result) = spec_unstake_tokens(s, user, token_mint, amount, now);
            result == Err::<TokenTransfer, StakingError>(StakingError::InsufficientStake) && s2
                == s
        }),
{
}

} // verus!
