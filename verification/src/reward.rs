//! Time-proportional reward accrual.
//!
//! A stake of `amount` units in a pool with rate `rate` accrues, over
//! `elapsed` time units, `floor(amount * rate * elapsed / SCALE)` reward
//! units.  The product of three 64-bit values can exceed 64 bits, so the
//! executable calculator works in a 128-bit intermediate and reports
//! overflow instead of wrapping.

use vstd::arithmetic::div_mod::lemma_div_is_ordered;
use vstd::arithmetic::mul::lemma_mul_upper_bound;
use vstd::prelude::*;

use crate::errors::StakingError;

verus! {

/// Fixed normalization constant of the reward formula.
pub const SCALE: u64 = 1000;

/// Mathematical reward accrued by `amount` staked units at `rate` over
/// `elapsed` time units: `floor(amount * rate * elapsed / SCALE)`.
pub open spec fn spec_reward(amount: int, rate: int, elapsed: int) -> int
    recommends
        amount >= 0,
        rate >= 0,
        elapsed >= 0,
{
    (amount * rate * elapsed) / (SCALE as int)
}

/// Computes `floor(amount * rate * elapsed / SCALE)`, failing with
/// `ArithmeticOverflow` exactly when the true result does not fit in a
/// 64-bit unsigned integer.
pub fn calculate_reward(amount: u64, rate: u64, elapsed: u64) -> (r: Result<
    u64,
    StakingError,
>)
    ensures
        spec_reward(amount as int, rate as int, elapsed as int) <= u64::MAX ==> r == Ok::<
            u64,
            StakingError,
        >(spec_reward(amount as int, rate as int, elapsed as int) as u64),
        spec_reward(amount as int, rate as int, elapsed as int) > u64::MAX ==> r == Err::<
            u64,
            StakingError,
        >(StakingError::ArithmeticOverflow),
{
    proof {
        lemma_mul_upper_bound(amount as int, u64::MAX as int, rate as int, u64::MAX as int);
    }
    let pair: u128 = (amount as u128) * (rate as u128);
    match pair.checked_mul(elapsed as u128) {
        None => {
            proof {
                let product = (amount as int) * (rate as int) * (elapsed as int);
                assert(product > u128::MAX);
                lemma_div_is_ordered(u128::MAX as int + 1, product, SCALE as int);
                assert((u128::MAX as int + 1) / (SCALE as int) > u64::MAX);
            }
            Err(StakingError::ArithmeticOverflow)
        },
        Some(product) => {
            let quotient: u128 = product / (SCALE as u128);
            if quotient > u64::MAX as u128 {
                Err(StakingError::ArithmeticOverflow)
            } else {
                Ok(quotient as u64)
            }
        },
    }
}

/// Rewards accrued by `amount` at `rate` from the baseline `staked_at` to
/// the host clock's `now`; a clock behind the baseline is an error, never a
/// reward.
pub open spec fn spec_reward_outcome(amount: u64, rate: u64, staked_at: i64, now: i64) -> Result<
    u64,
    StakingError,
> {
    if now < staked_at {
        Err(StakingError::InvalidClock)
    } else if spec_reward(amount as int, rate as int, now - staked_at) > u64::MAX {
        Err(StakingError::ArithmeticOverflow)
    } else {
        Ok(spec_reward(amount as int, rate as int, now - staked_at) as u64)
    }
}

/// Computes the reward accrued between `staked_at` and `now`.
pub fn reward_for_period(amount: u64, rate: u64, staked_at: i64, now: i64) -> (r: Result<
    u64,
    StakingError,
>)
    ensures
        r == spec_reward_outcome(amount, rate, staked_at, now),
{
    if now < staked_at {
        return Err(StakingError::InvalidClock);
    }
    let elapsed: u64 = ((now as i128) - (staked_at as i128)) as u64;
    calculate_reward(amount, rate, elapsed)
}

} // verus!
