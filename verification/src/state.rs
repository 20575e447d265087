//! The two persistent records of the staking core, and the transitions a
//! handler applies to loaded records.
//!
//! Identities (authority, mint, user) are plain 64-bit keys supplied by the
//! host's key-derivation scheme; no handler inspects them beyond equality.
//! Each transition is specified by a pure function from the loaded records
//! and the handler's scalar inputs to either the committed records plus the
//! token transfer the host must perform, or the error that aborts the whole
//! invocation with no state change.

use vstd::prelude::*;

use crate::errors::StakingError;
use crate::reward::spec_reward_outcome;
use crate::reward::reward_for_period;

verus! {

/// Global per-mint state: one reward-bearing pool per token mint.
#[derive(Clone, Copy, Debug, PartialEq, Eq, Structural)]
pub struct StakePool {
    /// Identity permitted to have created the pool; not further checked by
    /// any handler in this core.
    pub authority: u64,
    /// Identity of the fungible asset this pool accepts.
    pub token_mint: u64,
    /// Sum the pool believes is currently deposited.
    pub total_staked: u64,
    /// Reward units accrued per staked unit per time unit; immutable after
    /// creation.
    pub stake_rate: u64,
}

/// Per-depositor state: one record per (user, pool) pair.  A fully
/// unstaked record persists with `amount == 0`.
#[derive(Clone, Copy, Debug, PartialEq, Eq, Structural)]
pub struct UserStake {
    /// Amount currently staked by this user.
    pub amount: u64,
    /// Timestamp marking the reward-accrual baseline.
    pub staked_at: i64,
    /// Running total of rewards already paid to this user.
    pub reward_debt: u64,
}

impl StakePool {
    /// A freshly initialized pool holds nothing and carries the creator's
    /// chosen rate; a zero rate is valid and yields zero rewards forever.
    pub fn new(authority: u64, token_mint: u64, stake_rate: u64) -> (pool: StakePool)
        ensures
            pool == (StakePool { authority, token_mint, total_staked: 0, stake_rate }),
    {
        StakePool { authority, token_mint, total_staked: 0, stake_rate }
    }
}

/// Outcome of staking `amount` at time `now` against loaded records: the
/// committed records and the amount to move from the user to the pool's
/// custodial balance, or the aborting error.
///
/// Staking overwrites the user's record rather than accumulating: the new
/// record holds exactly `amount`, a fresh accrual baseline and a cleared
/// reward total, whatever was recorded before.
pub open spec fn spec_stake(pool: StakePool, amount: u64, now: i64) -> Result<
    (StakePool, UserStake, u64),
    StakingError,
> {
    if pool.total_staked + amount > u64::MAX {
        Err(StakingError::ArithmeticOverflow)
    } else {
        Ok(
            (
                StakePool {
                    total_staked: (pool.total_staked + amount) as u64,
                    ..pool
                },
                UserStake { amount, staked_at: now, reward_debt: 0 },
                amount,
            ),
        )
    }
}

/// Outcome of unstaking `amount` at time `now`: the committed records and
/// the amount (stake plus accrued reward) to move from the pool's custodial
/// balance to the user, or the aborting error.
///
/// The accrual baseline `staked_at` is not refreshed and `reward_debt` is
/// not touched: a later call recomputes rewards over the same baseline
/// applied to the smaller remaining amount.
pub open spec fn spec_unstake(pool: StakePool, user: UserStake, amount: u64, now: i64) -> Result<
    (StakePool, UserStake, u64),
    StakingError,
> {
    if user.amount < amount {
        Err(StakingError::InsufficientStake)
    } else {
        match spec_reward_outcome(user.amount, pool.stake_rate, user.staked_at, now) {
            Err(e) => Err(e),
            Ok(reward) => if amount + reward > u64::MAX {
                Err(StakingError::ArithmeticOverflow)
            } else if pool.total_staked < amount {
                Err(StakingError::ArithmeticUnderflow)
            } else {
                Ok(
                    (
                        StakePool {
                            total_staked: (pool.total_staked - amount) as u64,
                            ..pool
                        },
                        UserStake { amount: (user.amount - amount) as u64, ..user },
                        (amount + reward) as u64,
                    ),
                )
            },
        }
    }
}

/// Outcome of claiming at time `now`: the committed user record and the
/// reward to move from the pool's custodial balance to the user, or the
/// aborting error.  The pool record is not changed by a claim.
///
/// `reward_debt` grows by the paid reward but is never subtracted back into
/// the formula, and `staked_at` is not refreshed; the next claim recomputes
/// over the full elapsed time again.
pub open spec fn spec_claim(pool: StakePool, user: UserStake, now: i64) -> Result<
    (UserStake, u64),
    StakingError,
> {
    match spec_reward_outcome(user.amount, pool.stake_rate, user.staked_at, now) {
        Err(e) => Err(e),
        Ok(reward) => if user.reward_debt + reward > u64::MAX {
            Err(StakingError::ArithmeticOverflow)
        } else {
            Ok(
                (
                    UserStake {
                        reward_debt: (user.reward_debt + reward) as u64,
                        ..user
                    },
                    reward,
                ),
            )
        },
    }
}

/// Applies a stake of `amount` at time `now` to loaded records, returning
/// the amount the host must transfer from the user to the pool's custodial
/// balance.  On error both records are left unchanged.
pub fn apply_stake(pool: &mut StakePool, user: &mut UserStake, amount: u64, now: i64) -> (r:
    Result<u64, StakingError>)
    ensures
        match spec_stake(*old(pool), amount, now) {
            Ok((pool2, user2, transfer)) => r == Ok::<u64, StakingError>(transfer)
                && *final(pool) == pool2 && *final(user) == user2,
            Err(e) => r == Err::<u64, StakingError>(e) && *final(pool) == *old(pool)
                && *final(user) == *old(user),
        },
{
    match pool.total_staked.checked_add(amount) {
        None => Err(StakingError::ArithmeticOverflow),
        Some(total) => {
            pool.total_staked = total;
            user.amount = amount;
            user.staked_at = now;
            user.reward_debt = 0;
            Ok(amount)
        },
    }
}

/// Applies an unstake of `amount` at time `now` to loaded records,
/// returning the amount (stake plus reward) the host must transfer from the
/// pool's custodial balance to the user.  On error both records are left
/// unchanged.
pub fn apply_unstake(pool: &mut StakePool, user: &mut UserStake, amount: u64, now: i64) -> (r:
    Result<u64, StakingError>)
    ensures
        match spec_unstake(*old(pool), *old(user), amount, now) {
            Ok((pool2, user2, transfer)) => r == Ok::<u64, StakingError>(transfer)
                && *final(pool) == pool2 && *final(user) == user2,
            Err(e) => r == Err::<u64, StakingError>(e) && *final(pool) == *old(pool)
                && *final(user) == *old(user),
        },
{
    if user.amount < amount {
        return Err(StakingError::InsufficientStake);
    }
    let reward = match reward_for_period(user.amount, pool.stake_rate, user.staked_at, now) {
        Err(e) => {
            return Err(e);
        },
        Ok(reward) => reward,
    };
    let transfer = match amount.checked_add(reward) {
        None => {
            return Err(StakingError::ArithmeticOverflow);
        },
        Some(transfer) => transfer,
    };
    let total = match pool.total_staked.checked_sub(amount) {
        None => {
            return Err(StakingError::ArithmeticUnderflow);
        },
        Some(total) => total,
    };
    pool.total_staked = total;
    user.amount = user.amount - amount;
    Ok(transfer)
}

/// Applies a claim at time `now` to a loaded user record, returning the
/// reward the host must transfer from the pool's custodial balance to the
/// user.  On error the user record is left unchanged; the pool record is
/// never changed.
pub fn apply_claim(pool: &StakePool, user: &mut UserStake, now: i64) -> (r: Result<
    u64,
    StakingError,
>)
    ensures
        match spec_claim(*pool, *old(user), now) {
            Ok((user2, reward)) => r == Ok::<u64, StakingError>(reward) && *final(user) == user2,
            Err(e) => r == Err::<u64, StakingError>(e) && *final(user) == *old(user),
        },
{
    let reward = match reward_for_period(user.amount, pool.stake_rate, user.staked_at, now) {
        Err(e) => {
            return Err(e);
        },
        Ok(reward) => reward,
    };
    match user.reward_debt.checked_add(reward) {
        None => Err(StakingError::ArithmeticOverflow),
        Some(debt) => {
            user.reward_debt = debt;
            Ok(reward)
        },
    }
}

} // verus!
