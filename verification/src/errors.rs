//! Failure taxonomy of the staking core.
//!
//! Every handler invocation either succeeds as a whole or aborts with one of
//! these errors and no partial state change.

use vstd::prelude::*;

verus! {

/// The tagged failure result surfaced to the caller of a handler.
#[derive(Clone, Copy, Debug, PartialEq, Eq, Structural)]
pub enum StakingError {
    /// A pool already exists for this mint; creation is rejected.
    PoolAlreadyExists,
    /// No pool exists for this mint.
    PoolNotFound,
    /// No stake record exists for this (user, pool) pair.
    UserStakeNotFound,
    /// The withdrawal amount exceeds the recorded stake.
    InsufficientStake,
    /// A checked operation would exceed the representable unsigned range.
    ArithmeticOverflow,
    /// A checked subtraction would go below zero.
    ArithmeticUnderflow,
    /// The external token-transfer primitive declined the transfer.
    TransferFailed,
    /// The host clock reported a time before the accrual baseline.
    InvalidClock,
}

} // verus!
