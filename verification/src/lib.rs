//! Accounting core of a token-staking ledger.
//!
//! The library tracks one reward-bearing stake pool per token mint and one
//! stake record per (user, pool) pair, and proves the numeric behaviour of
//! the four transition handlers (initialize, stake, unstake, claim) and of
//! the time-proportional reward formula.  The host runtime that loads
//! records, verifies signatures and moves token balances is an external
//! collaborator: handlers return the transfer they want performed, and the
//! host commits or discards the whole invocation atomically.

pub mod errors;
pub mod laws;
pub mod ledger;
pub mod reward;
pub mod state;

pub use errors::StakingError;
pub use reward::SCALE;
pub use reward::calculate_reward;
pub use ledger::StakingLedger;
pub use ledger::TokenTransfer;
pub use state::StakePool;
pub use state::UserStake;
