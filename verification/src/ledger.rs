//! The keyed record store and the four handler entry points.
//!
//! The host runtime's account storage is modeled as a store of versioned
//! records with exclusive access for the duration of one handler call: one
//! stake pool per token mint, one user stake per (user, pool) pair.  Each
//! handler validates existence, applies the record transitions of
//! [`crate::state`], and returns the token transfer the host must perform;
//! on any error the whole store is left unchanged.

use std::collections::HashMap;

use vstd::prelude::*;

use crate::errors::StakingError;
use crate::state::StakePool;
use crate::state::UserStake;
use crate::state::spec_stake;
use crate::state::spec_unstake;
use crate::state::spec_claim;
use crate::state::apply_stake;
use crate::state::apply_unstake;
use crate::state::apply_claim;

verus! {

broadcast use vstd::std_specs::hash::group_hash_axioms;

/// Multiplier placing the user identity in the high half of a stake key.
pub const KEY_SHIFT: u128 = 0x1_0000_0000_0000_0000;

/// Deterministic key binding a user stake record to its (user, pool) pair:
/// the user identity in the high 64 bits, the pool's mint in the low.
pub open spec fn spec_stake_key(user: u64, token_mint: u64) -> u128 {
    (user as int * KEY_SHIFT as int + token_mint as int) as u128
}

/// Derives the storage key of the stake record of `user` in the pool of
/// `token_mint`.
pub fn stake_key(user: u64, token_mint: u64) -> (key: u128)
    ensures
        key == spec_stake_key(user, token_mint),
{
    (user as u128) * KEY_SHIFT + (token_mint as u128)
}

/// Two distinct (user, pool) pairs always derive distinct stake keys.
pub proof fn lemma_stake_key_injective(u1: u64, m1: u64, u2: u64, m2: u64)
    requires
        spec_stake_key(u1, m1) == spec_stake_key(u2, m2),
    ensures
        u1 == u2 && m1 == m2,
{
    assert(u1 == u2 && m1 == m2) by (nonlinear_arith)
        requires
            u1 as int * KEY_SHIFT as int + m1 as int == u2 as int * KEY_SHIFT as int + m2 as int,
            u1 <= u64::MAX && u2 <= u64::MAX,
            m1 <= u64::MAX && m2 <= u64::MAX,
    ;
}

/// Maps the external token-transfer primitive's outcome onto the handler
/// result: a declined transfer aborts the whole invocation with
/// `TransferFailed`, and the host then discards every record mutation of
/// that invocation.
pub fn transfer_result(accepted: bool) -> (r: Result<(), StakingError>)
    ensures
        accepted ==> r == Ok::<(), StakingError>(()),
        !accepted ==> r == Err::<(), StakingError>(StakingError::TransferFailed),
{
    if accepted {
        Ok(())
    } else {
        Err(StakingError::TransferFailed)
    }
}

/// The transfer a handler asks the external token-transfer primitive to
/// perform, between the caller's balance and the pool's custodial balance.
#[derive(Clone, Copy, Debug, PartialEq, Eq, Structural)]
pub struct TokenTransfer {
    /// Identity whose token balance is debited.
    pub from: u64,
    /// Identity whose token balance is credited.
    pub to: u64,
    /// Number of token units moved.
    pub amount: u64,
}

/// Mathematical model of the record store: the pools by mint and the user
/// stakes by derived stake key.
#[verifier::ext_equal]
pub struct LedgerView {
    /// One stake pool per token mint identity.
    pub pools: Map<u64, StakePool>,
    /// One user stake per derived (user, pool) key.
    pub stakes: Map<u128, UserStake>,
}

/// Outcome of initializing a pool: the creation primitive rejects a second
/// pool for the same mint and leaves the original record unchanged.
pub open spec fn spec_initialize(
    s: LedgerView,
    authority: u64,
    token_mint: u64,
    stake_rate: u64,
) -> (LedgerView, Result<(), StakingError>) {
    if s.pools.contains_key(token_mint) {
        (s, Err(StakingError::PoolAlreadyExists))
    } else {
        (
            LedgerView {
                pools: s.pools.insert(
                    token_mint,
                    StakePool { authority, token_mint, total_staked: 0, stake_rate },
                ),
                ..s
            },
            Ok(()),
        )
    }
}

/// Outcome of the stake handler on the whole store: requires the pool to
/// exist, creates or overwrites the caller's stake record, and asks the
/// host to move `amount` from the user to the pool's custodial balance.
pub open spec fn spec_stake_tokens(s: LedgerView, user: u64, token_mint: u64, amount: u64, now: i64) -> (
    LedgerView,
    Result<TokenTransfer, StakingError>,
) {
    if !s.pools.contains_key(token_mint) {
        (s, Err(StakingError::PoolNotFound))
    } else {
        match spec_stake(s.pools[token_mint], amount, now) {
            Err(e) => (s, Err(e)),
            Ok((pool2, user2, transfer)) => (
                LedgerView {
                    pools: s.pools.insert(token_mint, pool2),
                    stakes: s.stakes.insert(spec_stake_key(user, token_mint), user2),
                },
                Ok(TokenTransfer { from: user, to: token_mint, amount: transfer }),
            ),
        }
    }
}

/// Outcome of the unstake handler on the whole store: requires the pool
/// and the caller's stake record to exist, and asks the host to move the
/// withdrawn amount plus the accrued reward from the pool's custodial
/// balance to the user.
pub open spec fn spec_unstake_tokens(s: LedgerView, user: u64, token_mint: u64, amount: u64, now: i64) -> (
    LedgerView,
    Result<TokenTransfer, StakingError>,
) {
    if !s.pools.contains_key(token_mint) {
        (s, Err(StakingError::PoolNotFound))
    } else if !s.stakes.contains_key(spec_stake_key(user, token_mint)) {
        (s, Err(StakingError::UserStakeNotFound))
    } else {
        match spec_unstake(
            s.pools[token_mint],
            s.stakes[spec_stake_key(user, token_mint)],
            amount,
            now,
        ) {
            Err(e) => (s, Err(e)),
            Ok((pool2, user2, transfer)) => (
                LedgerView {
                    pools: s.pools.insert(token_mint, pool2),
                    stakes: s.stakes.insert(spec_stake_key(user, token_mint), user2),
                },
                Ok(TokenTransfer { from: token_mint, to: user, amount: transfer }),
            ),
        }
    }
}

/// Outcome of the claim handler on the whole store: requires the pool and
/// the caller's stake record to exist, pays the full computed reward and
/// records it in the user's reward total; the pool record is unchanged.
pub open spec fn spec_claim_rewards(s: LedgerView, user: u64, token_mint: u64, now: i64) -> (
    LedgerView,
    Result<TokenTransfer, StakingError>,
) {
    if !s.pools.contains_key(token_mint) {
        (s, Err(StakingError::PoolNotFound))
    } else if !s.stakes.contains_key(spec_stake_key(user, token_mint)) {
        (s, Err(StakingError::UserStakeNotFound))
    } else {
        match spec_claim(
            s.pools[token_mint],
            s.stakes[spec_stake_key(user, token_mint)],
            now,
        ) {
            Err(e) => (s, Err(e)),
            Ok((user2, reward)) => (
                LedgerView {
                    stakes: s.stakes.insert(spec_stake_key(user, token_mint), user2),
                    ..s
                },
                Ok(TokenTransfer { from: token_mint, to: user, amount: reward }),
            ),
        }
    }
}

/// The record store itself: every record the four handlers manipulate.
/// The host clones it to keep the snapshot it falls back to when the
/// external transfer of an invocation fails.
#[derive(Clone)]
pub struct StakingLedger {
    pools: HashMap<u64, StakePool>,
    stakes: HashMap<u128, UserStake>,
}

impl View for StakingLedger {
    type V = LedgerView;

    closed spec fn view(&self) -> LedgerView {
        LedgerView { pools: self.pools@, stakes: self.stakes@ }
    }
}

impl StakingLedger {
    /// An empty store: no pools, no stake records.
    pub fn new() -> (ledger: StakingLedger)
        ensures
            ledger@.pools == Map::<u64, StakePool>::empty(),
            ledger@.stakes == Map::<u128, UserStake>::empty(),
    {
        StakingLedger { pools: HashMap::new(), stakes: HashMap::new() }
    }

    /// Looks up the pool record of `token_mint`.
    pub fn pool(&self, token_mint: u64) -> (r: Option<StakePool>)
        ensures
            r == if self@.pools.contains_key(token_mint) {
                Some(self@.pools[token_mint])
            } else {
                None::<StakePool>
            },
    {
        match self.pools.get(&token_mint) {
            Some(pool) => Some(*pool),
            None => None,
        }
    }

    /// Looks up the stake record of `user` in the pool of `token_mint`.
    pub fn user_stake(&self, user: u64, token_mint: u64) -> (r: Option<UserStake>)
        ensures
            r == if self@.stakes.contains_key(spec_stake_key(user, token_mint)) {
                Some(self@.stakes[spec_stake_key(user, token_mint)])
            } else {
                None::<UserStake>
            },
    {
        let key = stake_key(user, token_mint);
        match self.stakes.get(&key) {
            Some(stake) => Some(*stake),
            None => None,
        }
    }

    /// Creates the pool of `token_mint` with `total_staked == 0` and the
    /// given rate; fails with `PoolAlreadyExists`, leaving the original
    /// record unchanged, when a pool for this mint already exists.
    pub fn initialize_stake_pool(
        &mut self,
        authority: u64,
        token_mint: u64,
        stake_rate: u64,
    ) -> (r: Result<(), StakingError>)
        ensures
            ({
                let (s2, result) = spec_initialize(old(self)@, authority, token_mint, stake_rate);
                final(self)@ == s2 && r == result
            }),
    {
        if self.pools.contains_key(&token_mint) {
            return Err(StakingError::PoolAlreadyExists);
        }
        let pool = StakePool::new(authority, token_mint, stake_rate);
        self.pools.insert(token_mint, pool);
        proof {
            assert(self@ =~= spec_initialize(old(self)@, authority, token_mint, stake_rate).0);
        }
        Ok(())
    }

    /// Stakes `amount` for `user` in the pool of `token_mint` at time
    /// `now`, creating or overwriting the caller's stake record, and
    /// returns the transfer of `amount` from the user to the pool's
    /// custodial balance that the host must perform.  On error the store
    /// is unchanged.
    pub fn stake_tokens(&mut self, user: u64, token_mint: u64, amount: u64, now: i64) -> (r:
        Result<TokenTransfer, StakingError>)
        ensures
            ({
                let (s2, result) = spec_stake_tokens(old(self)@, user, token_mint, amount, now);
                final(self)@ == s2 && r == result
            }),
    {
        let mut pool = match self.pool(token_mint) {
            None => {
                return Err(StakingError::PoolNotFound);
            },
            Some(pool) => pool,
        };
        let mut stake = UserStake { amount: 0, staked_at: now, reward_debt: 0 };
        match apply_stake(&mut pool, &mut stake, amount, now) {
            Err(e) => Err(e),
            Ok(transfer) => {
                self.pools.insert(token_mint, pool);
                let key = stake_key(user, token_mint);
                self.stakes.insert(key, stake);
                proof {
                    assert(self@ =~= spec_stake_tokens(old(self)@, user, token_mint, amount, now).0);
                }
                Ok(TokenTransfer { from: user, to: token_mint, amount: transfer })
            },
        }
    }

    /// Unstakes `amount` for `user` from the pool of `token_mint` at time
    /// `now` and returns the transfer of the withdrawn amount plus the
    /// accrued reward from the pool's custodial balance to the user that
    /// the host must perform.  On error the store is unchanged.
    pub fn unstake_tokens(&mut self, user: u64, token_mint: u64, amount: u64, now: i64) -> (r:
        Result<TokenTransfer, StakingError>)
        ensures
            ({
                let (s2, result) = spec_unstake_tokens(old(self)@, user, token_mint, amount, now);
                final(self)@ == s2 && r == result
            }),
    {
        let mut pool = match self.pool(token_mint) {
            None => {
                return Err(StakingError::PoolNotFound);
            },
            Some(pool) => pool,
        };
        let mut stake = match self.user_stake(user, token_mint) {
            None => {
                return Err(StakingError::UserStakeNotFound);
            },
            Some(stake) => stake,
        };
        match apply_unstake(&mut pool, &mut stake, amount, now) {
            Err(e) => Err(e),
            Ok(transfer) => {
                self.pools.insert(token_mint, pool);
                let key = stake_key(user, token_mint);
                self.stakes.insert(key, stake);
                proof {
                    assert(self@ =~= spec_unstake_tokens(
                        old(self)@,
                        user,
                        token_mint,
                        amount,
                        now,
                    ).0);
                }
                Ok(TokenTransfer { from: token_mint, to: user, amount: transfer })
            },
        }
    }

    /// Claims the full computed reward for `user` in the pool of
    /// `token_mint` at time `now` and returns the transfer of that reward
    /// from the pool's custodial balance to the user that the host must
    /// perform.  On error the store is unchanged.
    pub fn claim_rewards(&mut self, user: u64, token_mint: u64, now: i64) -> (r: Result<
        TokenTransfer,
        StakingError,
    >)
        ensures
            ({
                let (s2, result) = spec_claim_rewards(old(self)@, user, token_mint, now);
                final(self)@ == s2 && r == result
            }),
    {
        let pool = match self.pool(token_mint) {
            None => {
                return Err(StakingError::PoolNotFound);
            },
            Some(pool) => pool,
        };
        let mut stake = match self.user_stake(user, token_mint) {
            None => {
                return Err(StakingError::UserStakeNotFound);
            },
            Some(stake) => stake,
        };
        match apply_claim(&pool, &mut stake, now) {
            Err(e) => Err(e),
            Ok(reward) => {
                let key = stake_key(user, token_mint);
                self.stakes.insert(key, stake);
                proof {
                    assert(self@ =~= spec_claim_rewards(old(self)@, user, token_mint, now).0);
                }
                Ok(TokenTransfer { from: token_mint, to: user, amount: reward })
            },
        }
    }
}

} // verus!
