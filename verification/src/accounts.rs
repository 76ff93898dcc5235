//! What each operation is handed: the records it reads and writes, and the
//! balances it moves, as plain values.

use vstd::prelude::*;
use crate::state::{RewardPool, StakeAccount};

verus! {

/// An account that holds lamports.
#[derive(Clone, Copy, Debug, PartialEq, Eq)]
pub struct Wallet {
    /// The account's address.
    pub key: [u8; 32],
    /// What the account holds.
    pub lamports: u64,
}

/// What setting up the reward pool works on.
#[derive(Clone, Copy, Debug, PartialEq, Eq)]
pub struct InitializePool {
    /// The place of the pool: empty until the pool is set up.
    pub pool: Option<RewardPool>,
    /// Who sets the pool up.
    pub authority: [u8; 32],
    /// The bump seed of the pool's address.
    pub bump: u8,
}

/// What opening a session works on.
#[derive(Clone, Copy, Debug, PartialEq, Eq)]
pub struct Stake {
    /// The reward pool.
    pub pool: RewardPool,
    /// The vault that takes the stake.
    pub vault: Wallet,
    /// The player who stakes.
    pub player: Wallet,
    /// The bump seed of the new session's address.
    pub bump: u8,
}

/// What claiming a reward works on.
#[derive(Clone, Copy, Debug, PartialEq, Eq)]
pub struct ClaimReward {
    /// The reward pool.
    pub pool: RewardPool,
    /// The vault that pays.
    pub vault: Wallet,
    /// The session that is claimed.
    pub stake_account: StakeAccount,
    /// The caller, who is paid.
    pub player: Wallet,
}

/// What giving up a session works on.
#[derive(Clone, Copy, Debug, PartialEq, Eq)]
pub struct Forfeit {
    /// The session that is given up.
    pub stake_account: StakeAccount,
    /// The caller.
    pub player: [u8; 32],
}

} // verus!
