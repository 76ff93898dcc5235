//! The two records that the escrow keeps: the reward pool and the sessions.

use vstd::prelude::*;
use crate::schedule::{valid_difficulty, valid_duration};

verus! {

/// Where a session stands. `Claimed` and `Forfeited` are final.
#[derive(Clone, Copy, Debug, PartialEq, Eq, Structural)]
pub enum SessionStatus {
    /// The stake is locked and the game is undecided.
    Active,
    /// The player won and was paid.
    Claimed,
    /// The player lost; the stake stays in the vault.
    Forfeited,
}

/// The running totals of the one reward pool.
#[derive(Clone, Copy, Debug, PartialEq, Eq)]
pub struct RewardPool {
    /// Who set the pool up.
    pub authority: [u8; 32],
    /// All that was ever staked.
    pub total_staked: u64,
    /// All that was ever paid out.
    pub total_rewards_paid: u64,
    /// The bump seed of the pool's address.
    pub bump: u8,
}

/// One escrow position: the stake of one game attempt.
#[derive(Clone, Copy, Debug, PartialEq, Eq)]
pub struct StakeAccount {
    /// The player who staked.
    pub player: [u8; 32],
    /// The stake, in lamports.
    pub amount: u64,
    /// The session length in seconds.
    pub duration: u16,
    /// The difficulty level.
    pub difficulty: u8,
    /// When the session was opened, in seconds since the epoch.
    pub timestamp: i64,
    /// Where the session stands.
    pub status: SessionStatus,
    /// The bump seed of the session's address.
    pub bump: u8,
}

impl RewardPool {
    /// The pool after `amount` more was staked.
    pub open spec fn after_stake(self, amount: u64) -> RewardPool {
        RewardPool { total_staked: (self.total_staked + amount) as u64, ..self }
    }

    /// The pool after `payout` more was paid out.
    pub open spec fn after_payout(self, payout: u64) -> RewardPool {
        RewardPool { total_rewards_paid: (self.total_rewards_paid + payout) as u64, ..self }
    }
}

impl StakeAccount {
    /// What every session that was opened satisfies: a positive stake, and a
    /// length and a difficulty of the reward schedule.
    pub open spec fn well_formed(self) -> bool {
        &&& self.amount > 0
        &&& valid_duration(self.duration)
        &&& valid_difficulty(self.difficulty)
    }

    /// Whether the session has reached a final state.
    pub open spec fn is_settled(self) -> bool {
        self.status != SessionStatus::Active
    }

    /// This session with another status and nothing else changed.
    pub open spec fn with_status(self, status: SessionStatus) -> StakeAccount {
        StakeAccount { status, ..self }
    }
}

} // verus!
