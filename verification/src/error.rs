//! The failures that an escrow operation can report.

use vstd::prelude::*;

verus! {

/// Why an operation was refused. A refused operation changes nothing.
#[derive(Clone, Copy, Debug, PartialEq, Eq, Structural)]
pub enum GameError {
    /// The session length is not 30, 60 or 90 seconds.
    InvalidDuration,
    /// The difficulty is not 0 (easy), 1 (medium) or 2 (hard).
    InvalidDifficulty,
    /// The stake is zero.
    InvalidAmount,
    /// The session has already paid out.
    AlreadyClaimed,
    /// The session has already been given up.
    AlreadyForfeited,
    /// The caller is not the player who opened the session.
    Unauthorized,
    /// The reported outcome is 120 seconds old or older.
    StalePayload,
    /// The presented digest is not the digest of the reported outcome.
    InvalidPayload,
    /// The player holds less than the stake.
    InsufficientFunds,
    /// The reward pool exists already.
    AlreadyInitialized,
}

impl GameError {
    /// The text shown to a caller for this failure.
    pub open spec fn message_text(self) -> Seq<char> {
        match self {
            GameError::InvalidDuration => "Invalid duration. Must be 30, 60, or 90."@,
            GameError::InvalidDifficulty => "Invalid difficulty. Must be 0, 1, or 2."@,
            GameError::InvalidAmount => "Invalid amount. Must be greater than 0."@,
            GameError::AlreadyClaimed => "Reward already claimed."@,
            GameError::AlreadyForfeited => "Stake already forfeited."@,
            GameError::Unauthorized => "Unauthorized."@,
            GameError::StalePayload => "Anti-cheat payload is stale."@,
            GameError::InvalidPayload => "Anti-cheat payload hash mismatch."@,
            GameError::InsufficientFunds => "Insufficient funds to stake."@,
            GameError::AlreadyInitialized => "Reward pool already initialized."@,
        }
    }

    /// The text shown to a caller for this failure.
    pub fn message(&self) -> (text: &'static str)
        ensures
            text@ == self.message_text(),
    {
        match self {
            GameError::InvalidDuration => "Invalid duration. Must be 30, 60, or 90.",
            GameError::InvalidDifficulty => "Invalid difficulty. Must be 0, 1, or 2.",
            GameError::InvalidAmount => "Invalid amount. Must be greater than 0.",
            GameError::AlreadyClaimed => "Reward already claimed.",
            GameError::AlreadyForfeited => "Stake already forfeited.",
            GameError::Unauthorized => "Unauthorized.",
            GameError::StalePayload => "Anti-cheat payload is stale.",
            GameError::InvalidPayload => "Anti-cheat payload hash mismatch.",
            GameError::InsufficientFunds => "Insufficient funds to stake.",
            GameError::AlreadyInitialized => "Reward pool already initialized.",
        }
    }
}

} // verus!
