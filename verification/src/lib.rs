//! Escrow logic for skill-based staking sessions.
//!
//! A player locks a stake for a timed game session. A session ends either in
//! a claim, which pays the stake times a multiplier out of the vault once the
//! reported outcome has passed the anti-cheat check, or in a forfeit, which
//! leaves the stake in the vault.

pub mod accounts;
pub mod anticheat;
pub mod digest;
pub mod error;
pub mod instructions;
pub mod lifecycle;
pub mod payload;
pub mod schedule;
pub mod state;

pub use crate::accounts::{ClaimReward, Forfeit, InitializePool, Stake, Wallet};
pub use crate::anticheat::{check_fresh, compute_expected_digest, judge_payload, verify_payload, FRESHNESS_WINDOW};
pub use crate::digest::bytes32_eq;
pub use crate::error::GameError;
pub use crate::instructions::{check_transition, claim_reward, forfeit, initialize_pool, settle_claim, stake};
pub use crate::payload::encode_message;
pub use crate::schedule::{compute_payout, get_multiplier};
pub use crate::state::{RewardPool, SessionStatus, StakeAccount};
