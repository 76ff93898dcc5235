//! The anti-cheat check on a claim: the reported outcome must be fresh, and
//! the digest that comes with it must be the digest of its canonical text.
//!
//! The digest has no secret in it: it shows that the claimant followed the
//! protocol, not that the score was earned.

use vstd::prelude::*;
use crate::digest::{bytes32_eq, sha256, sha256_digest};
use crate::error::GameError;
use crate::payload::{canonical_message, encode_message, lemma_canonical_message_injective};

verus! {

/// How old, in seconds, a reported outcome may not be.
pub const FRESHNESS_WINDOW: i64 = 120;

/// Whether an outcome produced at `game_timestamp` is still fresh at `now`:
/// it is less than 120 seconds old. An outcome dated after `now` is fresh.
pub open spec fn is_fresh(now: i64, game_timestamp: i64) -> bool {
    now - game_timestamp < FRESHNESS_WINDOW
}

/// The digest that a claim has to present for a reported outcome.
pub open spec fn expected_digest(score: u64, game_timestamp: i64, duration: u16, difficulty: u8) -> Seq<u8> {
    sha256_digest(canonical_message(score, game_timestamp, duration, difficulty))
}

/// The verdict on a payload, given the digest that was expected: stale where
/// the outcome is too old, else invalid where the digests differ.
pub open spec fn payload_verdict(now: i64, game_timestamp: i64, expected: Seq<u8>, presented: Seq<u8>) -> Result<
    (),
    GameError,
> {
    if !is_fresh(now, game_timestamp) {
        Err(GameError::StalePayload)
    } else if expected != presented {
        Err(GameError::InvalidPayload)
    } else {
        Ok(())
    }
}

/// Tells whether an outcome produced at `game_timestamp` is still fresh at
/// `now`. The difference is formed in 128 bits, so no pair of instants is
/// out of range.
pub fn check_fresh(now: i64, game_timestamp: i64) -> (fresh: bool)
    ensures
        fresh == is_fresh(now, game_timestamp),
{
    (now as i128) - (game_timestamp as i128) < (FRESHNESS_WINDOW as i128)
}

/// Computes the digest that a claim has to present for a reported outcome.
pub fn compute_expected_digest(score: u64, game_timestamp: i64, duration: u16, difficulty: u8) -> (digest: [u8; 32])
    ensures
        digest@ == expected_digest(score, game_timestamp, duration, difficulty),
{
    let text = encode_message(score, game_timestamp, duration, difficulty);
    sha256(text.as_slice())
}

/// Judges a payload against the digest that was expected of it.
pub fn judge_payload(now: i64, game_timestamp: i64, expected: &[u8; 32], presented: &[u8; 32]) -> (verdict: Result<
    (),
    GameError,
>)
    ensures
        verdict == payload_verdict(now, game_timestamp, expected@, presented@),
{
    if !check_fresh(now, game_timestamp) {
        Err(GameError::StalePayload)
    } else if !bytes32_eq(expected, presented) {
        Err(GameError::InvalidPayload)
    } else {
        Ok(())
    }
}

/// Checks a reported outcome against the digest presented with it, for a
/// session of the given length and difficulty.
pub fn verify_payload(
    score: u64,
    game_timestamp: i64,
    presented: &[u8; 32],
    duration: u16,
    difficulty: u8,
    now: i64,
) -> (verdict: Result<(), GameError>)
    ensures
        verdict == payload_verdict(
            now,
            game_timestamp,
            expected_digest(score, game_timestamp, duration, difficulty),
            presented@,
        ),
{
    if !check_fresh(now, game_timestamp) {
        return Err(GameError::StalePayload);
    }
    let expected = compute_expected_digest(score, game_timestamp, duration, difficulty);
    judge_payload(now, game_timestamp, &expected, presented)
}

/// A payload passes exactly when the outcome is less than 120 seconds old
/// and the presented digest is the expected one, byte for byte.
pub proof fn lemma_payload_accepted_iff(now: i64, game_timestamp: i64, expected: Seq<u8>, presented: Seq<u8>)
    ensures
        payload_verdict(now, game_timestamp, expected, presented) is Ok <==> now - game_timestamp < 120
            && presented == expected,
        payload_verdict(now, game_timestamp, expected, presented) == Err::<(), GameError>(
            GameError::StalePayload,
        ) <==> now - game_timestamp >= 120,
{
}

/// A digest vouches for one outcome only. Where the outcome that is checked
/// differs in score, timestamp, session length or difficulty from the one the
/// digest was made for, the two canonical texts differ, and the payload
/// passes only if SHA-256 maps the two texts to one digest.
pub proof fn lemma_digest_binds_outcome(
    score: u64,
    game_timestamp: i64,
    duration: u16,
    difficulty: u8,
    other_score: u64,
    other_timestamp: i64,
    other_duration: u16,
    other_difficulty: u8,
    now: i64,
)
    requires
        score != other_score || game_timestamp != other_timestamp || duration != other_duration
            || difficulty != other_difficulty,
    ensures
        canonical_message(score, game_timestamp, duration, difficulty) != canonical_message(
            other_score,
            other_timestamp,
            other_duration,
            other_difficulty,
        ),
        payload_verdict(
            now,
            other_timestamp,
            expected_digest(other_score, other_timestamp, other_duration, other_difficulty),
            expected_digest(score, game_timestamp, duration, difficulty),
        ) is Ok ==> expected_digest(other_score, other_timestamp, other_duration, other_difficulty)
            == expected_digest(score, game_timestamp, duration, difficulty),
{
    if canonical_message(score, game_timestamp, duration, difficulty) == canonical_message(
        other_score,
        other_timestamp,
        other_duration,
        other_difficulty,
    ) {
        lemma_canonical_message_injective(
            score,
            game_timestamp,
            duration,
            difficulty,
            other_score,
            other_timestamp,
            other_duration,
            other_difficulty,
        );
    }
}

} // verus!
