//! What holds of the escrow over many operations: a session is settled
//! once, funds are moved and never made, and the pool's totals are the sums
//! of what was staked and paid.

use vstd::prelude::*;
use crate::accounts::{ClaimReward, Forfeit, Stake};
use crate::anticheat::expected_digest;
use crate::digest::sha256_digest;
use crate::error::GameError;
use crate::instructions::{claim_verdict, stake_verdict};
use crate::payload::canonical_message;
use crate::schedule::{ideal_reward, valid_difficulty, valid_duration};
use crate::state::{RewardPool, SessionStatus, StakeAccount};

verus! {

/// What one operation means to the pool.
pub enum PoolEvent {
    /// A session was opened with this stake.
    Staked(u64),
    /// A claim paid this much.
    Paid(u64),
    /// A session was given up.
    Forfeited,
}

impl RewardPool {
    /// The pool after one operation.
    pub open spec fn apply(self, event: PoolEvent) -> RewardPool {
        match event {
            PoolEvent::Staked(amount) => self.after_stake(amount),
            PoolEvent::Paid(payout) => self.after_payout(payout),
            PoolEvent::Forfeited => self,
        }
    }

    /// The pool after a run of operations, the first of them first.
    pub open spec fn replay(self, events: Seq<PoolEvent>) -> RewardPool
        decreases events.len(),
    {
        if events.len() == 0 {
            self
        } else {
            self.replay(events.drop_last()).apply(events.last())
        }
    }
}

/// The sum of the stakes in a run of operations.
pub open spec fn staked_total(events: Seq<PoolEvent>) -> nat
    decreases events.len(),
{
    if events.len() == 0 {
        0
    } else {
        staked_total(events.drop_last()) + match events.last() {
            PoolEvent::Staked(amount) => amount as nat,
            _ => 0,
        }
    }
}

/// The sum of the payouts in a run of operations.
pub open spec fn paid_total(events: Seq<PoolEvent>) -> nat
    decreases events.len(),
{
    if events.len() == 0 {
        0
    } else {
        paid_total(events.drop_last()) + match events.last() {
            PoolEvent::Paid(payout) => payout as nat,
            _ => 0,
        }
    }
}

/// After any run of operations the pool's two totals have grown by the sum
/// of the stakes and by the sum of the payouts, as long as both sums fit in
/// 64 bits. A forfeit adds to neither, neither total ever falls, and the
/// pool's authority stays who it was.
pub proof fn lemma_totals_are_sums(pool: RewardPool, events: Seq<PoolEvent>)
    requires
        pool.total_staked + staked_total(events) <= u64::MAX,
        pool.total_rewards_paid + paid_total(events) <= u64::MAX,
    ensures
        pool.replay(events).total_staked == pool.total_staked + staked_total(events),
        pool.replay(events).total_rewards_paid == pool.total_rewards_paid + paid_total(events),
        pool.replay(events).total_staked >= pool.total_staked,
        pool.replay(events).total_rewards_paid >= pool.total_rewards_paid,
        pool.replay(events).authority == pool.authority,
        pool.replay(events).bump == pool.bump,
    decreases events.len(),
{
    if events.len() > 0 {
        lemma_totals_are_sums(pool, events.drop_last());
    }
}

/// What each operation does to the pool is one event: a session that is
/// opened counts its stake, a claim that is accepted counts what it paid,
/// and a request that is refused leaves the pool as it was. A forfeit has no
/// pool to change.
pub proof fn lemma_operations_are_events(
    opening: Stake,
    amount: u64,
    duration: u16,
    difficulty: u8,
    now: i64,
    claim: ClaimReward,
    game_timestamp: i64,
    claimed_at: i64,
    expected: Seq<u8>,
    presented: Seq<u8>,
)
    ensures
        opening.outcome(amount, duration, difficulty, now).0 is Ok ==> opening.outcome(
            amount,
            duration,
            difficulty,
            now,
        ).1.pool == opening.pool.apply(PoolEvent::Staked(amount)),
        opening.outcome(amount, duration, difficulty, now).0 is Err ==> opening.outcome(
            amount,
            duration,
            difficulty,
            now,
        ).1.pool == opening.pool,
        claim.outcome(game_timestamp, claimed_at, expected, presented).0 matches Ok(payout)
            ==> claim.outcome(game_timestamp, claimed_at, expected, presented).1.pool
            == claim.pool.apply(PoolEvent::Paid(payout)),
        claim.outcome(game_timestamp, claimed_at, expected, presented).0 is Err ==> claim.outcome(
            game_timestamp,
            claimed_at,
            expected,
            presented,
        ).1.pool == claim.pool,
        claim.pool.apply(PoolEvent::Forfeited) == claim.pool,
{
}

/// A request to open a session with a wrong length is refused for the
/// length, whatever else it holds; with a right length and a wrong
/// difficulty, for the difficulty; with both right and a stake of zero, for
/// the stake. None of the three is ever accepted, whatever the player holds,
/// and a refusal changes nothing. A session that is opened is active and
/// well formed.
pub proof fn lemma_invalid_stake_is_refused(
    opening: Stake,
    amount: u64,
    duration: u16,
    difficulty: u8,
    now: i64,
)
    ensures
        !valid_duration(duration) ==> opening.outcome(amount, duration, difficulty, now) == (
            Err::<StakeAccount, GameError>(GameError::InvalidDuration),
            opening,
        ),
        valid_duration(duration) && !valid_difficulty(difficulty) ==> opening.outcome(
            amount,
            duration,
            difficulty,
            now,
        ) == (Err::<StakeAccount, GameError>(GameError::InvalidDifficulty), opening),
        valid_duration(duration) && valid_difficulty(difficulty) && amount == 0 ==> opening.outcome(
            amount,
            duration,
            difficulty,
            now,
        ) == (Err::<StakeAccount, GameError>(GameError::InvalidAmount), opening),
        amount == 0 || !valid_duration(duration) || !valid_difficulty(difficulty) ==> opening.outcome(
            amount,
            duration,
            difficulty,
            now,
        ).0 is Err,
        opening.outcome(amount, duration, difficulty, now).0 matches Ok(session) ==> {
            &&& session.well_formed()
            &&& session.status == SessionStatus::Active
            &&& stake_verdict(opening.player.lamports, amount, duration, difficulty) is Ok
        },
{
}

/// Once a claim has succeeded, every later claim and every later forfeit of
/// that session is refused as already claimed and changes nothing, whoever
/// calls and whatever payload comes with it.
pub proof fn lemma_claimed_session_is_final(
    first: ClaimReward,
    game_timestamp: i64,
    now: i64,
    expected: Seq<u8>,
    presented: Seq<u8>,
    later: ClaimReward,
    later_timestamp: i64,
    later_now: i64,
    later_expected: Seq<u8>,
    later_presented: Seq<u8>,
    giving_up: Forfeit,
)
    requires
        first.outcome(game_timestamp, now, expected, presented).0 is Ok,
        later.stake_account == first.outcome(game_timestamp, now, expected, presented).1.stake_account,
        giving_up.stake_account == first.outcome(
            game_timestamp,
            now,
            expected,
            presented,
        ).1.stake_account,
    ensures
        first.stake_account.status == SessionStatus::Active,
        later.stake_account.status == SessionStatus::Claimed,
        later.outcome(later_timestamp, later_now, later_expected, later_presented) == (
            Err::<u64, GameError>(GameError::AlreadyClaimed),
            later,
        ),
        giving_up.outcome() == (Err::<(), GameError>(GameError::AlreadyClaimed), giving_up),
{
}

/// Once a forfeit has succeeded, every later claim and every later forfeit
/// of that session is refused as already forfeited and changes nothing,
/// whoever calls and whatever payload comes with it.
pub proof fn lemma_forfeited_session_is_final(
    first: Forfeit,
    later: ClaimReward,
    later_timestamp: i64,
    later_now: i64,
    later_expected: Seq<u8>,
    later_presented: Seq<u8>,
    giving_up: Forfeit,
)
    requires
        first.outcome().0 is Ok,
        later.stake_account == first.outcome().1.stake_account,
        giving_up.stake_account == first.outcome().1.stake_account,
    ensures
        first.stake_account.status == SessionStatus::Active,
        later.stake_account.status == SessionStatus::Forfeited,
        later.outcome(later_timestamp, later_now, later_expected, later_presented) == (
            Err::<u64, GameError>(GameError::AlreadyForfeited),
            later,
        ),
        giving_up.outcome() == (Err::<(), GameError>(GameError::AlreadyForfeited), giving_up),
{
}

/// A session leaves the active state at most once and never leaves a final
/// state: whatever a claim or a forfeit is handed, the session's status
/// changes only from active, and only to the state that the operation
/// stands for.
pub proof fn lemma_status_moves_forward(
    claim: ClaimReward,
    game_timestamp: i64,
    now: i64,
    expected: Seq<u8>,
    presented: Seq<u8>,
    giving_up: Forfeit,
)
    ensures
        claim.outcome(game_timestamp, now, expected, presented).1.stake_account.status
            != claim.stake_account.status ==> {
            &&& claim.stake_account.status == SessionStatus::Active
            &&& claim.outcome(game_timestamp, now, expected, presented).1.stake_account.status
                == SessionStatus::Claimed
        },
        giving_up.outcome().1.stake_account.status != giving_up.stake_account.status ==> {
            &&& giving_up.stake_account.status == SessionStatus::Active
            &&& giving_up.outcome().1.stake_account.status == SessionStatus::Forfeited
        },
{
}

/// A claim is accepted only from the session's own player, on an active
/// session, with an outcome less than 120 seconds old and the expected
/// digest; an active session claimed by anyone else is refused as
/// unauthorized, whatever the payload.
pub proof fn lemma_claim_accepted_only_if(
    session: StakeAccount,
    caller: Seq<u8>,
    game_timestamp: i64,
    now: i64,
    expected: Seq<u8>,
    presented: Seq<u8>,
)
    ensures
        claim_verdict(session, caller, game_timestamp, now, expected, presented) is Ok <==> {
            &&& session.status == SessionStatus::Active
            &&& caller == session.player@
            &&& now - game_timestamp < 120
            &&& presented == expected
        },
        session.status == SessionStatus::Active && caller != session.player@ ==> claim_verdict(
            session,
            caller,
            game_timestamp,
            now,
            expected,
            presented,
        ) == Err::<(), GameError>(GameError::Unauthorized),
{
}

/// A claim is accepted only while the outcome is less than 120 seconds old,
/// and only with the SHA-256 digest of the outcome's canonical text, written
/// with the length and the difficulty that the session itself records.
pub proof fn lemma_accepted_claim_carries_session_digest(
    claim: ClaimReward,
    score: u64,
    game_timestamp: i64,
    now: i64,
    presented: Seq<u8>,
)
    requires
        claim.outcome(
            game_timestamp,
            now,
            expected_digest(
                score,
                game_timestamp,
                claim.stake_account.duration,
                claim.stake_account.difficulty,
            ),
            presented,
        ).0 is Ok,
    ensures
        presented == sha256_digest(
            canonical_message(
                score,
                game_timestamp,
                claim.stake_account.duration,
                claim.stake_account.difficulty,
            ),
        ),
        now - game_timestamp < 120,
        claim.stake_account.status == SessionStatus::Active,
        claim.player.key@ == claim.stake_account.player@,
{
}

/// Whether a claim is accepted does not depend on what the vault holds: a
/// thin vault pays less and refuses nothing.
pub proof fn lemma_thin_vault_refuses_nothing(
    claim: ClaimReward,
    thin: ClaimReward,
    game_timestamp: i64,
    now: i64,
    expected: Seq<u8>,
    presented: Seq<u8>,
)
    requires
        thin.stake_account == claim.stake_account,
        thin.player.key == claim.player.key,
    ensures
        thin.outcome(game_timestamp, now, expected, presented).0 is Ok <==> claim.outcome(
            game_timestamp,
            now,
            expected,
            presented,
        ).0 is Ok,
        thin.outcome(game_timestamp, now, expected, presented).0 matches Ok(payout)
            ==> payout <= thin.vault.lamports,
{
}

/// An accepted claim pays the stake times the multiplier, rounded down,
/// where the vault holds that much, and all that the vault holds where it
/// does not. It never pays more than the vault holds, and what leaves the
/// vault reaches the player: the two balances together stay what they were.
pub proof fn lemma_claim_pays_capped_reward(
    claim: ClaimReward,
    game_timestamp: i64,
    now: i64,
    expected: Seq<u8>,
    presented: Seq<u8>,
)
    requires
        claim.outcome(game_timestamp, now, expected, presented).0 is Ok,
        claim.has_room(),
    ensures
        claim.outcome(game_timestamp, now, expected, presented).0 == Ok::<u64, GameError>(
            claim.payout() as u64,
        ),
        claim.payout() == if ideal_reward(
            claim.stake_account.amount,
            claim.stake_account.duration,
            claim.stake_account.difficulty,
        ) <= claim.vault.lamports {
            ideal_reward(
                claim.stake_account.amount,
                claim.stake_account.duration,
                claim.stake_account.difficulty,
            )
        } else {
            claim.vault.lamports as nat
        },
        claim.payout() <= claim.vault.lamports,
        claim.settled().vault.lamports == claim.vault.lamports - claim.payout(),
        claim.settled().player.lamports == claim.player.lamports + claim.payout(),
        claim.settled().vault.lamports + claim.settled().player.lamports == claim.vault.lamports
            + claim.player.lamports,
        claim.outcome(game_timestamp, now, expected, presented).1 == claim.settled(),
{
}

/// Opening a session moves the stake and nothing else: the two balances
/// together stay what they were.
pub proof fn lemma_stake_moves_funds(opening: Stake, amount: u64, duration: u16, difficulty: u8, now: i64)
    requires
        opening.outcome(amount, duration, difficulty, now).0 is Ok,
        opening.has_room(amount),
    ensures
        opening.outcome(amount, duration, difficulty, now).1.vault.lamports == opening.vault.lamports
            + amount,
        opening.outcome(amount, duration, difficulty, now).1.player.lamports
            == opening.player.lamports - amount,
        opening.outcome(amount, duration, difficulty, now).1.vault.lamports + opening.outcome(
            amount,
            duration,
            difficulty,
            now,
        ).1.player.lamports == opening.vault.lamports + opening.player.lamports,
{
}

/// What was paid out and what the vault still holds add up to what they did
/// before, plus what was staked since: a claim leaves the sum as it was and
/// a stake raises it by the stake. So the payouts never exceed what has come
/// into the vault.
pub proof fn lemma_vault_backs_payouts(opening: Stake, amount: u64, claim: ClaimReward)
    requires
        opening.has_room(amount),
        claim.has_room(),
    ensures
        opening.funded(amount).pool.total_rewards_paid + opening.funded(amount).vault.lamports
            == opening.pool.total_rewards_paid + opening.vault.lamports + amount,
        claim.settled().pool.total_rewards_paid + claim.settled().vault.lamports
            == claim.pool.total_rewards_paid + claim.vault.lamports,
{
}

/// The terms of a session are fixed when it is opened: a claim and a forfeit
/// change its status and nothing else, so a well-formed session stays well
/// formed.
pub proof fn lemma_session_terms_are_fixed(
    claim: ClaimReward,
    game_timestamp: i64,
    now: i64,
    expected: Seq<u8>,
    presented: Seq<u8>,
    giving_up: Forfeit,
)
    ensures
        claim.outcome(game_timestamp, now, expected, presented).1.stake_account
            == claim.stake_account.with_status(
            claim.outcome(game_timestamp, now, expected, presented).1.stake_account.status,
        ),
        giving_up.outcome().1.stake_account == giving_up.stake_account.with_status(
            giving_up.outcome().1.stake_account.status,
        ),
        claim.stake_account.well_formed() ==> claim.outcome(
            game_timestamp,
            now,
            expected,
            presented,
        ).1.stake_account.well_formed(),
        giving_up.stake_account.well_formed() ==> giving_up.outcome().1.stake_account.well_formed(),
{
}

} // verus!
