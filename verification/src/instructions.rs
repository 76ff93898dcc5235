//! The four operations of the escrow: setting up the pool, opening a
//! session, claiming a reward and giving a session up.
//!
//! Each operation checks first and changes afterwards: where it reports a
//! failure, nothing that it was handed has changed.

use vstd::prelude::*;
use crate::accounts::{ClaimReward, Forfeit, InitializePool, Stake, Wallet};
use crate::anticheat::{expected_digest, is_fresh, judge_payload, payload_verdict, verify_payload};
use crate::digest::bytes32_eq;
use crate::error::GameError;
use crate::schedule::{capped_payout, compute_payout, valid_difficulty, valid_duration};
use crate::state::{RewardPool, SessionStatus, StakeAccount};

verus! {

/// The pool as it is set up: nothing staked and nothing paid yet.
pub open spec fn fresh_pool(authority: [u8; 32], bump: u8) -> RewardPool {
    RewardPool { authority, total_staked: 0, total_rewards_paid: 0, bump }
}

/// The verdict on a request to open a session: the first of the checks that
/// fails, in the order length, difficulty, stake, funds.
pub open spec fn stake_verdict(player_balance: u64, amount: u64, duration: u16, difficulty: u8) -> Result<
    (),
    GameError,
> {
    if !valid_duration(duration) {
        Err(GameError::InvalidDuration)
    } else if !valid_difficulty(difficulty) {
        Err(GameError::InvalidDifficulty)
    } else if amount == 0 {
        Err(GameError::InvalidAmount)
    } else if player_balance < amount {
        Err(GameError::InsufficientFunds)
    } else {
        Ok(())
    }
}

/// Whether `caller` may end a session: the session is still active and the
/// caller is the player who opened it. A settled session is refused before
/// the caller is looked at.
pub open spec fn transition_guard(session: StakeAccount, caller: Seq<u8>) -> Result<(), GameError> {
    if session.status == SessionStatus::Claimed {
        Err(GameError::AlreadyClaimed)
    } else if session.status == SessionStatus::Forfeited {
        Err(GameError::AlreadyForfeited)
    } else if session.player@ != caller {
        Err(GameError::Unauthorized)
    } else {
        Ok(())
    }
}

/// The verdict on a claim, given the digest that was expected of its
/// payload: first the session and the caller, then the payload.
pub open spec fn claim_verdict(
    session: StakeAccount,
    caller: Seq<u8>,
    game_timestamp: i64,
    now: i64,
    expected: Seq<u8>,
    presented: Seq<u8>,
) -> Result<(), GameError> {
    match transition_guard(session, caller) {
        Err(e) => Err(e),
        Ok(_) => payload_verdict(now, game_timestamp, expected, presented),
    }
}

impl InitializePool {
    /// What setting the pool up returns and what it leaves behind: the fresh
    /// pool in its place where the place was empty, the refusal and the pool
    /// as it was where not.
    pub open spec fn outcome(self) -> (Result<(), GameError>, InitializePool) {
        match self.pool {
            None => (Ok(()), InitializePool { pool: Some(fresh_pool(self.authority, self.bump)), ..self }),
            Some(_) => (Err(GameError::AlreadyInitialized), self),
        }
    }
}

impl Stake {
    /// The session that a stake of `amount` opens at the instant `now`.
    pub open spec fn opened_session(self, amount: u64, duration: u16, difficulty: u8, now: i64) -> StakeAccount {
        StakeAccount {
            player: self.player.key,
            amount,
            duration,
            difficulty,
            timestamp: now,
            status: SessionStatus::Active,
            bump: self.bump,
        }
    }

    /// Whether the vault and the pool's total can take `amount` more within
    /// 64 bits.
    pub open spec fn has_room(self, amount: u64) -> bool {
        &&& self.vault.lamports + amount <= u64::MAX
        &&& self.pool.total_staked + amount <= u64::MAX
    }

    /// Tells whether the vault and the pool's total can take `amount` more
    /// within 64 bits.
    pub fn check_room(&self, amount: u64) -> (room: bool)
        ensures
            room == self.has_room(amount),
    {
        amount <= u64::MAX - self.vault.lamports && amount <= u64::MAX - self.pool.total_staked
    }

    /// The pool and the balances after a stake of `amount` has moved from
    /// the player to the vault.
    pub open spec fn funded(self, amount: u64) -> Stake {
        Stake {
            pool: self.pool.after_stake(amount),
            vault: Wallet { lamports: (self.vault.lamports + amount) as u64, ..self.vault },
            player: Wallet { lamports: (self.player.lamports - amount) as u64, ..self.player },
            bump: self.bump,
        }
    }

    /// What a request to open a session returns and what it leaves behind:
    /// the new session and the funded vault where the request is accepted,
    /// the refusal and everything as it was where it is not.
    pub open spec fn outcome(self, amount: u64, duration: u16, difficulty: u8, now: i64) -> (
        Result<StakeAccount, GameError>,
        Stake,
    ) {
        match stake_verdict(self.player.lamports, amount, duration, difficulty) {
            Ok(_) => (Ok(self.opened_session(amount, duration, difficulty, now)), self.funded(amount)),
            Err(e) => (Err(e), self),
        }
    }
}

impl ClaimReward {
    /// What a successful claim pays: the stake times the multiplier of the
    /// session, rounded down, or all that the vault holds where that is less.
    pub open spec fn payout(self) -> nat {
        capped_payout(
            self.stake_account.amount,
            self.stake_account.duration,
            self.stake_account.difficulty,
            self.vault.lamports,
        )
    }

    /// Whether the player's balance and the pool's total can take the
    /// payout within 64 bits.
    pub open spec fn has_room(self) -> bool {
        &&& self.player.lamports + self.payout() <= u64::MAX
        &&& self.pool.total_rewards_paid + self.payout() <= u64::MAX
    }

    /// Tells whether the player's balance and the pool's total can take the
    /// payout within 64 bits.
    pub fn check_room(&self) -> (room: bool)
        ensures
            room == self.has_room(),
    {
        let payout: u64 = compute_payout(
            self.stake_account.amount,
            self.stake_account.duration,
            self.stake_account.difficulty,
            self.vault.lamports,
        );
        payout <= u64::MAX - self.player.lamports && payout <= u64::MAX - self.pool.total_rewards_paid
    }

    /// The records and the balances after a successful claim.
    pub open spec fn settled(self) -> ClaimReward {
        ClaimReward {
            pool: self.pool.after_payout(self.payout() as u64),
            vault: Wallet { lamports: (self.vault.lamports - self.payout()) as u64, ..self.vault },
            stake_account: self.stake_account.with_status(SessionStatus::Claimed),
            player: Wallet { lamports: (self.player.lamports + self.payout()) as u64, ..self.player },
        }
    }

    /// What a claim returns and what it leaves behind, given the digest
    /// that is expected of its payload: the payout and the settled records
    /// where the claim is accepted, the refusal and everything as it was
    /// where it is not.
    pub open spec fn outcome(self, game_timestamp: i64, now: i64, expected: Seq<u8>, presented: Seq<u8>) -> (
        Result<u64, GameError>,
        ClaimReward,
    ) {
        match claim_verdict(
            self.stake_account,
            self.player.key@,
            game_timestamp,
            now,
            expected,
            presented,
        ) {
            Ok(_) => (Ok(self.payout() as u64), self.settled()),
            Err(e) => (Err(e), self),
        }
    }
}

impl Forfeit {
    /// The session after it was given up.
    pub open spec fn settled(self) -> Forfeit {
        Forfeit { stake_account: self.stake_account.with_status(SessionStatus::Forfeited), ..self }
    }

    /// What a forfeit returns and what it leaves behind: the forfeited
    /// session where the caller may end it, the refusal and the session as
    /// it was where not.
    pub open spec fn outcome(self) -> (Result<(), GameError>, Forfeit) {
        match transition_guard(self.stake_account, self.player@) {
            Ok(_) => (Ok(()), self.settled()),
            Err(e) => (Err(e), self),
        }
    }
}

/// Sets the reward pool up with nothing staked and nothing paid, and records
/// who did so. It succeeds once: where the pool exists already the call is
/// refused.
pub fn initialize_pool(ctx: &mut InitializePool) -> (result: Result<(), GameError>)
    ensures
        (result, *final(ctx)) == old(ctx).outcome(),
{
    if ctx.pool.is_some() {
        return Err(GameError::AlreadyInitialized);
    }
    ctx.pool = Some(
        RewardPool { authority: ctx.authority, total_staked: 0, total_rewards_paid: 0, bump: ctx.bump },
    );
    Ok(())
}

/// Opens a session: moves `amount` from the player to the vault, counts it
/// in the pool and returns the new, active session, dated `now`.
///
/// The request is refused, and nothing changes, where the length is not 30,
/// 60 or 90, the difficulty is above 2, the stake is zero or the player
/// holds less than the stake; the first of these that applies is reported.
///
/// A stake that is accepted must leave the vault's balance and the pool's
/// total within 64 bits.
pub fn stake(ctx: &mut Stake, amount: u64, duration: u16, difficulty: u8, now: i64) -> (result: Result<
    StakeAccount,
    GameError,
>)
    requires
        stake_verdict(old(ctx).player.lamports, amount, duration, difficulty) is Ok ==> old(ctx).has_room(
            amount,
        ),
    ensures
        (result, *final(ctx)) == old(ctx).outcome(amount, duration, difficulty, now),
{
    if !(duration == 30 || duration == 60 || duration == 90) {
        return Err(GameError::InvalidDuration);
    }
    if difficulty > 2 {
        return Err(GameError::InvalidDifficulty);
    }
    if amount == 0 {
        return Err(GameError::InvalidAmount);
    }
    if ctx.player.lamports < amount {
        return Err(GameError::InsufficientFunds);
    }
    ctx.player.lamports = ctx.player.lamports - amount;
    ctx.vault.lamports = ctx.vault.lamports + amount;
    ctx.pool.total_staked = ctx.pool.total_staked + amount;
    Ok(
        StakeAccount {
            player: ctx.player.key,
            amount,
            duration,
            difficulty,
            timestamp: now,
            status: SessionStatus::Active,
            bump: ctx.bump,
        },
    )
}

/// Tells whether `caller` may end `session`.
pub fn check_transition(session: &StakeAccount, caller: &[u8; 32]) -> (verdict: Result<(), GameError>)
    ensures
        verdict == transition_guard(*session, caller@),
{
    match session.status {
        SessionStatus::Claimed => Err(GameError::AlreadyClaimed),
        SessionStatus::Forfeited => Err(GameError::AlreadyForfeited),
        SessionStatus::Active => {
            if bytes32_eq(&session.player, caller) {
                Ok(())
            } else {
                Err(GameError::Unauthorized)
            }
        },
    }
}

/// Pays a claim that has passed every check: moves the payout from the
/// vault to the player, marks the session claimed and counts the payout in
/// the pool.
fn pay_out(ctx: &mut ClaimReward) -> (payout: u64)
    requires
        old(ctx).has_room(),
    ensures
        payout == old(ctx).payout(),
        *final(ctx) == old(ctx).settled(),
{
    let payout: u64 = compute_payout(
        ctx.stake_account.amount,
        ctx.stake_account.duration,
        ctx.stake_account.difficulty,
        ctx.vault.lamports,
    );
    ctx.vault.lamports = ctx.vault.lamports - payout;
    ctx.player.lamports = ctx.player.lamports + payout;
    ctx.stake_account.status = SessionStatus::Claimed;
    ctx.pool.total_rewards_paid = ctx.pool.total_rewards_paid + payout;
    payout
}

/// Settles a claim whose expected digest is at hand: checks the session, the
/// caller and the payload against that digest, then pays as `claim_reward`
/// does, and returns what was paid.
pub fn settle_claim(
    ctx: &mut ClaimReward,
    game_timestamp: i64,
    expected: &[u8; 32],
    payload_hash: &[u8; 32],
    now: i64,
) -> (result: Result<u64, GameError>)
    requires
        transition_guard(old(ctx).stake_account, old(ctx).player.key@) is Ok && is_fresh(
            now,
            game_timestamp,
        ) ==> old(ctx).has_room(),
    ensures
        (result, *final(ctx)) == old(ctx).outcome(game_timestamp, now, expected@, payload_hash@),
{
    check_transition(&ctx.stake_account, &ctx.player.key)?;
    judge_payload(now, game_timestamp, expected, payload_hash)?;
    Ok(pay_out(ctx))
}

/// Claims the reward of a won session: pays the player out of the vault,
/// marks the session claimed, counts the payout in the pool and returns
/// what was paid.
///
/// The payout is the stake times the session's multiplier, rounded down,
/// capped by what the vault holds: a thin vault pays what it has, and the
/// claim still succeeds.
///
/// The claim is refused, and nothing changes, where the session was claimed
/// or forfeited before, the caller is not its player, the outcome is 120
/// seconds old or older, or `payload_hash` is not the SHA-256 digest of
/// `score|game_timestamp|duration|difficulty` with the session's own length
/// and difficulty; the first of these that applies is reported.
///
/// Where the session is active, the caller is its player and the outcome is
/// fresh, the payout must leave the player's balance and the pool's total
/// within 64 bits.
pub fn claim_reward(
    ctx: &mut ClaimReward,
    score: u64,
    game_timestamp: i64,
    payload_hash: [u8; 32],
    now: i64,
) -> (result: Result<u64, GameError>)
    requires
        transition_guard(old(ctx).stake_account, old(ctx).player.key@) is Ok && is_fresh(
            now,
            game_timestamp,
        ) ==> old(ctx).has_room(),
    ensures
        (result, *final(ctx)) == old(ctx).outcome(
            game_timestamp,
            now,
            expected_digest(
                score,
                game_timestamp,
                old(ctx).stake_account.duration,
                old(ctx).stake_account.difficulty,
            ),
            payload_hash@,
        ),
{
    check_transition(&ctx.stake_account, &ctx.player.key)?;
    verify_payload(
        score,
        game_timestamp,
        &payload_hash,
        ctx.stake_account.duration,
        ctx.stake_account.difficulty,
        now,
    )?;
    Ok(pay_out(ctx))
}

/// Gives a session up: marks it forfeited. No lamports move; the stake
/// stays in the vault.
///
/// The request is refused, and nothing changes, where the session was
/// claimed or forfeited before, or the caller is not its player.
pub fn forfeit(ctx: &mut Forfeit) -> (result: Result<(), GameError>)
    ensures
        (result, *final(ctx)) == old(ctx).outcome(),
{
    check_transition(&ctx.stake_account, &ctx.player)?;
    ctx.stake_account.status = SessionStatus::Forfeited;
    Ok(())
}

} // verus!
