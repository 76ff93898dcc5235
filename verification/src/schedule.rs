//! The reward schedule: which multiple of the stake a won session pays.
//!
//! Multipliers are exact rationals with denominator ten, so that a payout is
//! the same on every machine.

use vstd::prelude::*;

verus! {

/// Whether a session may last this many seconds.
pub open spec fn valid_duration(duration: u16) -> bool {
    duration == 30 || duration == 60 || duration == 90
}

/// Whether this is one of the three difficulty levels.
pub open spec fn valid_difficulty(difficulty: u8) -> bool {
    difficulty <= 2
}

/// The payout multiplier in tenths: 12 stands for 1.2.
///
/// Outside the nine combinations of the table the multiplier is 1.0.
pub open spec fn multiplier_tenths(duration: u16, difficulty: u8) -> nat {
    if duration == 30 && difficulty == 0 {
        12
    } else if duration == 30 && difficulty == 1 {
        14
    } else if duration == 30 && difficulty == 2 {
        18
    } else if duration == 60 && difficulty == 0 {
        15
    } else if duration == 60 && difficulty == 1 {
        18
    } else if duration == 60 && difficulty == 2 {
        22
    } else if duration == 90 && difficulty == 0 {
        18
    } else if duration == 90 && difficulty == 1 {
        22
    } else if duration == 90 && difficulty == 2 {
        25
    } else {
        10
    }
}

/// What a won session pays when the vault can afford it: the stake times the
/// multiplier, rounded down.
pub open spec fn ideal_reward(amount: u64, duration: u16, difficulty: u8) -> nat {
    (amount as nat * multiplier_tenths(duration, difficulty)) / 10
}

/// What a won session pays out of a vault that holds `vault_balance`: the
/// ideal reward, or all that the vault holds where that is less.
pub open spec fn capped_payout(amount: u64, duration: u16, difficulty: u8, vault_balance: u64) -> nat {
    if ideal_reward(amount, duration, difficulty) <= vault_balance {
        ideal_reward(amount, duration, difficulty)
    } else {
        vault_balance as nat
    }
}

/// Looks up the payout multiplier, in tenths, of a session length and a
/// difficulty. It is never below 1.0.
pub fn get_multiplier(duration: u16, difficulty: u8) -> (tenths: u64)
    ensures
        tenths == multiplier_tenths(duration, difficulty),
        10 <= tenths <= 25,
{
    match (duration, difficulty) {
        (30, 0) => 12,
        (30, 1) => 14,
        (30, 2) => 18,
        (60, 0) => 15,
        (60, 1) => 18,
        (60, 2) => 22,
        (90, 0) => 18,
        (90, 1) => 22,
        (90, 2) => 25,
        _ => 10,
    }
}

/// Computes what a won session pays out of a vault that holds
/// `vault_balance`. The product is formed in 128 bits, so no stake is too
/// large.
pub fn compute_payout(amount: u64, duration: u16, difficulty: u8, vault_balance: u64) -> (payout: u64)
    ensures
        payout == capped_payout(amount, duration, difficulty, vault_balance),
        payout <= vault_balance,
{
    let tenths: u64 = get_multiplier(duration, difficulty);
    assert(amount * tenths <= u64::MAX * 25) by (nonlinear_arith)
        requires
            amount <= u64::MAX,
            tenths <= 25,
    ;
    let ideal: u128 = (amount as u128) * (tenths as u128) / 10;
    if ideal <= vault_balance as u128 {
        ideal as u64
    } else {
        vault_balance
    }
}

/// Every session length and difficulty of the table has a multiplier above
/// 1.0, and no input at all has one below 1.0: a win never pays less than the
/// stake while the vault can afford it.
pub proof fn lemma_schedule_never_below_stake(amount: u64, duration: u16, difficulty: u8)
    ensures
        multiplier_tenths(duration, difficulty) >= 10,
        valid_duration(duration) && valid_difficulty(difficulty) ==> 12 <= multiplier_tenths(
            duration,
            difficulty,
        ) <= 25,
        ideal_reward(amount, duration, difficulty) >= amount,
{
    let tenths = multiplier_tenths(duration, difficulty);
    assert((amount as nat * tenths) / 10 >= amount) by (nonlinear_arith)
        requires
            tenths >= 10,
    ;
}

} // verus!
