//! The canonical text of a reported game outcome.
//!
//! The player's client and the escrow both hash the same text: the score,
//! the moment the outcome was produced, the session length and the
//! difficulty, each in decimal, joined by `|`. The text determines the four
//! values, so a digest of it vouches for all four at once.

use vstd::prelude::*;

verus! {

/// The byte that separates the fields: `|`.
pub const SEPARATOR: u8 = 124;

/// The byte that opens a negative number: `-`.
pub const MINUS: u8 = 45;

/// The byte of the digit zero: `0`.
pub const ZERO: u8 = 48;

/// A number in decimal, most significant digit first, without leading zeros.
pub open spec fn decimal(n: nat) -> Seq<u8>
    decreases n,
{
    if n < 10 {
        seq![(ZERO + n) as u8]
    } else {
        decimal(n / 10).push((ZERO + n % 10) as u8)
    }
}

/// The distance of an integer from zero.
pub open spec fn magnitude(i: int) -> nat {
    if i < 0 {
        (-i) as nat
    } else {
        i as nat
    }
}

/// An integer in decimal, with a leading `-` where it is negative.
pub open spec fn signed_decimal(i: int) -> Seq<u8> {
    if i < 0 {
        seq![MINUS] + decimal(magnitude(i))
    } else {
        decimal(magnitude(i))
    }
}

/// The number that a string of decimal digits stands for.
pub open spec fn decimal_value(digits: Seq<u8>) -> nat
    decreases digits.len(),
{
    if digits.len() == 0 {
        0
    } else {
        decimal_value(digits.drop_last()) * 10 + (digits.last() - ZERO) as nat
    }
}

/// Whether a byte string is free of the separator.
pub open spec fn separator_free(bytes: Seq<u8>) -> bool {
    forall|i: int| 0 <= i < bytes.len() ==> bytes[i] != SEPARATOR
}

/// A field followed by the separator and by what comes after it.
pub open spec fn field_then(field: Seq<u8>, rest: Seq<u8>) -> Seq<u8> {
    field.push(SEPARATOR) + rest
}

/// The text that is hashed: `score|game_timestamp|duration|difficulty`.
pub open spec fn canonical_message(score: u64, game_timestamp: i64, duration: u16, difficulty: u8) -> Seq<u8> {
    field_then(
        decimal(score as nat),
        field_then(
            signed_decimal(game_timestamp as int),
            field_then(decimal(duration as nat), decimal(difficulty as nat)),
        ),
    )
}

/// A decimal has at least one digit, and nothing but digits.
pub proof fn lemma_decimal_is_digits(n: nat)
    ensures
        decimal(n).len() >= 1,
        forall|i: int| 0 <= i < decimal(n).len() ==> ZERO <= #[trigger] decimal(n)[i] <= ZERO + 9,
        separator_free(decimal(n)),
    decreases n,
{
    if n >= 10 {
        lemma_decimal_is_digits(n / 10);
    }
}

/// Reading a decimal gives the number back.
pub proof fn lemma_decimal_value(n: nat)
    ensures
        decimal_value(decimal(n)) == n,
    decreases n,
{
    if n < 10 {
        assert(decimal(n).drop_last() =~= Seq::<u8>::empty());
        assert(decimal_value(Seq::<u8>::empty()) == 0);
        assert(decimal(n).last() == ZERO + n);
    } else {
        lemma_decimal_value(n / 10);
        assert(decimal(n).drop_last() =~= decimal(n / 10));
        assert(decimal(n).last() == ZERO + n % 10);
    }
}

/// Two numbers with the same decimal are the same number.
pub proof fn lemma_decimal_injective(a: nat, b: nat)
    requires
        decimal(a) == decimal(b),
    ensures
        a == b,
{
    lemma_decimal_value(a);
    lemma_decimal_value(b);
}

/// Two integers with the same signed decimal are the same integer.
pub proof fn lemma_signed_decimal_injective(a: int, b: int)
    requires
        signed_decimal(a) == signed_decimal(b),
    ensures
        a == b,
{
    lemma_decimal_is_digits(magnitude(a));
    lemma_decimal_is_digits(magnitude(b));
    if a < 0 && b < 0 {
        let da = decimal((-a) as nat);
        let db = decimal((-b) as nat);
        assert(da =~= signed_decimal(a).subrange(1, signed_decimal(a).len() as int));
        assert(db =~= signed_decimal(b).subrange(1, signed_decimal(b).len() as int));
        lemma_decimal_injective((-a) as nat, (-b) as nat);
    } else if a >= 0 && b >= 0 {
        lemma_decimal_injective(a as nat, b as nat);
    } else if a < 0 {
        assert(signed_decimal(a)[0] == MINUS);
        assert(signed_decimal(b)[0] == decimal(b as nat)[0]);
    } else {
        assert(signed_decimal(b)[0] == MINUS);
        assert(signed_decimal(a)[0] == decimal(a as nat)[0]);
    }
}

/// A signed decimal holds no separator.
pub proof fn lemma_signed_decimal_separator_free(i: int)
    ensures
        separator_free(signed_decimal(i)),
{
    lemma_decimal_is_digits(magnitude(i));
    if i < 0 {
        let digits = decimal((-i) as nat);
        assert forall|k: int| 0 <= k < signed_decimal(i).len() implies signed_decimal(i)[k]
            != SEPARATOR by {
            if k > 0 {
                assert(signed_decimal(i)[k] == digits[k - 1]);
            }
        }
    }
}

/// A text splits at its first separator in one way only.
pub proof fn lemma_field_then_injective(field1: Seq<u8>, rest1: Seq<u8>, field2: Seq<u8>, rest2: Seq<u8>)
    requires
        separator_free(field1),
        separator_free(field2),
        field_then(field1, rest1) == field_then(field2, rest2),
    ensures
        field1 == field2,
        rest1 == rest2,
{
    let text1 = field_then(field1, rest1);
    let text2 = field_then(field2, rest2);
    let n1 = field1.len() as int;
    let n2 = field2.len() as int;
    assert(text1[n1] == SEPARATOR);
    assert(text2[n2] == SEPARATOR);
    if n1 < n2 {
        assert(text2[n1] == field2[n1]);
    } else if n2 < n1 {
        assert(text1[n2] == field1[n2]);
    }
    assert(n1 == n2);
    assert forall|i: int| 0 <= i < n1 implies field1[i] == field2[i] by {
        assert(text1[i] == field1[i]);
        assert(text2[i] == field2[i]);
    }
    assert(field1 =~= field2);
    assert(rest1.len() == rest2.len()) by {
        assert(text1.len() == n1 + 1 + rest1.len());
        assert(text2.len() == n2 + 1 + rest2.len());
    }
    assert forall|i: int| 0 <= i < rest1.len() implies rest1[i] == rest2[i] by {
        assert(text1[n1 + 1 + i] == rest1[i]);
        assert(text2[n2 + 1 + i] == rest2[i]);
    }
    assert(rest1 =~= rest2);
}

/// The canonical text determines the outcome: two outcomes with the same
/// text agree in score, timestamp, session length and difficulty.
pub proof fn lemma_canonical_message_injective(
    score1: u64,
    game_timestamp1: i64,
    duration1: u16,
    difficulty1: u8,
    score2: u64,
    game_timestamp2: i64,
    duration2: u16,
    difficulty2: u8,
)
    requires
        canonical_message(score1, game_timestamp1, duration1, difficulty1) == canonical_message(
            score2,
            game_timestamp2,
            duration2,
            difficulty2,
        ),
    ensures
        score1 == score2,
        game_timestamp1 == game_timestamp2,
        duration1 == duration2,
        difficulty1 == difficulty2,
{
    let tail1 = field_then(decimal(duration1 as nat), decimal(difficulty1 as nat));
    let tail2 = field_then(decimal(duration2 as nat), decimal(difficulty2 as nat));
    let mid1 = field_then(signed_decimal(game_timestamp1 as int), tail1);
    let mid2 = field_then(signed_decimal(game_timestamp2 as int), tail2);
    lemma_decimal_is_digits(score1 as nat);
    lemma_decimal_is_digits(score2 as nat);
    lemma_field_then_injective(decimal(score1 as nat), mid1, decimal(score2 as nat), mid2);
    lemma_decimal_injective(score1 as nat, score2 as nat);
    lemma_signed_decimal_separator_free(game_timestamp1 as int);
    lemma_signed_decimal_separator_free(game_timestamp2 as int);
    lemma_field_then_injective(
        signed_decimal(game_timestamp1 as int),
        tail1,
        signed_decimal(game_timestamp2 as int),
        tail2,
    );
    lemma_signed_decimal_injective(game_timestamp1 as int, game_timestamp2 as int);
    lemma_decimal_is_digits(duration1 as nat);
    lemma_decimal_is_digits(duration2 as nat);
    lemma_field_then_injective(
        decimal(duration1 as nat),
        decimal(difficulty1 as nat),
        decimal(duration2 as nat),
        decimal(difficulty2 as nat),
    );
    lemma_decimal_injective(duration1 as nat, duration2 as nat);
    lemma_decimal_injective(difficulty1 as nat, difficulty2 as nat);
}

/// Appends the decimal of `n` to `out`.
pub fn push_decimal(out: &mut Vec<u8>, n: u64)
    ensures
        final(out)@ == old(out)@ + decimal(n as nat),
{
    let ghost before = out@;
    // The digits, least significant first.
    let mut digits: Vec<u8> = Vec::new();
    let mut rest: u64 = n;
    while rest >= 10
        invariant
            decimal(n as nat) == decimal(rest as nat) + digits@.reverse(),
        decreases rest,
    {
        let digit: u8 = (rest % 10) as u8;
        proof {
            let pushed = digits@.push((ZERO + digit) as u8);
            assert(pushed.reverse() =~= seq![(ZERO + digit) as u8] + digits@.reverse());
            assert(decimal(rest as nat) == decimal((rest / 10) as nat).push((ZERO + digit) as u8));
            assert(decimal((rest / 10) as nat).push((ZERO + digit) as u8) + digits@.reverse()
                =~= decimal((rest / 10) as nat) + pushed.reverse());
        }
        digits.push(ZERO + digit);
        rest = rest / 10;
    }
    proof {
        let pushed = digits@.push((ZERO + rest) as u8);
        assert(pushed.reverse() =~= seq![(ZERO + rest) as u8] + digits@.reverse());
        assert(decimal(n as nat) =~= pushed.reverse());
    }
    digits.push(ZERO + rest as u8);
    let count: usize = digits.len();
    let mut taken: usize = 0;
    while taken < count
        invariant
            count == digits@.len(),
            taken <= count,
            out@ == before + digits@.reverse().subrange(0, taken as int),
        decreases count - taken,
    {
        let byte: u8 = digits[count - 1 - taken];
        proof {
            let reversed = digits@.reverse();
            assert(reversed[taken as int] == byte);
            assert(reversed.subrange(0, taken + 1) =~= reversed.subrange(0, taken as int).push(byte));
            assert((before + reversed.subrange(0, taken as int)).push(byte) =~= before
                + reversed.subrange(0, taken + 1));
        }
        out.push(byte);
        taken += 1;
    }
    assert(digits@.reverse().subrange(0, count as int) =~= digits@.reverse());
}

/// Appends the signed decimal of `i` to `out`.
pub fn push_signed_decimal(out: &mut Vec<u8>, i: i64)
    ensures
        final(out)@ == old(out)@ + signed_decimal(i as int),
{
    let ghost before = out@;
    if i < 0 {
        out.push(MINUS);
        let magnitude: u64 = (-(i as i128)) as u64;
        push_decimal(out, magnitude);
        assert(before.push(MINUS) + decimal(magnitude as nat) =~= before + (seq![MINUS] + decimal(
            magnitude as nat,
        )));
    } else {
        push_decimal(out, i as u64);
    }
}

/// Writes out the text that is hashed for a reported outcome.
pub fn encode_message(score: u64, game_timestamp: i64, duration: u16, difficulty: u8) -> (text: Vec<u8>)
    ensures
        text@ == canonical_message(score, game_timestamp, duration, difficulty),
{
    let mut text: Vec<u8> = Vec::new();
    push_decimal(&mut text, score);
    text.push(SEPARATOR);
    push_signed_decimal(&mut text, game_timestamp);
    text.push(SEPARATOR);
    push_decimal(&mut text, duration as u64);
    text.push(SEPARATOR);
    push_decimal(&mut text, difficulty as u64);
    assert(text@ =~= canonical_message(score, game_timestamp, duration, difficulty));
    text
}

} // verus!
