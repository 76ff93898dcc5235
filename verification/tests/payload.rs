use solpin::encode_message;
use solpin::payload::{push_decimal, push_signed_decimal};

#[test]
fn message_joins_the_four_fields() {
    assert_eq!(encode_message(50, 1700000000, 30, 0), b"50|1700000000|30|0".to_vec());
    assert_eq!(encode_message(0, 0, 30, 0), b"0|0|30|0".to_vec());
    assert_eq!(encode_message(123456, 42, 90, 2), b"123456|42|90|2".to_vec());
}

#[test]
fn message_matches_the_standard_formatting() {
    let cases: [(u64, i64, u16, u8); 6] = [
        (0, 0, 0, 0),
        (9, -9, 10, 10),
        (10, 10, 99, 99),
        (1000, -1000, 60, 1),
        (u64::MAX, i64::MAX, u16::MAX, u8::MAX),
        (u64::MAX, i64::MIN, 90, 2),
    ];
    for (score, game_timestamp, duration, difficulty) in cases {
        let expected = format!("{}|{}|{}|{}", score, game_timestamp, duration, difficulty);
        assert_eq!(encode_message(score, game_timestamp, duration, difficulty), expected.into_bytes());
    }
}

#[test]
fn message_of_a_negative_timestamp_has_a_sign() {
    assert_eq!(encode_message(1, -5, 30, 0), b"1|-5|30|0".to_vec());
    assert_eq!(
        encode_message(1, i64::MIN, 30, 0),
        b"1|-9223372036854775808|30|0".to_vec()
    );
}

#[test]
fn message_of_the_largest_values() {
    assert_eq!(
        encode_message(u64::MAX, i64::MAX, u16::MAX, u8::MAX),
        b"18446744073709551615|9223372036854775807|65535|255".to_vec()
    );
}

#[test]
fn message_differs_when_any_field_differs() {
    let base = encode_message(50, 1700000000, 30, 0);
    assert_ne!(encode_message(51, 1700000000, 30, 0), base);
    assert_ne!(encode_message(50, 1700000001, 30, 0), base);
    assert_ne!(encode_message(50, 1700000000, 60, 0), base);
    assert_ne!(encode_message(50, 1700000000, 30, 1), base);
    // Digits that move across a separator still give another text.
    assert_ne!(encode_message(1, 23, 30, 0), encode_message(12, 3, 30, 0));
    assert_ne!(encode_message(5, 0, 30, 0), encode_message(50, 0, 3, 0));
}

#[test]
fn push_decimal_appends_digits() {
    let mut out = b"x=".to_vec();
    push_decimal(&mut out, 0);
    assert_eq!(out, b"x=0".to_vec());
    push_decimal(&mut out, 907);
    assert_eq!(out, b"x=0907".to_vec());
    let mut big = Vec::new();
    push_decimal(&mut big, u64::MAX);
    assert_eq!(big, b"18446744073709551615".to_vec());
}

#[test]
fn push_signed_decimal_appends_sign_and_digits() {
    let mut out = Vec::new();
    push_signed_decimal(&mut out, -120);
    assert_eq!(out, b"-120".to_vec());
    push_signed_decimal(&mut out, 7);
    assert_eq!(out, b"-1207".to_vec());
    let mut zero = Vec::new();
    push_signed_decimal(&mut zero, 0);
    assert_eq!(zero, b"0".to_vec());
}
