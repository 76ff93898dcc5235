use anchor_lang::solana_program::hash::hash;
use solpin::{
    bytes32_eq, check_fresh, compute_expected_digest, judge_payload, verify_payload, GameError,
    FRESHNESS_WINDOW,
};

const NOW: i64 = 1_700_000_000;

// SHA-256 of "50|1700000000|30|0".
const DIGEST_50_SHORT_EASY: [u8; 32] = [
    248, 72, 249, 6, 87, 119, 58, 127, 194, 238, 79, 167, 66, 105, 4, 133, 36, 17, 41, 132, 64, 137,
    159, 168, 222, 239, 213, 13, 235, 144, 50, 29,
];

// SHA-256 of "18446744073709551615|-9223372036854775808|90|2".
const DIGEST_EXTREMES: [u8; 32] = [
    115, 223, 171, 217, 96, 152, 72, 94, 67, 238, 33, 55, 199, 127, 233, 211, 207, 184, 141, 59, 19,
    28, 165, 87, 134, 41, 234, 59, 59, 40, 213, 49,
];

#[test]
fn freshness_window_is_two_minutes() {
    assert_eq!(FRESHNESS_WINDOW, 120);
}

#[test]
fn fresh_up_to_119_seconds() {
    assert!(check_fresh(NOW, NOW));
    assert!(check_fresh(NOW, NOW - 1));
    assert!(check_fresh(NOW, NOW - 119));
}

#[test]
fn stale_from_120_seconds() {
    assert!(!check_fresh(NOW, NOW - 120));
    assert!(!check_fresh(NOW, NOW - 121));
    assert!(!check_fresh(NOW, NOW - 200));
    assert!(!check_fresh(NOW, 0));
}

#[test]
fn outcome_dated_ahead_is_fresh() {
    assert!(check_fresh(NOW, NOW + 1));
    assert!(check_fresh(NOW, NOW + 100_000));
    assert!(check_fresh(NOW, i64::MAX));
}

#[test]
fn freshness_at_the_ends_of_the_range() {
    assert!(!check_fresh(i64::MAX, i64::MIN));
    assert!(check_fresh(i64::MIN, i64::MAX));
    assert!(!check_fresh(NOW, i64::MIN));
    assert!(check_fresh(i64::MIN, i64::MIN));
    assert!(check_fresh(i64::MAX, i64::MAX));
    assert!(!check_fresh(i64::MAX, i64::MAX - 120));
    assert!(check_fresh(i64::MAX, i64::MAX - 119));
}

#[test]
fn expected_digest_is_sha256_of_the_message() {
    assert_eq!(compute_expected_digest(50, NOW, 30, 0), DIGEST_50_SHORT_EASY);
    assert_eq!(compute_expected_digest(u64::MAX, i64::MIN, 90, 2), DIGEST_EXTREMES);
}

#[test]
fn expected_digest_agrees_with_the_hash_of_the_formatted_text() {
    for (score, game_timestamp, duration, difficulty) in
        [(0u64, 0i64, 30u16, 0u8), (7, -3, 60, 1), (999_999, NOW, 90, 2)]
    {
        let text = format!("{}|{}|{}|{}", score, game_timestamp, duration, difficulty);
        assert_eq!(
            compute_expected_digest(score, game_timestamp, duration, difficulty),
            hash(text.as_bytes()).to_bytes()
        );
    }
}

#[test]
fn bytes32_eq_compares_every_byte() {
    let a = [9u8; 32];
    assert!(bytes32_eq(&a, &a));
    assert!(bytes32_eq(&a, &[9u8; 32]));
    for i in 0..32 {
        let mut b = a;
        b[i] ^= 1;
        assert!(!bytes32_eq(&a, &b), "byte {}", i);
        assert!(!bytes32_eq(&b, &a), "byte {}", i);
    }
}

#[test]
fn judge_payload_accepts_fresh_and_equal() {
    assert_eq!(judge_payload(NOW, NOW, &DIGEST_EXTREMES, &DIGEST_EXTREMES), Ok(()));
    assert_eq!(judge_payload(NOW, NOW - 119, &[0u8; 32], &[0u8; 32]), Ok(()));
}

#[test]
fn judge_payload_reports_stale_before_mismatch() {
    assert_eq!(
        judge_payload(NOW, NOW - 120, &DIGEST_EXTREMES, &DIGEST_EXTREMES),
        Err(GameError::StalePayload)
    );
    assert_eq!(
        judge_payload(NOW, NOW - 120, &DIGEST_EXTREMES, &[0u8; 32]),
        Err(GameError::StalePayload)
    );
    assert_eq!(
        judge_payload(NOW, NOW, &DIGEST_EXTREMES, &[0u8; 32]),
        Err(GameError::InvalidPayload)
    );
}

#[test]
fn judge_payload_rejects_a_digest_that_differs_in_its_last_byte() {
    let mut presented = DIGEST_50_SHORT_EASY;
    presented[31] ^= 0x80;
    assert_eq!(
        judge_payload(NOW, NOW, &DIGEST_50_SHORT_EASY, &presented),
        Err(GameError::InvalidPayload)
    );
}

#[test]
fn verify_payload_accepts_a_known_digest() {
    assert_eq!(verify_payload(50, NOW, &DIGEST_50_SHORT_EASY, 30, 0, NOW), Ok(()));
    assert_eq!(verify_payload(50, NOW, &DIGEST_50_SHORT_EASY, 30, 0, NOW + 119), Ok(()));
}

#[test]
fn verify_payload_rejects_a_stale_outcome() {
    assert_eq!(
        verify_payload(50, NOW, &DIGEST_50_SHORT_EASY, 30, 0, NOW + 120),
        Err(GameError::StalePayload)
    );
    assert_eq!(
        verify_payload(50, NOW, &DIGEST_50_SHORT_EASY, 30, 0, NOW + 200),
        Err(GameError::StalePayload)
    );
}

#[test]
fn verify_payload_rejects_any_changed_field() {
    let digest = DIGEST_50_SHORT_EASY;
    assert_eq!(verify_payload(51, NOW, &digest, 30, 0, NOW), Err(GameError::InvalidPayload));
    assert_eq!(verify_payload(49, NOW, &digest, 30, 0, NOW), Err(GameError::InvalidPayload));
    assert_eq!(verify_payload(50, NOW - 1, &digest, 30, 0, NOW), Err(GameError::InvalidPayload));
    assert_eq!(verify_payload(50, NOW + 1, &digest, 30, 0, NOW), Err(GameError::InvalidPayload));
    assert_eq!(verify_payload(50, NOW, &digest, 60, 0, NOW), Err(GameError::InvalidPayload));
    assert_eq!(verify_payload(50, NOW, &digest, 90, 0, NOW), Err(GameError::InvalidPayload));
    assert_eq!(verify_payload(50, NOW, &digest, 30, 1, NOW), Err(GameError::InvalidPayload));
    assert_eq!(verify_payload(50, NOW, &digest, 30, 2, NOW), Err(GameError::InvalidPayload));
}

#[test]
fn verify_payload_rejects_any_changed_digest_byte() {
    for i in 0..32 {
        let mut digest = DIGEST_50_SHORT_EASY;
        digest[i] = digest[i].wrapping_add(1);
        assert_eq!(
            verify_payload(50, NOW, &digest, 30, 0, NOW),
            Err(GameError::InvalidPayload),
            "byte {}",
            i
        );
    }
}

#[test]
fn verify_payload_rejects_the_message_itself_as_digest() {
    // The digest is a hash of the text, not a stretch of it.
    let mut presented = [0u8; 32];
    let text = b"50|1700000000|30|0";
    presented[..text.len()].copy_from_slice(text);
    assert_eq!(verify_payload(50, NOW, &presented, 30, 0, NOW), Err(GameError::InvalidPayload));
}
