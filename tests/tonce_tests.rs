use blockchainlib::tonce::{digest_passes, tonce_from_digest};
use blockchainlib::{find_valid_timestamp, u128_bytes, TonceChallenge};

fn digest_tail(ts: u128) -> u32 {
    let hash = crypto_hash::digest(crypto_hash::Algorithm::SHA256, &u128_bytes(&ts));
    u32::from_be_bytes([hash[28], hash[29], hash[30], hash[31]])
}

#[test]
fn test_tonce_creation() {
    let timestamp = 1000000;
    let challenge = TonceChallenge::new(timestamp);

    assert_eq!(challenge.prev_block_timestamp, timestamp);
    assert!(challenge.tonce >= 1 && challenge.tonce <= 31);
    assert!(!challenge.challenge_expired);
}

#[test]
fn test_calculate_tonce_range() {
    for i in 0..100 {
        let timestamp = 1000000 + i * 1000;
        let challenge = TonceChallenge::new(timestamp);
        assert!(challenge.tonce >= 1 && challenge.tonce <= 31);
    }
}

#[test]
fn tonce_is_low_five_bits_of_digest() {
    let ts: u128 = 1_000_000;
    let hash = crypto_hash::digest(crypto_hash::Algorithm::SHA256, &u128_bytes(&ts));
    let low = hash[31] & 0x1f;
    let expected = if low == 0 { 1 } else { low };
    assert_eq!(TonceChallenge::new(ts).tonce, expected);
}

#[test]
fn tonce_from_digest_maps_zero_to_one() {
    let mut d = vec![0u8; 32];
    d[31] = 0xE0;
    assert_eq!(tonce_from_digest(&d), 1);
    d[31] = 0xFF;
    assert_eq!(tonce_from_digest(&d), 31);
    d[31] = 0x25;
    assert_eq!(tonce_from_digest(&d), 5);
}

#[test]
fn digest_passes_reads_last_four_bytes_big_endian() {
    let mut d = vec![0xAAu8; 32];
    d[28] = 0;
    d[29] = 0;
    d[30] = 0x01;
    d[31] = 0x00;
    assert!(digest_passes(&d, 4));
    assert!(!digest_passes(&d, 3));
    d[31] = 0x01;
    assert!(digest_passes(&d, 1));
    assert!(!digest_passes(&d, 2));
}

#[test]
fn test_challenge_expiration() {
    let prev_timestamp = 1000000;
    let challenge = TonceChallenge::new(prev_timestamp);

    let current_time = prev_timestamp + 30_000;
    assert!(!challenge.is_expired(current_time));

    let current_time_after = prev_timestamp + 61_000;
    assert!(challenge.is_expired(current_time_after));
}

#[test]
fn challenge_expires_at_exactly_sixty_seconds() {
    let challenge = TonceChallenge::new(1_000_000);
    assert!(!challenge.is_expired(1_059_999));
    assert!(challenge.is_expired(1_060_000));
    assert!(!challenge.is_expired(0));
}

#[test]
fn test_validation_after_expiration() {
    let prev_timestamp = 1000000;
    let mut challenge = TonceChallenge::new(prev_timestamp);

    let current_time = prev_timestamp + 61_000;
    let any_timestamp = 1234567;

    assert!(challenge.validate_timestamp(any_timestamp, current_time));
    assert!(challenge.challenge_expired);
    assert_eq!(challenge.tonce, 1);
}

#[test]
fn expired_challenge_accepts_failing_candidate_and_stays_collapsed() {
    let mut challenge = TonceChallenge::new(1_000_000);
    challenge.tonce = 7;
    let mut failing = 0u128;
    while digest_tail(failing) % 7 == 0 {
        failing += 1;
    }
    assert!(!challenge.validate_timestamp(failing, 1_030_000));
    assert_eq!(challenge.tonce, 7);
    assert!(challenge.validate_timestamp(failing, 1_060_000));
    assert_eq!(challenge.tonce, 1);
    assert!(challenge.validate_timestamp(failing, 1_030_000));
}

#[test]
fn within_window_accepts_exactly_divisible_candidates() {
    let mut challenge = TonceChallenge::new(1_000_000);
    let tonce = challenge.tonce as u32;
    for c in 5000u128..5050 {
        let expected = digest_tail(c) % tonce == 0;
        assert_eq!(challenge.validate_timestamp(c, 1_010_000), expected);
    }
}

#[test]
fn test_seconds_remaining() {
    let prev_timestamp = 1000000;
    let challenge = TonceChallenge::new(prev_timestamp);

    let current_time = prev_timestamp + 30_000;
    let remaining = challenge.seconds_remaining(current_time);
    assert_eq!(remaining, 30);

    let current_time_after = prev_timestamp + 70_000;
    let remaining_after = challenge.seconds_remaining(current_time_after);
    assert_eq!(remaining_after, 0);
}

#[test]
fn test_find_valid_timestamp() {
    let result = find_valid_timestamp(1, 1000000, 100);
    assert!(result.is_some());

    let result = find_valid_timestamp(5, 1000000, 1000);
    assert!(result.is_some());

    if let Some(ts) = result {
        let timestamp_bytes = u128_bytes(&ts);
        let hash = crypto_hash::digest(crypto_hash::Algorithm::SHA256, &timestamp_bytes);
        let hash_value = u32::from_be_bytes([hash[28], hash[29], hash[30], hash[31]]);
        assert_eq!(hash_value % 5, 0);
    }
}

#[test]
fn find_valid_timestamp_returns_first_match_or_none() {
    assert_eq!(find_valid_timestamp(0, 42, 0), Some(42));
    assert_eq!(find_valid_timestamp(1, 42, 0), Some(42));
    assert_eq!(find_valid_timestamp(9, 42, 0), None);
    let found = find_valid_timestamp(9, 1000, 5000).unwrap();
    for c in 1000..found {
        assert_ne!(digest_tail(c) % 9, 0);
    }
    assert_eq!(digest_tail(found) % 9, 0);
}

#[test]
fn test_is_timestamp_divisible() {
    let prev_timestamp = 1000000;
    let challenge = TonceChallenge::new(prev_timestamp);

    if let Some(valid_ts) = find_valid_timestamp(challenge.tonce, 1000000, 10000) {
        assert!(challenge.is_timestamp_divisible(valid_ts));
    }
}

#[test]
fn test_different_timestamps_different_tonces() {
    let mut different_found = false;
    for i in 0..10 {
        let c1 = TonceChallenge::new(1000000 + i * 1000);
        let c2 = TonceChallenge::new(2000000 + i * 1000);
        if c1.tonce != c2.tonce {
            different_found = true;
            break;
        }
    }
    assert!(different_found);
}

#[test]
fn example_expiry_collapses_tonce() {
    let mut challenge = TonceChallenge::new(1_000_000);
    let first = challenge.tonce;
    assert_eq!(TonceChallenge::new(1_000_000).tonce, first);
    assert!(challenge.validate_timestamp(987_654_321, 1_061_000));
    assert_eq!(challenge.get_tonce(), 1);
}
