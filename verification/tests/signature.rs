use cdn::signature::generate_signature;
use cdn::signature::generate_signature_at;
use cdn::signature::is_fresh;
use cdn::signature::verify_signature;
use cdn::signature::verify_signature_at;

const FILE: &str = "01ARZ3NDEKTSV4RRFFQ69G5FAV";
const KEY: &str = "0123456789abcdefghijklmnopqrstuv";
const SIGNED: &str = "030bd3c048cd9ef61e3d0681a7e8a6bb31e4c2e7cfc37c44cb2ea2e42def6973";

#[test]
fn signature_is_hmac_sha256_in_lower_hex() {
    assert_eq!(generate_signature_at(FILE, KEY, 1_700_000_000), SIGNED);
    assert_eq!(
        generate_signature_at("file", "key", 0),
        "0ef6df8a610ab6e4eeebcb951ec239cef407dc5facbd3b1eb4c2304780faf0e6"
    );
}

#[test]
fn timestamp_is_signed_big_endian_before_utf8_id() {
    assert_eq!(
        generate_signature_at("fïle-✓", "sécret", 0x0102_0304_0506_0708),
        "8915db89f0a1179ca2acb7792dcefb91ceb74eeaa4b86693246f5d0f0625f616"
    );
}

#[test]
fn fresh_signature_verifies() {
    assert!(verify_signature_at(FILE, KEY, SIGNED, 1_700_000_000, 3600, 1_700_000_000));
    assert!(verify_signature_at(FILE, KEY, SIGNED, 1_700_000_000, 0, 1_700_000_000));
    assert!(verify_signature_at(FILE, KEY, SIGNED, 1_700_000_000, 3600, 1_700_003_600));
}

#[test]
fn upper_case_signature_verifies() {
    let upper = SIGNED.to_uppercase();
    assert!(verify_signature_at(FILE, KEY, &upper, 1_700_000_000, 3600, 1_700_000_001));
}

#[test]
fn expired_signature_fails() {
    assert!(!verify_signature_at(FILE, KEY, SIGNED, 1_700_000_000, 3600, 1_700_003_601));
    assert!(!verify_signature_at(FILE, KEY, SIGNED, 1_700_000_000, 0, 1_700_000_001));
}

#[test]
fn signature_from_the_future_fails() {
    assert!(verify_signature_at(FILE, KEY, SIGNED, 1_700_000_000, 3600, 1_699_999_940));
    assert!(!verify_signature_at(FILE, KEY, SIGNED, 1_700_000_000, 3600, 1_699_999_939));
}

#[test]
fn altered_timestamp_fails() {
    assert!(!verify_signature_at(FILE, KEY, SIGNED, 1_700_000_001, 3600, 1_700_000_001));
    assert!(!verify_signature_at(FILE, KEY, SIGNED, 1_699_999_999, 3600, 1_700_000_001));
}

#[test]
fn other_key_fails() {
    let other = "0123456789abcdefghijklmnopqrstuw";
    assert!(!verify_signature_at(FILE, other, SIGNED, 1_700_000_000, 3600, 1_700_000_000));
}

#[test]
fn other_file_fails() {
    assert!(!verify_signature_at("01ARZ3NDEKTSV4RRFFQ69G5FAW", KEY, SIGNED, 1_700_000_000, 3600, 1_700_000_000));
}

#[test]
fn malformed_signature_fails() {
    let now = 1_700_000_000;
    assert!(!verify_signature_at(FILE, KEY, "", now, 3600, now));
    assert!(!verify_signature_at(FILE, KEY, "0", now, 3600, now));
    assert!(!verify_signature_at(FILE, KEY, &SIGNED[..63], now, 3600, now));
    assert!(!verify_signature_at(FILE, KEY, &SIGNED[..62], now, 3600, now));
    assert!(!verify_signature_at(FILE, KEY, "not hexadecimal at all", now, 3600, now));
    assert!(!verify_signature_at(FILE, KEY, &SIGNED.replace('0', "g"), now, 3600, now));
    assert!(!verify_signature_at(FILE, KEY, &format!("{}00", SIGNED), now, 3600, now));
    assert!(!verify_signature_at(FILE, KEY, "é3", now, 3600, now));
}

#[test]
fn freshness_does_not_overflow() {
    assert!(is_fresh(u64::MAX, u64::MAX, u64::MAX));
    assert!(is_fresh(10, u64::MAX, u64::MAX));
    assert!(!is_fresh(u64::MAX, 0, 0));
    assert!(is_fresh(60, 0, 0));
    assert!(!is_fresh(61, 0, 0));
}

#[test]
fn generated_signature_verifies_now() {
    let (signature, timestamp) = generate_signature(FILE, KEY);
    assert_eq!(signature.len(), 64);
    assert_eq!(signature, generate_signature_at(FILE, KEY, timestamp));
    assert!(verify_signature(FILE, KEY, &signature, timestamp, 3600));
    assert!(verify_signature(FILE, KEY, &signature, timestamp, 0) || timestamp != cdn::get_time_millis() / 1000);
    assert!(!verify_signature(FILE, "another key", &signature, timestamp, 3600));
    assert!(!verify_signature(FILE, KEY, &signature, timestamp + 1, 3600));
    assert!(!verify_signature(FILE, KEY, &signature, timestamp - 7200, 3600));
}

#[test]
fn clock_reads_after_2020() {
    assert!(cdn::get_time_millis() > 1_577_836_800_000);
}

#[test]
fn keys_that_differ_in_trailing_zero_bytes_sign_alike() {
    let signature = generate_signature_at(FILE, "a", 7);
    assert_eq!(signature, generate_signature_at(FILE, "a\0", 7));
    assert!(verify_signature_at(FILE, "a\0", &signature, 7, 0, 7));
    assert_ne!(signature, generate_signature_at(FILE, "b", 7));
}

#[test]
fn signature_that_is_valid_at_every_time_is_accepted_now() {
    let at_epoch = generate_signature_at(FILE, KEY, 0);
    assert!(verify_signature(FILE, KEY, &at_epoch, 0, u64::MAX));
    let at_minute = generate_signature_at(FILE, KEY, 60);
    assert!(verify_signature(FILE, KEY, &at_minute, 60, u64::MAX - 60));
    assert!(verify_signature(FILE, KEY, &at_minute, 60, u64::MAX));
}

#[test]
fn signature_that_is_valid_at_no_time_is_refused_now() {
    let at_epoch = generate_signature_at(FILE, KEY, 0);
    assert!(!verify_signature(FILE, "another key", &at_epoch, 0, u64::MAX));
    assert!(!verify_signature(FILE, KEY, &at_epoch, 1, u64::MAX));
    assert!(!verify_signature(FILE, KEY, "", 0, u64::MAX));
    assert!(!verify_signature(FILE, KEY, &at_epoch, 0, 0));
}

#[test]
fn signature_with_its_timestamp_moved_by_a_second_is_refused_now() {
    let (signature, timestamp) = generate_signature(FILE, KEY);
    assert!(verify_signature(FILE, KEY, &signature, timestamp, 3600));
    assert!(!verify_signature(FILE, KEY, &signature, timestamp + 1, 3600));
    assert!(!verify_signature(FILE, KEY, &signature, timestamp - 1, 3600));
}
