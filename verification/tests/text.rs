use cdn::clock::narrow_millis;
use cdn::text::decimal_text;
use cdn::text::is_blank;
use cdn::text::same_text;

#[test]
fn numbers_are_written_in_decimal() {
    assert_eq!(decimal_text(0), "0");
    assert_eq!(decimal_text(9), "9");
    assert_eq!(decimal_text(10), "10");
    assert_eq!(decimal_text(1_700_000_000), "1700000000");
    assert_eq!(decimal_text(u64::MAX), "18446744073709551615");
}

#[test]
fn texts_are_compared_character_by_character() {
    assert!(same_text("", ""));
    assert!(same_text("file", "file"));
    assert!(!same_text("file", "fil"));
    assert!(!same_text("file", "filE"));
    assert!(same_text("é✓", "é✓"));
    assert!(!same_text("é", "e"));
}

#[test]
fn millis_keep_their_low_64_bits() {
    assert_eq!(narrow_millis(0), 0);
    assert_eq!(narrow_millis(1_700_000_000_000), 1_700_000_000_000);
    assert_eq!(narrow_millis(u64::MAX as u128), u64::MAX);
    assert_eq!(narrow_millis(u64::MAX as u128 + 1), 0);
    assert_eq!(narrow_millis(u128::MAX), u64::MAX);
}

#[test]
fn service_is_named_cdn() {
    assert_eq!(cdn::SERVICE, "cdn");
    assert_eq!(cdn::environment::DEFAULT_FILE_TIMEOUT_HOURS, 3);
    assert_eq!(cdn::environment::DEFAULT_SIGNATURE_EXPIRY_SECONDS, 3600);
    assert_eq!(cdn::environment::DEFAULT_CLAMAV_HOST, "127.0.0.1");
    assert_eq!(cdn::environment::DEFAULT_CLAMAV_PORT, 3310);
    assert_eq!(cdn::environment::DEFAULT_BIND_ADDRESS, "127.0.0.1:8080");
}

#[test]
fn clock_before_the_epoch_reads_as_the_epoch() {
    assert_eq!(cdn::clock::or_epoch(None), 0);
    assert_eq!(cdn::clock::or_epoch(Some(0)), 0);
    assert_eq!(cdn::clock::or_epoch(Some(1_700_000_000)), 1_700_000_000);
    assert_eq!(cdn::clock::or_epoch(Some(u64::MAX)), u64::MAX);
}

#[test]
fn text_of_white_space_is_blank() {
    assert!(is_blank(""));
    assert!(is_blank(" "));
    assert!(is_blank(" \t\r\n\u{b}\u{c}"));
    assert!(is_blank("\u{85}\u{a0}\u{1680}\u{2000}\u{2005}\u{200a}"));
    assert!(is_blank("\u{2028}\u{2029}\u{202f}\u{205f}\u{3000}"));
}

#[test]
fn text_with_anything_else_is_not_blank() {
    assert!(!is_blank("a"));
    assert!(!is_blank("  a  "));
    assert!(!is_blank(" \u{200b} "));
    assert!(!is_blank("\u{feff}"));
    assert!(!is_blank("\u{180e}"));
    assert!(!is_blank("\u{1c}"));
    assert!(!is_blank("\u{8}"));
    assert!(!is_blank("\u{e}"));
    assert!(!is_blank("\u{200b}"));
    assert!(!is_blank("\u{2060}"));
    assert!(!is_blank("\0"));
}
