use onvif_events::caption::{make_caption, make_duration_caption};
use onvif_events::text::{i64_to_string, str_eq, str_starts_with, u64_to_string};

#[test]
fn unsigned_decimal_rendering() {
    assert_eq!(u64_to_string(0), "0");
    assert_eq!(u64_to_string(7), "7");
    assert_eq!(u64_to_string(10), "10");
    assert_eq!(u64_to_string(90210), "90210");
    assert_eq!(u64_to_string(u64::MAX), "18446744073709551615");
}

#[test]
fn signed_decimal_rendering() {
    assert_eq!(i64_to_string(0), "0");
    assert_eq!(i64_to_string(42), "42");
    assert_eq!(i64_to_string(-1), "-1");
    assert_eq!(i64_to_string(-90210), "-90210");
    assert_eq!(i64_to_string(i64::MIN), "-9223372036854775808");
    assert_eq!(i64_to_string(i64::MAX), "9223372036854775807");
}

#[test]
fn string_equality_is_exact() {
    assert!(str_eq("Rule", "Rule"));
    assert!(!str_eq("Rule", "rule"));
    assert!(!str_eq("Rule", "Rules"));
    assert!(str_eq("", ""));
}

#[test]
fn prefix_test() {
    assert!(str_starts_with("http://a/b", "http://a"));
    assert!(str_starts_with("x", ""));
    assert!(!str_starts_with("http://a", "http://a/b"));
    assert!(!str_starts_with("https://a", "http://a"));
}

#[test]
fn caption_uppercases_title() {
    let caption = make_caption("New Detection", "porch", "2024-01-02 03:04:05");
    assert_eq!(caption, "\nNEW DETECTION\nCamera:porch\nTime: 2024-01-02 03:04:05");
}

#[test]
fn snapshot_caption() {
    let caption = make_caption("Snapshot", "yard", "t0");
    assert_eq!(caption, "\nSNAPSHOT\nCamera:yard\nTime: t0");
}

#[test]
fn duration_caption_carries_seconds() {
    let caption = make_duration_caption("porch", "2024-01-02 03:04:05", 12);
    assert_eq!(caption, "\nporch\nTime: 2024-01-02 03:04:05\nDuration: 12s");
}

#[test]
fn caption_with_empty_title_keeps_the_frame() {
    assert_eq!(make_caption("", "n", "t0"), "\n\nCamera:n\nTime: t0");
}
