use ripple_core::text::parse_u32;
use ripple_core::text::str_eq;
use ripple_core::text::zeros;

#[test]
fn str_eq_compares_by_content() {
    assert!(str_eq("", ""));
    assert!(str_eq("adsAll", "adsAll"));
    assert!(!str_eq("adsAll", "adsall"));
    assert!(!str_eq("ads", "adsAll"));
    assert!(!str_eq("adsAll", "ads"));
    assert!(str_eq("h\u{e9}llo \u{1f600}", "h\u{e9}llo \u{1f600}"));
    assert!(!str_eq("h\u{e9}llo", "hello"));
}

#[test]
fn zeros_has_the_length_asked() {
    assert_eq!(zeros(0), "");
    assert_eq!(zeros(1), "0");
    assert_eq!(zeros(7), "0000000");
    assert_eq!(zeros(36), "0".repeat(36));
}

#[test]
fn parse_u32_reads_decimal_numbers() {
    assert_eq!(parse_u32("0"), Some(0));
    assert_eq!(parse_u32("1"), Some(1));
    assert_eq!(parse_u32("+1"), Some(1));
    assert_eq!(parse_u32("0001"), Some(1));
    assert_eq!(parse_u32("4294967295"), Some(4294967295));
    assert_eq!(parse_u32("+4294967295"), Some(4294967295));
}

#[test]
fn parse_u32_refuses_everything_else() {
    assert_eq!(parse_u32(""), None);
    assert_eq!(parse_u32("+"), None);
    assert_eq!(parse_u32("-"), None);
    assert_eq!(parse_u32("-1"), None);
    assert_eq!(parse_u32("++1"), None);
    assert_eq!(parse_u32("1+"), None);
    assert_eq!(parse_u32("1a"), None);
    assert_eq!(parse_u32(" 1"), None);
    assert_eq!(parse_u32("1 "), None);
    assert_eq!(parse_u32("1_000"), None);
    assert_eq!(parse_u32("true"), None);
    assert_eq!(parse_u32("4294967296"), None);
    assert_eq!(parse_u32("42949672950"), None);
    assert_eq!(parse_u32("99999999999999999999999"), None);
    assert_eq!(parse_u32("\u{ff11}"), None);
    assert_eq!(parse_u32("1\u{e9}"), None);
}

#[test]
fn parse_u32_agrees_with_std() {
    let samples = [
        "", "+", "-", "0", "+0", "-0", "7", "07", "+07", "12", "1 2", "12a", "a12", "4294967294",
        "4294967295", "4294967296", "5000000000", "00000000000000000001", "+-1", "\u{661}",
    ];
    for s in samples {
        assert_eq!(parse_u32(s), s.parse::<u32>().ok(), "on {:?}", s);
    }
}
