use acme_types::text::{format_i32, parse_i32, str_eq};

#[test]
fn format_i32_writes_decimal_notation() {
    assert_eq!(format_i32(0), "0");
    assert_eq!(format_i32(7), "7");
    assert_eq!(format_i32(10), "10");
    assert_eq!(format_i32(1000), "1000");
    assert_eq!(format_i32(-1), "-1");
    assert_eq!(format_i32(-120), "-120");
    assert_eq!(format_i32(i32::MAX), "2147483647");
    assert_eq!(format_i32(i32::MIN), "-2147483648");
}

#[test]
fn format_i32_agrees_with_std() {
    for n in [0, 1, 9, 10, 11, 99, 100, 101, 12345, -1, -9, -10, -99999, i32::MAX, i32::MIN] {
        assert_eq!(format_i32(n), n.to_string());
    }
}

#[test]
fn parse_i32_reads_digits_with_an_optional_sign() {
    assert_eq!(parse_i32("7"), Some(7));
    assert_eq!(parse_i32("+7"), Some(7));
    assert_eq!(parse_i32("-7"), Some(-7));
    assert_eq!(parse_i32("007"), Some(7));
    assert_eq!(parse_i32("0"), Some(0));
    assert_eq!(parse_i32("-0"), Some(0));
    assert_eq!(parse_i32("1234567890"), Some(1234567890));
}

#[test]
fn parse_i32_rejects_what_is_no_integer() {
    assert_eq!(parse_i32(""), None);
    assert_eq!(parse_i32("-"), None);
    assert_eq!(parse_i32("+"), None);
    assert_eq!(parse_i32("7a"), None);
    assert_eq!(parse_i32("a7"), None);
    assert_eq!(parse_i32(" 7"), None);
    assert_eq!(parse_i32("7 "), None);
    assert_eq!(parse_i32("1_0"), None);
    assert_eq!(parse_i32("--7"), None);
    assert_eq!(parse_i32("+-7"), None);
    assert_eq!(parse_i32("7.0"), None);
    assert_eq!(parse_i32("\u{ff17}"), None);
    assert_eq!(parse_i32("7\u{e9}"), None);
}

#[test]
fn parse_i32_keeps_to_the_range() {
    assert_eq!(parse_i32("2147483647"), Some(i32::MAX));
    assert_eq!(parse_i32("2147483648"), None);
    assert_eq!(parse_i32("-2147483648"), Some(i32::MIN));
    assert_eq!(parse_i32("-2147483649"), None);
    assert_eq!(parse_i32("00000000002147483647"), Some(i32::MAX));
    assert_eq!(parse_i32("99999999999999999999999999999999"), None);
    assert_eq!(parse_i32("-99999999999999999999999999999999"), None);
    assert_eq!(parse_i32("21474836470"), None);
}

#[test]
fn parse_i32_agrees_with_std() {
    for s in [
        "", "0", "-0", "+0", "12", "-12", "+12", "0012", "2147483647", "2147483648",
        "-2147483648", "-2147483649", "4294967296", "x", "1x", "-", "+", " 1", "1 ", "\u{661}",
    ] {
        assert_eq!(parse_i32(s), s.parse::<i32>().ok(), "on {:?}", s);
    }
}

#[test]
fn parse_i32_undoes_format_i32() {
    for n in [0, 1, -1, 7, 10, -10, 65535, -65536, i32::MAX, i32::MIN] {
        assert_eq!(parse_i32(&format_i32(n)), Some(n));
    }
}

#[test]
fn str_eq_compares_characters() {
    assert!(str_eq("", ""));
    assert!(str_eq("valid", "valid"));
    assert!(!str_eq("valid", "Valid"));
    assert!(!str_eq("valid", "valid "));
    assert!(!str_eq("valid", "vali"));
    assert!(!str_eq("", "a"));
    assert!(str_eq("h\u{e9}llo", "h\u{e9}llo"));
    assert!(!str_eq("h\u{e9}llo", "h\u{e8}llo"));
}
