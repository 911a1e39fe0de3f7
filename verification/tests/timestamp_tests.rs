use pkrs::timestamp::{Timestamp, format_rfc3339, parse_rfc3339, is_valid_timestamp};
use pkrs::decimal::i32_to_decimal;

fn ts(
    year: u16,
    month: u8,
    day: u8,
    hour: u8,
    minute: u8,
    second: u8,
    nanosecond: u32,
) -> Timestamp {
    Timestamp { year, month, day, hour, minute, second, nanosecond }
}

#[test]
fn format_is_strict_rfc3339() {
    let t = ts(2021, 9, 26, 12, 55, 39, 0);
    assert_eq!(format_rfc3339(&t), "2021-09-26T12:55:39.000000000Z");
}

#[test]
fn format_pads_every_field() {
    let t = ts(987, 1, 2, 3, 4, 5, 6);
    assert_eq!(format_rfc3339(&t), "0987-01-02T03:04:05.000000006Z");
}

#[test]
fn parse_accepts_no_fraction() {
    let t = parse_rfc3339("2020-02-29T23:59:59Z").unwrap();
    assert_eq!(t, ts(2020, 2, 29, 23, 59, 59, 0));
}

#[test]
fn parse_scales_short_fractions() {
    let t = parse_rfc3339("2020-01-01T00:00:00.5Z").unwrap();
    assert_eq!(t.nanosecond, 500_000_000);
    let t = parse_rfc3339("2020-01-01T00:00:00.123Z").unwrap();
    assert_eq!(t.nanosecond, 123_000_000);
    let t = parse_rfc3339("2020-01-01T00:00:00.000000001Z").unwrap();
    assert_eq!(t.nanosecond, 1);
}

#[test]
fn parse_rejects_bad_calendar_fields() {
    assert_eq!(parse_rfc3339("2021-13-01T00:00:00Z"), None);
    assert_eq!(parse_rfc3339("2021-00-01T00:00:00Z"), None);
    assert_eq!(parse_rfc3339("2021-02-30T00:00:00Z"), None);
    assert_eq!(parse_rfc3339("2100-02-29T00:00:00Z"), None);
    assert_eq!(parse_rfc3339("2021-01-01T24:00:00Z"), None);
    assert_eq!(parse_rfc3339("2021-01-01T00:60:00Z"), None);
}

#[test]
fn parse_rejects_malformed_text() {
    assert_eq!(parse_rfc3339(""), None);
    assert_eq!(parse_rfc3339("2021-01-01"), None);
    assert_eq!(parse_rfc3339("2021-01-01 00:00:00Z"), None);
    assert_eq!(parse_rfc3339("2021-01-01T00:00:00"), None);
    assert_eq!(parse_rfc3339("2021-01-01T00:00:00.Z"), None);
    assert_eq!(parse_rfc3339("2021-01-01T00:00:00.0000000000Z"), None);
    assert_eq!(parse_rfc3339("yyyy-01-01T00:00:00Z"), None);
}

#[test]
fn leap_years_follow_the_gregorian_rule() {
    assert!(parse_rfc3339("2000-02-29T00:00:00Z").is_some());
    assert!(parse_rfc3339("1900-02-29T00:00:00Z").is_none());
    assert!(parse_rfc3339("2024-02-29T00:00:00Z").is_some());
    assert!(parse_rfc3339("2023-02-29T00:00:00Z").is_none());
}

#[test]
fn parse_inverts_format() {
    let samples = [
        ts(2021, 9, 26, 12, 55, 39, 123_456_789),
        ts(1, 1, 1, 0, 0, 0, 0),
        ts(9999, 12, 31, 23, 59, 59, 999_999_999),
        ts(2020, 2, 29, 6, 30, 0, 1),
    ];
    for t in samples {
        assert!(is_valid_timestamp(&t));
        assert_eq!(parse_rfc3339(format_rfc3339(&t).as_str()), Some(t));
    }
}

#[test]
fn validity_checks_the_calendar() {
    assert!(is_valid_timestamp(&ts(2021, 2, 28, 0, 0, 0, 0)));
    assert!(!is_valid_timestamp(&ts(2021, 2, 29, 0, 0, 0, 0)));
    assert!(!is_valid_timestamp(&ts(2021, 1, 1, 0, 0, 0, 1_000_000_000)));
}

#[test]
fn decimal_text_is_plain() {
    assert_eq!(i32_to_decimal(0), "0");
    assert_eq!(i32_to_decimal(10), "10");
    assert_eq!(i32_to_decimal(7), "7");
    assert_eq!(i32_to_decimal(-5), "-5");
    assert_eq!(i32_to_decimal(2147483647), "2147483647");
    assert_eq!(i32_to_decimal(-2147483648), "-2147483648");
}
