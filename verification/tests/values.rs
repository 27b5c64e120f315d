//! Tests of numeral and duration parsing.

use optengine::flags::{OPT_INT, OPT_INT64};
use optengine::numparse::{check_float_literal, parse_number, NumErrKind};
use optengine::timeparse::parse_time;

#[test]
fn integer_round_trip() {
    assert_eq!(parse_number("t", "42", OPT_INT64, i64::MIN, i64::MAX).unwrap(), 42);
    assert_eq!(parse_number("t", "-42", OPT_INT64, i64::MIN, i64::MAX).unwrap(), -42);
    assert_eq!(parse_number("t", "+7", OPT_INT, i64::MIN, i64::MAX).unwrap(), 7);
    assert_eq!(parse_number("t", "42.000", OPT_INT64, i64::MIN, i64::MAX).unwrap(), 42);
    assert_eq!(parse_number("t", "0", OPT_INT64, i64::MIN, i64::MAX).unwrap(), 0);
    assert_eq!(
        parse_number("t", "-9223372036854775808", OPT_INT64, i64::MIN, i64::MAX).unwrap(),
        i64::MIN
    );
}

#[test]
fn integer_fraction_rejected() {
    let e = parse_number("t", "42.5", OPT_INT64, i64::MIN, i64::MAX).unwrap_err();
    assert_eq!(e.kind, NumErrKind::NotExact);
    assert_eq!(e.context, "t");
    assert_eq!(e.literal, "42.5");
}

#[test]
fn integer_not_a_number() {
    let e = parse_number("t", "abc", OPT_INT64, i64::MIN, i64::MAX).unwrap_err();
    assert_eq!(e.kind, NumErrKind::NotNumber);
    let e = parse_number("t", "", OPT_INT64, i64::MIN, i64::MAX).unwrap_err();
    assert_eq!(e.kind, NumErrKind::NotNumber);
    let e = parse_number("t", "1.2.3", OPT_INT64, i64::MIN, i64::MAX).unwrap_err();
    assert_eq!(e.kind, NumErrKind::NotNumber);
}

#[test]
fn integer_range_checks() {
    let e = parse_number("t", "11", OPT_INT64, 0, 10).unwrap_err();
    assert_eq!(e.kind, NumErrKind::OutOfRange);
    let e = parse_number("t", "-1", OPT_INT64, 0, 10).unwrap_err();
    assert_eq!(e.kind, NumErrKind::OutOfRange);
    // 10.5 exceeds an upper bound of 10 even though its floor does not
    let e = parse_number("t", "10.5", OPT_INT64, 0, 10).unwrap_err();
    assert_eq!(e.kind, NumErrKind::OutOfRange);
    assert_eq!(parse_number("t", "10", OPT_INT64, 0, 10).unwrap(), 10);
    // 2^63 overflows the signed 64-bit range
    let e = parse_number("t", "9223372036854775808", OPT_INT64, i64::MIN, i64::MAX).unwrap_err();
    assert_eq!(e.kind, NumErrKind::OutOfRange);
}

#[test]
fn integer_exact_significand() {
    // 2^53 is exactly representable, 2^53 + 1 is not
    assert_eq!(
        parse_number("t", "9007199254740992", OPT_INT64, i64::MIN, i64::MAX).unwrap(),
        9007199254740992
    );
    let e = parse_number("t", "9007199254740993", OPT_INT64, i64::MIN, i64::MAX).unwrap_err();
    assert_eq!(e.kind, NumErrKind::NotExact);
    // large powers of two stay exact
    assert_eq!(
        parse_number("t", "18014398509481984", OPT_INT64, i64::MIN, i64::MAX).unwrap(),
        18014398509481984
    );
}

#[test]
fn float_literal_checks() {
    assert!(check_float_literal("q", "2.5", 309).is_ok());
    assert!(check_float_literal("q", "-0.125", 309).is_ok());
    let e = check_float_literal("q", "fast", 309).unwrap_err();
    assert_eq!(e.kind, NumErrKind::NotNumber);
    // 40 significant integer digits exceed a cap of 39
    let e = check_float_literal("q", "1000000000000000000000000000000000000000", 39).unwrap_err();
    assert_eq!(e.kind, NumErrKind::OutOfRange);
    // leading zeros are not significant
    assert!(check_float_literal("q", "000001", 6).is_ok());
}

#[test]
fn duration_plain_seconds() {
    assert_eq!(parse_time("t", "10").unwrap(), 10_000_000);
    assert_eq!(parse_time("t", "0").unwrap(), 0);
    assert_eq!(parse_time("t", "1.5").unwrap(), 1_500_000);
    assert_eq!(parse_time("t", "1.5s").unwrap(), 1_500_000);
    assert_eq!(parse_time("t", "1.5ms").unwrap(), 1_500);
    assert_eq!(parse_time("t", "1500us").unwrap(), 1_500);
    // fractions beyond the unit's grid truncate
    assert_eq!(parse_time("t", "0.1234567").unwrap(), 123_456);
}

#[test]
fn duration_clock_forms() {
    assert_eq!(parse_time("t", "1:02").unwrap(), 62_000_000);
    assert_eq!(parse_time("t", "1:02:03").unwrap(), 3_723_000_000);
    assert_eq!(parse_time("t", "1:02:03.5").unwrap(), 3_723_500_000);
    assert_eq!(parse_time("t", "90:30").unwrap(), 5_430_000_000);
}

#[test]
fn duration_rejections() {
    for bad in ["", "-5", "abc", "1:", "1:99", "1:02:99", "5x", "1.", "1:02:03.", "10ss"] {
        let e = parse_time("t", bad).unwrap_err();
        assert_eq!(e.context, "t");
        assert_eq!(e.literal, bad);
    }
}

#[test]
fn duration_overflow() {
    assert!(parse_time("t", "99999999999999999999").is_err());
}
