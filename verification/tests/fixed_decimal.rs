use mod_prometheus::decimal::{fixed_to_string, parse_fixed, parse_i64, parse_u64};
use mod_prometheus::fixed::{Fixed, SCALE};

fn fx(micros: i64) -> Fixed {
    Fixed::from_micros(micros)
}

#[test]
fn format_whole_values() {
    assert_eq!(fixed_to_string(fx(0)), "0");
    assert_eq!(fixed_to_string(fx(SCALE)), "1");
    assert_eq!(fixed_to_string(fx(5 * SCALE)), "5");
    assert_eq!(fixed_to_string(fx(1234 * SCALE)), "1234");
}

#[test]
fn format_fractional_values() {
    assert_eq!(fixed_to_string(fx(3_500_000)), "3.5");
    assert_eq!(fixed_to_string(fx(4_500_000)), "4.5");
    assert_eq!(fixed_to_string(fx(400_000)), "0.4");
    assert_eq!(fixed_to_string(fx(123_456)), "0.123456");
    assert_eq!(fixed_to_string(fx(100_000)), "0.1");
    assert_eq!(fixed_to_string(fx(1)), "0.000001");
    assert_eq!(fixed_to_string(fx(10_250_000)), "10.25");
}

#[test]
fn format_negative_values() {
    assert_eq!(fixed_to_string(fx(-2_250_000)), "-2.25");
    assert_eq!(fixed_to_string(fx(-SCALE)), "-1");
    assert_eq!(fixed_to_string(fx(i64::MIN)), "-9223372036854.775808");
    assert_eq!(fixed_to_string(fx(i64::MAX)), "9223372036854.775807");
}

#[test]
fn parse_plain_decimals() {
    assert_eq!(parse_fixed("3.5").map(|f| f.micros()), Some(3_500_000));
    assert_eq!(parse_fixed("1").map(|f| f.micros()), Some(SCALE));
    assert_eq!(parse_fixed("0").map(|f| f.micros()), Some(0));
    assert_eq!(parse_fixed("0.4").map(|f| f.micros()), Some(400_000));
    assert_eq!(parse_fixed(".5").map(|f| f.micros()), Some(500_000));
    assert_eq!(parse_fixed("5.").map(|f| f.micros()), Some(5 * SCALE));
}

#[test]
fn parse_signed_decimals() {
    assert_eq!(parse_fixed("+2").map(|f| f.micros()), Some(2 * SCALE));
    assert_eq!(parse_fixed("-2.25").map(|f| f.micros()), Some(-2_250_000));
    assert_eq!(parse_fixed("-0").map(|f| f.micros()), Some(0));
}

#[test]
fn parse_truncates_extra_fraction_digits() {
    assert_eq!(parse_fixed("0.1234567").map(|f| f.micros()), Some(123_456));
    assert_eq!(parse_fixed("0.0000001").map(|f| f.micros()), Some(0));
}

#[test]
fn parse_rejects_malformed_input() {
    assert!(parse_fixed("").is_none());
    assert!(parse_fixed("abc").is_none());
    assert!(parse_fixed(".").is_none());
    assert!(parse_fixed("+").is_none());
    assert!(parse_fixed("-").is_none());
    assert!(parse_fixed("1.2.3").is_none());
    assert!(parse_fixed("1 2").is_none());
    assert!(parse_fixed("1e3").is_none());
    assert!(parse_fixed("--1").is_none());
}

#[test]
fn parse_rejects_out_of_range_values() {
    assert!(parse_fixed("99999999999999999999").is_none());
    assert!(parse_fixed("9223372036854775807").is_none());
    assert_eq!(
        parse_fixed("9223372036854.775807").map(|f| f.micros()),
        Some(i64::MAX)
    );
    assert_eq!(
        parse_fixed("-9223372036854.775807").map(|f| f.micros()),
        Some(-i64::MAX)
    );
}

#[test]
fn parse_integer_headers() {
    assert_eq!(parse_i64("0"), Some(0));
    assert_eq!(parse_i64("-17"), Some(-17));
    assert_eq!(parse_i64("+17"), Some(17));
    assert_eq!(parse_i64("9223372036854775807"), Some(i64::MAX));
    assert_eq!(parse_i64("-9223372036854775808"), Some(i64::MIN));
    assert_eq!(parse_i64("9223372036854775808"), None);
    assert_eq!(parse_i64(""), None);
    assert_eq!(parse_i64("12a"), None);
    assert_eq!(parse_i64("1.0"), None);

    assert_eq!(parse_u64("30"), Some(30));
    assert_eq!(parse_u64("+30"), Some(30));
    assert_eq!(parse_u64("-30"), None);
    assert_eq!(parse_u64("18446744073709551615"), Some(u64::MAX));
    assert_eq!(parse_u64("18446744073709551616"), None);
    assert_eq!(parse_u64("abc"), None);
}

#[test]
fn arithmetic_clamps_at_the_range_edge() {
    let near_max = fx(i64::MAX - 1);
    assert_eq!(near_max.add_clamped(fx(5)).micros(), i64::MAX);
    let near_min = fx(i64::MIN + 1);
    assert_eq!(near_min.sub_clamped(fx(5)).micros(), i64::MIN);
    assert_eq!(fx(10).add_clamped(fx(-4)).micros(), 6);
}

#[test]
fn format_then_parse_returns_the_value() {
    for m in [
        0i64,
        1,
        -1,
        999_999,
        SCALE,
        3_500_000,
        -2_250_000,
        123_456_789_012_345,
        i64::MAX,
        -i64::MAX,
    ] {
        let s = fixed_to_string(fx(m));
        assert_eq!(parse_fixed(&s).map(|f| f.micros()), Some(m), "through {}", s);
    }
    // the far end of the range has no representable negation, so its
    // rendering does not read back
    assert!(parse_fixed(&fixed_to_string(fx(i64::MIN))).is_none());
}
