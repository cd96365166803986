use timeline_video::decimal::parse_decimal;
use timeline_video::fixed::Fixed;
use timeline_video::time_codec::{field_value, parse_time_to_seconds, split_on};

fn micros(text: &str) -> i64 {
    parse_time_to_seconds(text).micros
}

#[test]
fn clock_time_is_hours_minutes_seconds() {
    assert_eq!(micros("00:03:29.04"), 209_040_000);
    assert_eq!(micros("1:01:01.123"), 3_661_123_000);
    assert_eq!(micros("00:00:00.00"), 0);
    assert_eq!(micros("10:00:00"), 36_000_000_000);
}

#[test]
fn clock_time_matches_the_formula_for_many_values() {
    for h in [0i64, 1, 7, 25, 100] {
        for m in [0i64, 1, 59] {
            for s in [0i64, 5, 59] {
                for frac in [0i64, 1, 40_000, 999_999] {
                    let text = format!("{:02}:{:02}:{:02}.{:06}", h, m, s, frac);
                    let expected = (h * 3600 + m * 60 + s) * 1_000_000 + frac;
                    assert_eq!(micros(&text), expected, "{}", text);
                }
            }
        }
    }
}

#[test]
fn bare_decimal_is_seconds() {
    assert_eq!(micros("5"), 5_000_000);
    assert_eq!(micros("123.45"), 123_450_000);
    assert_eq!(micros("0.123"), 123_000);
    assert_eq!(micros("-2.5"), -2_500_000);
    assert_eq!(micros("+7"), 7_000_000);
    assert_eq!(micros(".5"), 500_000);
    assert_eq!(micros("5."), 5_000_000);
}

#[test]
fn other_shapes_are_zero() {
    assert_eq!(micros("1:00.0"), 0);
    assert_eq!(micros("1:2:3:4"), 0);
    assert_eq!(micros("N/A"), 0);
    assert_eq!(micros(""), 0);
    assert_eq!(micros("abc"), 0);
    assert_eq!(micros("1e3"), 0);
    assert_eq!(micros(" 5"), 0);
    assert_eq!(micros("5 "), 0);
    assert_eq!(micros("."), 0);
    assert_eq!(micros("-"), 0);
    assert_eq!(micros("1.2.3"), 0);
    assert_eq!(micros("５"), 0);
}

#[test]
fn malformed_fields_count_as_zero() {
    assert_eq!(micros("abc:01:02"), 62_000_000);
    assert_eq!(micros("01:xx:02"), 3_602_000_000);
    assert_eq!(micros("01:02:N/A"), 3_720_000_000);
    assert_eq!(micros("::"), 0);
    assert_eq!(micros("::7"), 7_000_000);
}

#[test]
fn each_field_has_its_own_sign() {
    // The encoder is known to report times such as this one before the
    // first frame.
    let expected = -577_014i64 * 3_600_000_000 + 32 * 60_000_000 + 22_770_000;
    assert_eq!(micros("-577014:32:22.77"), expected);
    assert_eq!(micros("-00:00:01.5"), 1_500_000);
}

#[test]
fn fraction_digits_past_the_sixth_are_dropped() {
    assert_eq!(micros("1.1234567"), 1_123_456);
    assert_eq!(micros("0.0000009"), 0);
    assert_eq!(micros("00:00:01.9999999"), 1_999_999);
}

#[test]
fn values_out_of_range_saturate() {
    assert_eq!(micros("99999999999999999999"), i64::MAX);
    assert_eq!(micros("-99999999999999999999"), i64::MIN);
    assert_eq!(micros("9223372036854.775807"), i64::MAX);
    assert_eq!(micros("9223372036854.775806"), i64::MAX - 1);
    assert_eq!(micros("-9223372036854.775808"), i64::MIN);
    assert_eq!(micros("9223372036855"), i64::MAX);
    assert_eq!(micros("9999999999999:00:00"), i64::MAX);
    assert_eq!(micros("-9999999999999:00:00"), i64::MIN);
}

#[test]
fn split_keeps_empty_fields() {
    assert_eq!(split_on(b"a:b", b':'), vec![b"a".to_vec(), b"b".to_vec()]);
    assert_eq!(split_on(b"", b':'), vec![Vec::<u8>::new()]);
    assert_eq!(split_on(b":", b':'), vec![Vec::<u8>::new(), Vec::<u8>::new()]);
    assert_eq!(
        split_on(b"1::2:", b':'),
        vec![b"1".to_vec(), Vec::new(), b"2".to_vec(), Vec::new()]
    );
    assert_eq!(split_on(b"abc", b':'), vec![b"abc".to_vec()]);
}

#[test]
fn decimal_grammar() {
    assert_eq!(parse_decimal(b"0"), Some(Fixed { micros: 0 }));
    assert_eq!(parse_decimal(b"-0"), Some(Fixed { micros: 0 }));
    assert_eq!(parse_decimal(b"007"), Some(Fixed { micros: 7_000_000 }));
    assert_eq!(parse_decimal(b"+3."), Some(Fixed { micros: 3_000_000 }));
    assert_eq!(parse_decimal(b"-.25"), Some(Fixed { micros: -250_000 }));
    assert_eq!(parse_decimal(b"12.000001"), Some(Fixed { micros: 12_000_001 }));
    assert_eq!(parse_decimal(b""), None);
    assert_eq!(parse_decimal(b"+"), None);
    assert_eq!(parse_decimal(b"-."), None);
    assert_eq!(parse_decimal(b"+-1"), None);
    assert_eq!(parse_decimal(b"1-"), None);
    assert_eq!(parse_decimal(b"1,5"), None);
    assert_eq!(parse_decimal(b"inf"), None);
    assert_eq!(parse_decimal(b"NaN"), None);
    assert_eq!(parse_decimal(b"1.5e3"), None);
}

#[test]
fn field_value_is_zero_for_what_is_no_decimal() {
    assert_eq!(field_value(b"29.04").micros, 29_040_000);
    assert_eq!(field_value(b"N/A").micros, 0);
    assert_eq!(field_value(b"").micros, 0);
}
