use timeline_video::fixed::{saturate_wide, Fixed};
use timeline_video::text::{
    append_fixed, append_index, append_signed, append_unsigned, fixed_to_string, magnitude,
};

fn text_of(micros: i64) -> String {
    fixed_to_string(Fixed::from_micros(micros))
}

#[test]
fn whole_values_have_no_point() {
    assert_eq!(text_of(0), "0");
    assert_eq!(text_of(1_000_000), "1");
    assert_eq!(text_of(2_000_000), "2");
    assert_eq!(text_of(7_000_000), "7");
    assert_eq!(text_of(120_000_000), "120");
    assert_eq!(text_of(-3_000_000), "-3");
}

#[test]
fn fractions_end_at_their_last_digit() {
    assert_eq!(text_of(2_500_000), "2.5");
    assert_eq!(text_of(500_000), "0.5");
    assert_eq!(text_of(330_000), "0.33");
    assert_eq!(text_of(70_000), "0.07");
    assert_eq!(text_of(1), "0.000001");
    assert_eq!(text_of(10), "0.00001");
    assert_eq!(text_of(1_000_001), "1.000001");
    assert_eq!(text_of(1_234_567), "1.234567");
    assert_eq!(text_of(100_100), "0.1001");
    assert_eq!(text_of(-500_000), "-0.5");
    assert_eq!(text_of(-1), "-0.000001");
}

#[test]
fn extremes_are_written_in_full() {
    assert_eq!(text_of(i64::MAX), "9223372036854.775807");
    assert_eq!(text_of(i64::MIN), "-9223372036854.775808");
}

#[test]
fn text_agrees_with_the_shortest_float_text() {
    for micros in [0i64, 1_000_000, 2_500_000, 330_000, 70_000, 12_345_600, -4_250_000, 10_000] {
        let as_float = micros as f64 / 1e6;
        assert_eq!(text_of(micros), format!("{}", as_float));
    }
}

#[test]
fn percentages_are_exact_hundredths() {
    for percent in [0i32, 1, 7, 33, 50, 99, 100, 150, -20] {
        let gain = Fixed::from_percent(percent);
        assert_eq!(gain.micros, percent as i64 * 10_000);
        assert_eq!(fixed_to_string(gain), format!("{}", percent as f64 / 100.0));
    }
}

#[test]
fn appending_keeps_what_was_there() {
    let mut s = String::from("x=");
    append_fixed(&mut s, Fixed::from_micros(1_500_000));
    assert_eq!(s, "x=1.5");
    append_signed(&mut s, -42);
    assert_eq!(s, "x=1.5-42");
    append_index(&mut s, 907);
    assert_eq!(s, "x=1.5-42907");
    append_unsigned(&mut s, 0);
    assert_eq!(s, "x=1.5-429070");
}

#[test]
fn unsigned_digits() {
    let mut s = String::new();
    append_unsigned(&mut s, u128::MAX);
    assert_eq!(s, "340282366920938463463374607431768211455");
    let mut t = String::new();
    append_unsigned(&mut t, 10);
    assert_eq!(t, "10");
    let mut u = String::new();
    append_signed(&mut u, i64::MIN);
    assert_eq!(u, "-9223372036854775808");
}

#[test]
fn magnitudes() {
    assert_eq!(magnitude(-5), 5);
    assert_eq!(magnitude(5), 5);
    assert_eq!(magnitude(i64::MIN), 9_223_372_036_854_775_808);
}

#[test]
fn fixed_arithmetic() {
    let a = Fixed::from_micros(2_000_000);
    let b = Fixed::from_micros(5_000_000);
    assert_eq!(a.saturating_add(b).micros, 7_000_000);
    assert_eq!(Fixed::from_micros(i64::MAX).saturating_add(a).micros, i64::MAX);
    assert_eq!(Fixed::from_micros(i64::MIN).saturating_add(Fixed::from_micros(-1)).micros, i64::MIN);
    assert_eq!(Fixed::zero().micros, 0);
    assert_eq!(Fixed::zero(), Fixed::from_micros(0));
    assert_eq!(saturate_wide(i128::MAX), i64::MAX);
    assert_eq!(saturate_wide(i128::MIN), i64::MIN);
    assert_eq!(saturate_wide(-7), -7);
}

#[test]
fn whole_millis_round_toward_zero() {
    assert_eq!(Fixed::from_micros(1_500_000).whole_millis(), 1500);
    assert_eq!(Fixed::from_micros(1_999).whole_millis(), 1);
    assert_eq!(Fixed::from_micros(999).whole_millis(), 0);
    assert_eq!(Fixed::from_micros(-999).whole_millis(), 0);
    assert_eq!(Fixed::from_micros(-1_999).whole_millis(), -1);
    assert_eq!(Fixed::from_micros(-2_000).whole_millis(), -2);
    for x in [0.0f64, 0.25, 1.5, 12.3456, -0.75] {
        let micros = (x * 1e6).round() as i64;
        assert_eq!(Fixed::from_micros(micros).whole_millis(), (x * 1000.0) as i64);
    }
}
