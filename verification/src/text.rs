//! Decimal text of integers and of fixed-point values, as it is written into
//! filter graphs and argument lists.

use vstd::prelude::*;
use crate::fixed::Fixed;

verus! {

/// `String::push` of the standard library appends one character to the end
/// of the string and changes nothing else.
pub assume_specification[ String::push ](s: &mut String, c: char)
    ensures
        final(s)@ == old(s)@.push(c),
;

/// The character that writes the digit `d`.
pub open spec fn digit_char(d: int) -> char
    recommends
        0 <= d < 10,
{
    if d == 0 {
        '0'
    } else if d == 1 {
        '1'
    } else if d == 2 {
        '2'
    } else if d == 3 {
        '3'
    } else if d == 4 {
        '4'
    } else if d == 5 {
        '5'
    } else if d == 6 {
        '6'
    } else if d == 7 {
        '7'
    } else if d == 8 {
        '8'
    } else {
        '9'
    }
}

/// The decimal digits of `n`, most significant first, without leading zeros.
pub open spec fn decimal_digits(n: nat) -> Seq<char>
    decreases n,
{
    if n < 10 {
        seq![digit_char(n as int)]
    } else {
        decimal_digits(n / 10).push(digit_char((n % 10) as int))
    }
}

/// The decimal text of an integer: a minus sign for a negative one, then the
/// digits of its magnitude.
pub open spec fn signed_digits(x: int) -> Seq<char> {
    if x < 0 {
        seq!['-'] + decimal_digits((-x) as nat)
    } else {
        decimal_digits(x as nat)
    }
}

/// The digits of the fraction `rem / (10 * scale)`, most significant first,
/// ending at its last digit that is not zero.
pub open spec fn fraction_digits(rem: nat, scale: nat) -> Seq<char>
    decreases scale,
{
    if rem == 0 || scale == 0 {
        Seq::<char>::empty()
    } else {
        seq![digit_char((rem / scale) as int)] + fraction_digits(rem % scale, scale / 10)
    }
}

/// The magnitude of an integer.
pub open spec fn magnitude_of(x: int) -> nat {
    if x < 0 {
        (-x) as nat
    } else {
        x as nat
    }
}

/// The shortest decimal text of a value of `micros` millionths: an optional
/// minus sign, the whole part, and, where the fraction is not zero, a point
/// and the fraction's digits up to the last one that is not zero.
pub open spec fn fixed_text(micros: int) -> Seq<char> {
    let sign = if micros < 0 { seq!['-'] } else { Seq::<char>::empty() };
    let whole = decimal_digits(magnitude_of(micros) / 1_000_000);
    let frac = magnitude_of(micros) % 1_000_000;
    if frac == 0 {
        sign + whole
    } else {
        sign + whole + seq!['.'] + fraction_digits(frac, 100_000)
    }
}

/// Whether `scale` is one of the six place values of a fraction in millionths.
pub open spec fn is_place_value(scale: nat) -> bool {
    scale == 1 || scale == 10 || scale == 100 || scale == 1_000 || scale == 10_000 || scale
        == 100_000
}

/// The character of a single digit.
fn digit(d: u8) -> (c: char)
    requires
        d < 10,
    ensures
        c == digit_char(d as int),
{
    if d == 0 {
        '0'
    } else if d == 1 {
        '1'
    } else if d == 2 {
        '2'
    } else if d == 3 {
        '3'
    } else if d == 4 {
        '4'
    } else if d == 5 {
        '5'
    } else if d == 6 {
        '6'
    } else if d == 7 {
        '7'
    } else if d == 8 {
        '8'
    } else {
        '9'
    }
}

/// The magnitude of a 64-bit integer.
pub fn magnitude(x: i64) -> (m: u64)
    ensures
        m as nat == magnitude_of(x as int),
{
    if x >= 0 {
        x as u64
    } else if x == i64::MIN {
        9_223_372_036_854_775_808u64
    } else {
        (-x) as u64
    }
}

/// Appends the decimal digits of `n`.
pub fn append_unsigned(out: &mut String, n: u128)
    ensures
        final(out)@ == old(out)@ + decimal_digits(n as nat),
    decreases n,
{
    if n >= 10 {
        append_unsigned(out, n / 10);
    }
    out.push(digit((n % 10) as u8));
}

/// Appends the decimal digits of an index or a count.
pub fn append_index(out: &mut String, n: usize)
    ensures
        final(out)@ == old(out)@ + decimal_digits(n as nat),
{
    append_unsigned(out, n as u128);
}

/// Appends the decimal text of a signed integer.
pub fn append_signed(out: &mut String, x: i64)
    ensures
        final(out)@ == old(out)@ + signed_digits(x as int),
{
    if x < 0 {
        out.push('-');
        append_unsigned(out, magnitude(x) as u128);
    } else {
        append_unsigned(out, x as u128);
    }
}

/// Appends the digits of a fraction, down from the place value `scale`.
fn append_fraction(out: &mut String, rem: u64, scale: u64)
    requires
        is_place_value(scale as nat),
        rem < 10 * scale,
    ensures
        final(out)@ == old(out)@ + fraction_digits(rem as nat, scale as nat),
    decreases scale,
{
    if rem != 0 {
        let d: u64 = rem / scale;
        let next: u64 = rem % scale;
        out.push(digit(d as u8));
        if scale >= 10 {
            append_fraction(out, next, scale / 10);
        }
        assert(old(out)@.push(digit_char(d as int)) + fraction_digits(
            next as nat,
            (scale / 10) as nat,
        ) =~= old(out)@ + (seq![digit_char(d as int)] + fraction_digits(
            next as nat,
            (scale / 10) as nat,
        )));
    }
}

/// Appends the shortest decimal text of a fixed-point value.
pub fn append_fixed(out: &mut String, x: Fixed)
    ensures
        final(out)@ == old(out)@ + fixed_text(x@),
{
    let m: u64 = magnitude(x.micros);
    let whole: u64 = m / 1_000_000;
    let frac: u64 = m % 1_000_000;
    if x.micros < 0 {
        out.push('-');
    }
    append_unsigned(out, whole as u128);
    if frac != 0 {
        out.push('.');
        append_fraction(out, frac, 100_000);
    }
}

/// The shortest decimal text of a fixed-point value.
pub fn fixed_to_string(x: Fixed) -> (s: String)
    ensures
        s@ == fixed_text(x@),
{
    let mut s = String::new();
    append_fixed(&mut s, x);
    s
}

} // verus!
