//! Reading decimal text into fixed-point values.
//!
//! A decimal is an optional sign (`+` or `-`), then digits with at most one
//! point among them, and at least one digit: `7`, `-0.25`, `+3.`, `.5`.
//! Digits past the sixth after the point are dropped; a value outside the
//! 64-bit range of millionths saturates.

use vstd::prelude::*;
use vstd::slice::slice_subrange;
use crate::fixed::{saturate, saturate_wide, Fixed};

verus! {

/// The byte of the character `+`.
pub const PLUS: u8 = 43;

/// The byte of the character `-`.
pub const MINUS: u8 = 45;

/// The byte of the character `.`.
pub const POINT: u8 = 46;

/// The byte of the character `0`.
pub const ZERO: u8 = 48;

/// The smallest whole part whose millionths lie outside the 64-bit range.
pub const WHOLE_CAP: u64 = 9_223_372_036_855;

/// Whether `b` is the byte of a decimal digit.
pub open spec fn is_digit(b: u8) -> bool {
    48 <= b <= 57
}

/// The number that a digit byte writes; zero for any other byte.
pub open spec fn digit_value(b: u8) -> nat {
    if is_digit(b) {
        (b - 48) as nat
    } else {
        0
    }
}

/// Whether every byte of `s` is a digit.
pub open spec fn all_digits(s: Seq<u8>) -> bool {
    forall|i: int| 0 <= i < s.len() ==> is_digit(#[trigger] s[i])
}

/// The number written by a run of digits.
pub open spec fn digits_value(s: Seq<u8>) -> nat
    decreases s.len(),
{
    if s.len() == 0 {
        0
    } else {
        digits_value(s.drop_last()) * 10 + digit_value(s.last())
    }
}

/// The weight, in millionths, of the digit at place `i` after the point.
pub open spec fn place_value(i: int) -> nat {
    if i == 0 {
        100_000
    } else if i == 1 {
        10_000
    } else if i == 2 {
        1_000
    } else if i == 3 {
        100
    } else if i == 4 {
        10
    } else if i == 5 {
        1
    } else {
        0
    }
}

/// The millionths written by the digits after a point. Digits past the sixth
/// weigh nothing.
pub open spec fn fraction_micros(s: Seq<u8>) -> nat
    decreases s.len(),
{
    if s.len() == 0 {
        0
    } else {
        fraction_micros(s.drop_last()) + digit_value(s.last()) * place_value(s.len() - 1)
    }
}

/// The length of the run of digits that `s` starts with.
pub open spec fn leading_digits(s: Seq<u8>) -> nat
    decreases s.len(),
{
    if s.len() > 0 && is_digit(s[0]) {
        1 + leading_digits(s.drop_first())
    } else {
        0
    }
}

/// Whether `s` starts with a sign.
pub open spec fn has_sign(s: Seq<u8>) -> bool {
    s.len() > 0 && (s[0] == 43 || s[0] == 45)
}

/// Whether `s` starts with a minus sign.
pub open spec fn is_negative(s: Seq<u8>) -> bool {
    s.len() > 0 && s[0] == 45
}

/// `s` without its sign, if it has one.
pub open spec fn unsigned_part(s: Seq<u8>) -> Seq<u8> {
    if has_sign(s) {
        s.subrange(1, s.len() as int)
    } else {
        s
    }
}

/// Whether `s` is digits with at most one point among them, and at least one
/// digit.
pub open spec fn is_unsigned_decimal(s: Seq<u8>) -> bool {
    let k = leading_digits(s) as int;
    if k == s.len() {
        k > 0
    } else {
        s[k] == 46 && all_digits(s.skip(k + 1)) && (k > 0 || s.len() > 1)
    }
}

/// The millionths that an unsigned decimal writes.
pub open spec fn unsigned_micros(s: Seq<u8>) -> nat {
    let k = leading_digits(s) as int;
    let whole = digits_value(s.take(k));
    if k < s.len() {
        whole * 1_000_000 + fraction_micros(s.skip(k + 1))
    } else {
        whole * 1_000_000
    }
}

/// Whether `s` is a decimal.
pub open spec fn is_decimal(s: Seq<u8>) -> bool {
    is_unsigned_decimal(unsigned_part(s))
}

/// The millionths that a decimal writes, saturated.
pub open spec fn decimal_micros(s: Seq<u8>) -> int {
    if is_negative(s) {
        saturate(-(unsigned_micros(unsigned_part(s)) as int))
    } else {
        saturate(unsigned_micros(unsigned_part(s)) as int)
    }
}

/// A run of digits that ends at `k`, where `s` ends or goes on with another
/// byte, is the run that `s` starts with.
pub proof fn lemma_leading_digits(s: Seq<u8>, k: int)
    requires
        0 <= k <= s.len(),
        all_digits(s.take(k)),
        k == s.len() || !is_digit(s[k]),
    ensures
        leading_digits(s) == k,
    decreases k,
{
    if k > 0 {
        assert(s.take(k)[0] == s[0]);
        let t = s.drop_first();
        assert forall|i: int| 0 <= i < k - 1 implies is_digit(#[trigger] t.take(k - 1)[i]) by {
            assert(t.take(k - 1)[i] == s.take(k)[i + 1]);
        }
        lemma_leading_digits(t, k - 1);
    }
}

/// A run of digits, at least one, is a decimal: the whole number it writes.
pub proof fn lemma_whole_number(digits: Seq<u8>)
    requires
        all_digits(digits),
        digits.len() > 0,
    ensures
        is_decimal(digits),
        decimal_micros(digits) == saturate((digits_value(digits) * 1_000_000) as int),
{
    assert(digits.take(digits.len() as int) =~= digits);
    lemma_leading_digits(digits, digits.len() as int);
}

/// Digits, a point and digits, with at least one digit among them, are a
/// decimal: the whole number before the point and the fraction behind it.
pub proof fn lemma_number_with_fraction(whole: Seq<u8>, fraction: Seq<u8>)
    requires
        all_digits(whole),
        all_digits(fraction),
        whole.len() + fraction.len() > 0,
    ensures
        is_decimal(whole + seq![46u8] + fraction),
        decimal_micros(whole + seq![46u8] + fraction) == saturate(
            (digits_value(whole) * 1_000_000 + fraction_micros(fraction)) as int,
        ),
{
    let s = whole + seq![46u8] + fraction;
    let k = whole.len() as int;
    assert(s.take(k) =~= whole);
    assert(s.skip(k + 1) =~= fraction);
    lemma_leading_digits(s, k);
}

/// A minus sign before an unsigned decimal negates it; a plus sign changes
/// nothing.
pub proof fn lemma_signed(body: Seq<u8>)
    requires
        is_unsigned_decimal(body),
    ensures
        is_decimal(seq![45u8] + body),
        decimal_micros(seq![45u8] + body) == saturate(-(unsigned_micros(body) as int)),
        is_decimal(seq![43u8] + body),
        decimal_micros(seq![43u8] + body) == saturate(unsigned_micros(body) as int),
{
    assert((seq![45u8] + body).subrange(1, 1 + body.len() as int) =~= body);
    assert((seq![43u8] + body).subrange(1, 1 + body.len() as int) =~= body);
}

/// Whether a byte is a digit.
fn is_digit_byte(b: u8) -> (r: bool)
    ensures
        r == is_digit(b),
{
    b >= 48 && b <= 57
}

/// The length of the run of digits at the start of `s`.
fn leading_digit_count(s: &[u8]) -> (k: usize)
    ensures
        k == leading_digits(s@),
        k <= s.len(),
        all_digits(s@.take(k as int)),
{
    let mut i: usize = 0;
    let mut stopped = false;
    while i < s.len() && !stopped
        invariant
            i <= s.len(),
            all_digits(s@.take(i as int)),
            stopped ==> i < s.len() && !is_digit(s@[i as int]),
        decreases s.len() - i + (if stopped { 0int } else { 1int }),
    {
        if is_digit_byte(s[i]) {
            i += 1;
        } else {
            stopped = true;
        }
    }
    proof {
        lemma_leading_digits(s@, i as int);
    }
    i
}

/// Whether the bytes of `s` from `from` on are all digits.
fn all_digits_from(s: &[u8], from: usize) -> (r: bool)
    requires
        from <= s.len(),
    ensures
        r == all_digits(s@.skip(from as int)),
{
    let mut i: usize = from;
    while i < s.len()
        invariant
            from <= i <= s.len(),
            forall|j: int| from <= j < i ==> is_digit(#[trigger] s@[j]),
        decreases s.len() - i,
    {
        if !is_digit_byte(s[i]) {
            assert(s@.skip(from as int)[i - from] == s@[i as int]);
            return false;
        }
        i += 1;
    }
    true
}

/// The number written by the first `k` bytes of `s`, all digits, capped at
/// `WHOLE_CAP`.
fn whole_value_capped(s: &[u8], k: usize) -> (v: u64)
    requires
        k <= s.len(),
        all_digits(s@.take(k as int)),
    ensures
        v as nat == (if digits_value(s@.take(k as int)) < WHOLE_CAP {
            digits_value(s@.take(k as int))
        } else {
            WHOLE_CAP as nat
        }),
{
    let mut v: u64 = 0;
    let mut i: usize = 0;
    while i < k
        invariant
            i <= k <= s.len(),
            all_digits(s@.take(k as int)),
            v <= WHOLE_CAP,
            v as nat == (if digits_value(s@.take(i as int)) < WHOLE_CAP {
                digits_value(s@.take(i as int))
            } else {
                WHOLE_CAP as nat
            }),
        decreases k - i,
    {
        proof {
            assert(s@.take(i + 1).drop_last() =~= s@.take(i as int));
            assert(s@.take(i + 1).last() == s@[i as int]);
        }
        let d: u64 = (s[i] - ZERO) as u64;
        let next: u64 = v * 10 + d;
        v = if next > WHOLE_CAP { WHOLE_CAP } else { next };
        i += 1;
    }
    v
}

/// The millionths written by the bytes of `s` from `from` on, all digits.
fn fraction_value(s: &[u8], from: usize) -> (v: u64)
    requires
        from <= s.len(),
        all_digits(s@.skip(from as int)),
    ensures
        v as nat == fraction_micros(s@.skip(from as int)),
        v < 1_000_000,
{
    let ghost tail = s@.skip(from as int);
    let mut v: u64 = 0;
    let mut scale: u64 = 100_000;
    let mut i: usize = from;
    while i < s.len()
        invariant
            from <= i <= s.len(),
            tail == s@.skip(from as int),
            all_digits(tail),
            scale as nat == place_value(i - from),
            v as nat == fraction_micros(tail.take(i - from)),
            scale > 0 ==> v + 10 * scale <= 1_000_000,
            v < 1_000_000,
        decreases s.len() - i,
    {
        proof {
            assert(tail.take(i - from + 1).drop_last() =~= tail.take(i - from));
            assert(tail.take(i - from + 1).last() == s@[i as int]);
        }
        let d: u64 = (s[i] - ZERO) as u64;
        v = v + d * scale;
        scale = scale / 10;
        i += 1;
    }
    assert(tail.take(tail.len() as int) =~= tail);
    v
}

/// Reads a decimal. `None` where `bytes` is not a decimal.
pub fn parse_decimal(bytes: &[u8]) -> (r: Option<Fixed>)
    ensures
        r is Some <==> is_decimal(bytes@),
        r matches Some(v) ==> v@ == decimal_micros(bytes@),
{
    let n: usize = bytes.len();
    let negative: bool = n > 0 && bytes[0] == MINUS;
    let signed: bool = n > 0 && (bytes[0] == MINUS || bytes[0] == PLUS);
    let body: &[u8] = if signed {
        slice_subrange(bytes, 1, n)
    } else {
        bytes
    };
    let m: usize = body.len();
    let k: usize = leading_digit_count(body);
    let mut frac: u64 = 0;
    if k < m {
        if body[k] != POINT {
            return None;
        }
        if !all_digits_from(body, k + 1) {
            return None;
        }
        if k == 0 && m == 1 {
            return None;
        }
        frac = fraction_value(body, k + 1);
    } else if k == 0 {
        return None;
    }
    let whole: u64 = whole_value_capped(body, k);
    let mag: i128 = whole as i128 * 1_000_000 + frac as i128;
    let value: i128 = if negative {
        -mag
    } else {
        mag
    };
    Some(Fixed { micros: saturate_wide(value) })
}

} // verus!
