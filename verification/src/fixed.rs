//! Signed decimal quantities with six fractional digits.
//!
//! Times (in seconds), gains (linear multipliers) and percentages are all held
//! as a whole number of millionths, so that every computation on them is exact
//! integer arithmetic. Results that would leave the 64-bit range saturate.

use vstd::prelude::*;

verus! {

/// Millionths in one hundredth of a unit.
pub const MICROS_PER_PERCENT: i64 = 10_000;

/// `x` clamped into the range of a 64-bit signed integer.
pub open spec fn saturate(x: int) -> int {
    if x < i64::MIN as int {
        i64::MIN as int
    } else if x > i64::MAX as int {
        i64::MAX as int
    } else {
        x
    }
}

/// The quotient of `a` by a positive `b`, rounded toward zero.
pub open spec fn truncated_quotient(a: int, b: int) -> int
    recommends
        b > 0,
{
    if a >= 0 {
        a / b
    } else {
        -((-a) / b)
    }
}

/// A decimal number with six fractional digits, stored as millionths.
#[derive(Clone, Copy, Debug, PartialEq, Eq, Structural)]
pub struct Fixed {
    pub micros: i64,
}

impl View for Fixed {
    type V = int;

    /// The number of millionths.
    open spec fn view(&self) -> int {
        self.micros as int
    }
}

/// Clamps a wide integer into the 64-bit range.
pub fn saturate_wide(x: i128) -> (r: i64)
    ensures
        r as int == saturate(x as int),
{
    if x < i64::MIN as i128 {
        i64::MIN
    } else if x > i64::MAX as i128 {
        i64::MAX
    } else {
        x as i64
    }
}

impl Fixed {
    /// The value zero.
    pub fn zero() -> (r: Fixed)
        ensures
            r@ == 0,
    {
        Fixed { micros: 0 }
    }

    /// The value of `micros` millionths.
    pub fn from_micros(micros: i64) -> (r: Fixed)
        ensures
            r@ == micros,
    {
        Fixed { micros }
    }

    /// The linear gain that stands for a percentage: `percent / 100`, exactly.
    pub fn from_percent(percent: i32) -> (r: Fixed)
        ensures
            r@ == percent * 10_000,
    {
        Fixed { micros: percent as i64 * MICROS_PER_PERCENT }
    }

    /// The sum of two values, saturated.
    pub fn saturating_add(self, other: Fixed) -> (r: Fixed)
        ensures
            r@ == saturate(self@ + other@),
    {
        Fixed { micros: saturate_wide(self.micros as i128 + other.micros as i128) }
    }

    /// The value in whole thousandths, rounded toward zero.
    pub fn whole_millis(self) -> (r: i64)
        ensures
            r as int == truncated_quotient(self@, 1000),
    {
        self.micros / 1000
    }
}

} // verus!
