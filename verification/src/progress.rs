//! How far a session has come.

use vstd::prelude::*;
use vstd::arithmetic::div_mod::{lemma_div_is_ordered, lemma_fundamental_div_mod};
use crate::fixed::{saturate, saturate_wide, truncated_quotient, Fixed};
use crate::time_codec::{elapsed_of, parse_time_to_seconds};

verus! {

/// One hundred percent, in millionths of a percent.
pub const FULL: i64 = 100_000_000;

/// The part of `total` that `elapsed` is, in millionths of a percent: the
/// quotient rounded toward zero and never above one hundred percent. Zero
/// where `total` is not positive.
pub open spec fn percent_micros(elapsed: int, total: int) -> int {
    if total > 0 {
        let raw = truncated_quotient(elapsed * 100_000_000, total);
        if raw > 100_000_000 {
            100_000_000
        } else {
            saturate(raw)
        }
    } else {
        0
    }
}

/// One report of the encoder, with the percentage that it amounts to.
#[derive(Clone, Debug)]
pub struct ProgressSample {
    /// The number of the frame that was written last.
    pub frame: u32,
    /// The frames written per second: the bits of the 32-bit float that the
    /// encoder's reader reports, carried as they are.
    pub fps_bits: u32,
    /// The elapsed time of the output, as the encoder writes it.
    pub time: String,
    /// The percentage of the session that is done.
    pub progress: Fixed,
}

/// Rounding toward zero keeps the order of the numerators.
pub proof fn lemma_truncated_quotient_ordered(a: int, b: int, d: int)
    requires
        a <= b,
        d > 0,
    ensures
        truncated_quotient(a, d) <= truncated_quotient(b, d),
{
    if a >= 0 {
        lemma_div_is_ordered(a, b, d);
    } else if b < 0 {
        lemma_div_is_ordered(-b, -a, d);
    } else {
        lemma_div_is_ordered(0, -a, d);
        lemma_div_is_ordered(0, b, d);
    }
}

/// The percentage never falls while the elapsed time does not fall.
pub proof fn lemma_percent_monotone(earlier: int, later: int, total: int)
    requires
        earlier <= later,
    ensures
        percent_micros(earlier, total) <= percent_micros(later, total),
{
    if total > 0 {
        lemma_truncated_quotient_ordered(earlier * 100_000_000, later * 100_000_000, total);
    }
}

/// From the total duration on, the percentage is one hundred.
pub proof fn lemma_percent_full(elapsed: int, total: int)
    requires
        0 < total <= elapsed,
    ensures
        percent_micros(elapsed, total) == 100_000_000,
{
    lemma_truncated_quotient_ordered(total * 100_000_000, elapsed * 100_000_000, total);
    assert(truncated_quotient(total * 100_000_000, total) == 100_000_000) by {
        lemma_fundamental_div_mod(total * 100_000_000, total);
        assert((total * 100_000_000) / total == 100_000_000) by (nonlinear_arith)
            requires
                total > 0,
        ;
    }
}

/// The percentage of a time that is not negative lies between zero and one
/// hundred.
pub proof fn lemma_percent_range(elapsed: int, total: int)
    requires
        elapsed >= 0,
    ensures
        0 <= percent_micros(elapsed, total) <= 100_000_000,
{
    if total > 0 {
        lemma_truncated_quotient_ordered(0, elapsed * 100_000_000, total);
    }
}

/// The percentage of progress at the elapsed time `elapsed`.
pub fn progress_percent(elapsed: Fixed, total: Fixed) -> (percent: Fixed)
    ensures
        percent@ == percent_micros(elapsed@, total@),
{
    if total.micros > 0 {
        let raw: i128 = (elapsed.micros as i128 * 100_000_000) / (total.micros as i128);
        if raw > FULL as i128 {
            Fixed { micros: FULL }
        } else {
            Fixed { micros: saturate_wide(raw) }
        }
    } else {
        Fixed::zero()
    }
}

/// The sample of one report of the encoder.
pub fn progress_sample(frame: u32, fps_bits: u32, time: String, total: Fixed) -> (sample:
    ProgressSample)
    ensures
        sample.frame == frame,
        sample.fps_bits == fps_bits,
        sample.time@ == time@,
        sample.progress@ == percent_micros(elapsed_of(time@), total@),
{
    let elapsed = parse_time_to_seconds(time.as_str());
    let progress = progress_percent(elapsed, total);
    ProgressSample { frame, fps_bits, time, progress }
}

} // verus!
