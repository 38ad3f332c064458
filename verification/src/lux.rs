//! Illuminance from the two ALS channel counts.
//!
//! The share that channel 1 has in the sum of both channels tells what kind
//! of light falls on the sensor, and selects one of four rows of calibration
//! coefficients. The weighted difference of the two counts, scaled down by
//! gain and integration time, is the illuminance. All of it is computed in
//! integers and handed out as an exact quotient.

use crate::types::{AlsGain, AlsIntTime};
use vstd::prelude::*;

verus! {

/// An illuminance in lux: the exact quotient `numerator / denominator`.
#[derive(Debug, Clone, Copy, PartialEq, Eq, Structural)]
pub struct Lux {
    /// Twice the weighted difference of the channel counts
    pub numerator: i64,
    /// The fixed scale 10000, times twice the integration time factor, times
    /// the gain factor
    pub denominator: u32,
}

/// Whether the ratio, channel 1 over the sum of both channels counted in
/// thousandths, lies below `bound`. With both channels at zero the ratio
/// counts as 1000.
pub open spec fn spec_ratio_below(ch0: u16, ch1: u16, bound: u16) -> bool {
    if ch0 == 0 && ch1 == 0 {
        1000 < bound
    } else {
        1000 * ch1 < bound * (ch0 + ch1)
    }
}

/// The row of coefficients for a pair of counts: row 0 below a ratio of
/// 450, row 1 below 640, row 2 below 850, row 3 from there on.
pub open spec fn spec_lux_row(ch0: u16, ch1: u16) -> usize {
    if spec_ratio_below(ch0, ch1, 450) {
        0
    } else if spec_ratio_below(ch0, ch1, 640) {
        1
    } else if spec_ratio_below(ch0, ch1, 850) {
        2
    } else {
        3
    }
}

/// The weight of channel 0 in each row.
pub open spec fn spec_ch0_coefficient(row: usize) -> int {
    if row == 0 {
        17743
    } else if row == 1 {
        42785
    } else if row == 2 {
        5926
    } else {
        0
    }
}

/// The weight that is subtracted for channel 1 in each row.
pub open spec fn spec_ch1_coefficient(row: usize) -> int {
    if row == 0 {
        -11059
    } else if row == 1 {
        19548
    } else if row == 2 {
        -1185
    } else {
        0
    }
}

/// The weighted difference of the two counts, 10000 times the illuminance at
/// gain 1x and 100 ms.
pub open spec fn spec_raw_lux(ch0: u16, ch1: u16) -> int {
    let row = spec_lux_row(ch0, ch1);
    ch0 * spec_ch0_coefficient(row) - ch1 * spec_ch1_coefficient(row)
}

/// The illuminance for a pair of counts taken at `gain` and `int_time`.
pub open spec fn spec_lux(ch0: u16, ch1: u16, gain: AlsGain, int_time: AlsIntTime) -> Lux {
    Lux {
        numerator: (2 * spec_raw_lux(ch0, ch1)) as i64,
        denominator: (10000 * int_time.spec_lux_factor_halves() * gain.spec_lux_factor()) as u32,
    }
}

/// Tells whether the ratio of the two counts lies below `bound`.
pub fn ratio_below(ch0: u16, ch1: u16, bound: u16) -> (r: bool)
    ensures
        r == spec_ratio_below(ch0, ch1, bound),
{
    if ch0 == 0 && ch1 == 0 {
        1000 < bound
    } else {
        let sum: u64 = ch0 as u64 + ch1 as u64;
        assert(bound * sum <= 0xffff * 0x1fffe) by (nonlinear_arith)
            requires
                bound <= 0xffff,
                sum <= 0x1fffe,
        ;
        1000 * (ch1 as u64) < (bound as u64) * sum
    }
}

/// Selects the row of calibration coefficients for a pair of counts.
pub fn lux_row(ch0: u16, ch1: u16) -> (row: usize)
    ensures
        row == spec_lux_row(ch0, ch1),
        row < 4,
{
    if ratio_below(ch0, ch1, 450) {
        0
    } else if ratio_below(ch0, ch1, 640) {
        1
    } else if ratio_below(ch0, ch1, 850) {
        2
    } else {
        3
    }
}

/// Computes the illuminance for a pair of counts taken at `gain` and
/// `int_time`.
pub fn lux(ch0: u16, ch1: u16, gain: AlsGain, int_time: AlsIntTime) -> (r: Lux)
    ensures
        r == spec_lux(ch0, ch1, gain, int_time),
        r.numerator == 2 * spec_raw_lux(ch0, ch1),
        r.denominator == 10000 * int_time.spec_lux_factor_halves() * gain.spec_lux_factor(),
        r.denominator > 0,
{
    let ch0_c: [i64; 4] = [17743, 42785, 5926, 0];
    let ch1_c: [i64; 4] = [-11059, 19548, -1185, 0];
    let index_co = lux_row(ch0, ch1);
    let c0 = ch0_c[index_co];
    let c1 = ch1_c[index_co];
    assert(-0xffff * 42785 <= ch0 * c0 <= 0xffff * 42785) by (nonlinear_arith)
        requires
            0 <= ch0 <= 0xffff,
            -42785 <= c0 <= 42785,
    ;
    assert(-0xffff * 42785 <= ch1 * c1 <= 0xffff * 42785) by (nonlinear_arith)
        requires
            0 <= ch1 <= 0xffff,
            -42785 <= c1 <= 42785,
    ;
    let raw = (ch0 as i64) * c0 - (ch1 as i64) * c1;
    let halves = int_time.lux_factor_halves() as u32;
    let factor = gain.lux_factor() as u32;
    assert(halves * factor <= 768) by (nonlinear_arith)
        requires
            halves <= 8,
            factor <= 96,
    ;
    Lux { numerator: 2 * raw, denominator: 10000 * halves * factor }
}

/// The rows partition the ratios: row 0 lies below 450, row 1 runs from 450
/// up to but not including 640, row 2 from 640 up to but not including 850,
/// and row 3 takes the rest.
pub proof fn lemma_lux_row_thresholds(ch0: u16, ch1: u16)
    ensures
        spec_lux_row(ch0, ch1) < 4,
        spec_lux_row(ch0, ch1) == 0 <==> spec_ratio_below(ch0, ch1, 450),
        spec_lux_row(ch0, ch1) == 1 <==> !spec_ratio_below(ch0, ch1, 450) && spec_ratio_below(
            ch0,
            ch1,
            640,
        ),
        spec_lux_row(ch0, ch1) == 2 <==> !spec_ratio_below(ch0, ch1, 640) && spec_ratio_below(
            ch0,
            ch1,
            850,
        ),
        spec_lux_row(ch0, ch1) == 3 <==> !spec_ratio_below(ch0, ch1, 850),
{
}

/// A ratio that sits exactly on a threshold belongs to the row above it:
/// where the counts are not both zero and channel 1 has exactly 450, 640 or
/// 850 thousandths of their sum, the row is 1, 2 or 3.
pub proof fn lemma_lux_row_at_threshold(ch0: u16, ch1: u16)
    ensures
        ch0 + ch1 > 0 && 1000 * ch1 == 450 * (ch0 + ch1) ==> spec_lux_row(ch0, ch1) == 1,
        ch0 + ch1 > 0 && 1000 * ch1 == 640 * (ch0 + ch1) ==> spec_lux_row(ch0, ch1) == 2,
        ch0 + ch1 > 0 && 1000 * ch1 == 850 * (ch0 + ch1) ==> spec_lux_row(ch0, ch1) == 3,
{
}

/// In the dark, with both channels at zero, the ratio counts as 1000, the
/// row is the last one and the illuminance is zero.
pub proof fn lemma_lux_dark(gain: AlsGain, int_time: AlsIntTime)
    ensures
        !spec_ratio_below(0, 0, 1000),
        spec_lux_row(0, 0) == 3,
        spec_lux(0, 0, gain, int_time).numerator == 0,
{
}

/// From a ratio of 850 on the illuminance is zero, whatever the counts.
pub proof fn lemma_lux_zero_in_last_row(ch0: u16, ch1: u16, gain: AlsGain, int_time: AlsIntTime)
    requires
        !spec_ratio_below(ch0, ch1, 850),
    ensures
        spec_raw_lux(ch0, ch1) == 0,
        spec_lux(ch0, ch1, gain, int_time).numerator == 0,
{
}

/// The illuminance is never negative, and its parts fit their fields.
pub proof fn lemma_lux_range(ch0: u16, ch1: u16, gain: AlsGain, int_time: AlsIntTime)
    ensures
        0 <= spec_raw_lux(ch0, ch1) <= 65535 * 42785,
        spec_lux(ch0, ch1, gain, int_time).numerator == 2 * spec_raw_lux(ch0, ch1),
        spec_lux(ch0, ch1, gain, int_time).denominator == 10000
            * int_time.spec_lux_factor_halves() * gain.spec_lux_factor(),
        10000 <= spec_lux(ch0, ch1, gain, int_time).denominator <= 7_680_000,
{
    let halves = int_time.spec_lux_factor_halves() as int;
    let factor = gain.spec_lux_factor() as int;
    assert(1 <= halves * factor <= 768) by (nonlinear_arith)
        requires
            1 <= halves <= 8,
            1 <= factor <= 96,
    ;
}

} // verus!
