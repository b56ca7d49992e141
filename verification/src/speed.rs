//! Doppler speed conversion.
//!
//! A target moving at speed `v` shifts the reflected signal by
//! `detected = 2 * v * transmitted / c`, so the speed is
//! `K(unit) * detected / (2 * transmitted)`, where `K` folds the speed of
//! light together with the unit conversion. The conversion is carried out
//! exactly, on the measurement's integer ratio, so the result is itself an
//! exact ratio; rendering it as a decimal is left to the display edge.

use vstd::prelude::*;
use vstd::arithmetic::mul::lemma_mul_upper_bound;
use crate::frequency::{Frequency, FREQ_BOUND};

verus! {

/// The factor for speeds in kilometres per hour.
pub const KMH_FACTOR: u64 = 1_080_000_000;

/// The factor for speeds in miles per hour.
pub const MPH_FACTOR: u64 = 671_000_000;

/// Which unit the display shows; an axis independent of the sampling mode.
#[derive(Clone, Copy, Debug, PartialEq, Eq, Structural)]
pub enum UnitMode {
    Metric,
    Imperial,
}

/// The constant `K(unit)` of the Doppler formula.
pub open spec fn unit_factor(unit: UnitMode) -> int {
    match unit {
        UnitMode::Metric => KMH_FACTOR as int,
        UnitMode::Imperial => MPH_FACTOR as int,
    }
}

/// A speed as the exact ratio `num / den`, in the unit it was converted to.
#[derive(Clone, Copy, Debug)]
pub struct Speed {
    pub num: u128,
    pub den: u128,
}

/// The numerator of the speed that a measurement converts to.
pub open spec fn speed_num(f: Frequency, unit: UnitMode) -> int {
    unit_factor(unit) * f.num
}

/// The denominator of the speed that a measurement converts to.
pub open spec fn speed_den(f: Frequency, transmitted_hz: int) -> int {
    2 * transmitted_hz * f.den
}

/// Converts a detected frequency to a speed:
/// `K(unit) * detected / (2 * transmitted)`, computed exactly on the ratio.
/// The transmitted frequency is a build-time constant and is never zero.
pub fn convert_speed(f: &Frequency, transmitted_hz: u64, unit: UnitMode) -> (s: Speed)
    requires
        f.wf(),
        1 <= transmitted_hz,
    ensures
        s.num == speed_num(*f, unit),
        s.den == speed_den(*f, transmitted_hz as int),
        1 <= s.den,
{
    let factor: u64 = match unit {
        UnitMode::Metric => KMH_FACTOR,
        UnitMode::Imperial => MPH_FACTOR,
    };
    proof {
        lemma_mul_upper_bound(factor as int, KMH_FACTOR as int, f.num as int, FREQ_BOUND as int);
        lemma_mul_upper_bound(
            2 * transmitted_hz as int,
            0x2_0000_0000_0000_0000,
            f.den as int,
            FREQ_BOUND as int,
        );
        lemma_mul_upper_bound(1, 2 * transmitted_hz as int, 1, f.den as int);
    }
    let num: u128 = (factor as u128) * (f.num as u128);
    let den: u128 = 2 * (transmitted_hz as u128) * (f.den as u128);
    Speed { num, den }
}

/// A zero measurement converts to a zero speed in either unit: the
/// numerator vanishes while the denominator stays positive.
pub proof fn lemma_speed_of_zero(f: Frequency, transmitted_hz: int, unit: UnitMode)
    requires
        f.wf(),
        f.is_zero(),
        1 <= transmitted_hz,
    ensures
        speed_num(f, unit) == 0,
        speed_den(f, transmitted_hz) >= 2,
{
    assert(2 * transmitted_hz * f.den >= 2) by (nonlinear_arith)
        requires
            1 <= transmitted_hz,
            1 <= f.den,
    ;
}

/// The conversion is homogeneous in the detected frequency: scaling the
/// measurement's numerator by `c` scales the converted speed by `c`, as an
/// equality of exact ratios (cross-multiplied).
pub proof fn lemma_speed_homogeneous(
    f: Frequency,
    g: Frequency,
    c: int,
    transmitted_hz: int,
    unit: UnitMode,
)
    requires
        g.den == f.den,
        g.num == c * f.num,
        1 <= transmitted_hz,
    ensures
        speed_num(g, unit) * speed_den(f, transmitted_hz) == c * speed_num(f, unit) * speed_den(
            g,
            transmitted_hz,
        ),
{
    assert(speed_num(g, unit) == unit_factor(unit) * (c * f.num)) by (nonlinear_arith)
        requires
            g.num == c * f.num,
    ;
    assert(unit_factor(unit) * (c * f.num) * (2 * transmitted_hz * f.den) == c * (unit_factor(unit)
        * f.num) * (2 * transmitted_hz * f.den)) by (nonlinear_arith);
}

/// The conversion is additive in the detected frequency: summing the
/// numerators of two measurements over a common denominator sums the
/// converted speeds.
pub proof fn lemma_speed_additive(
    f: Frequency,
    g: Frequency,
    h: Frequency,
    transmitted_hz: int,
    unit: UnitMode,
)
    requires
        g.den == f.den,
        h.den == f.den,
        h.num == f.num + g.num,
        1 <= transmitted_hz,
    ensures
        speed_num(h, unit) == speed_num(f, unit) + speed_num(g, unit),
        speed_den(h, transmitted_hz) == speed_den(f, transmitted_hz),
{
    assert(unit_factor(unit) * (f.num + g.num) == unit_factor(unit) * f.num + unit_factor(unit)
        * g.num) by (nonlinear_arith);
}

} // verus!
