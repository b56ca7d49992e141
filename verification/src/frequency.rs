//! The frequency measurement that a detection backend reports.
//!
//! Both backends derive a frequency as a quotient of two integer
//! quantities (a clock rate over a count of timer ticks, or a crossing
//! count times a sample rate over a window length), so a measurement is
//! kept as an exact ratio of integers rather than rounded: `num / den`
//! Hertz. A backend that has not yet observed a crossing reports the zero
//! frequency, never an error.

use vstd::prelude::*;

verus! {

/// Numerators and denominators of measurements stay below this bound
/// (2^48), which keeps the later speed conversion free of overflow.
pub const FREQ_BOUND: u64 = 0x1_0000_0000_0000;

/// A frequency in Hertz, as the exact ratio `num / den`.
#[derive(Clone, Copy, Debug)]
pub struct Frequency {
    pub num: u64,
    pub den: u64,
}

impl Frequency {
    /// Well-formed measurements have a positive denominator and stay below
    /// the bound that the speed conversion relies on.
    pub open spec fn wf(self) -> bool {
        &&& 1 <= self.den < FREQ_BOUND
        &&& self.num < FREQ_BOUND
    }

    /// The zero frequency, reported before any crossing has been observed.
    pub fn zero() -> (f: Self)
        ensures
            f.wf(),
            f.num == 0,
            f.den == 1,
    {
        Frequency { num: 0, den: 1 }
    }

    /// Whether this measurement is exactly zero Hertz.
    pub open spec fn is_zero(self) -> bool {
        self.num == 0
    }
}

} // verus!
