//! The two frequency-detection backends.
//!
//! The edge-timing backend pairs a hardware comparator with a free-running
//! timer: each threshold crossing of the reflected signal's envelope raises
//! an interrupt, whose handler records the timer count since the previous
//! crossing and so fixes the half-period. The sampled-waveform backend scans
//! a periodically refilled sample window for crossings of a reference
//! midpoint level. Hardware delivers its raw readings (a timer count, a
//! filled sample window) from the interrupt context; everything the backends
//! decide from those readings is here.

use vstd::prelude::*;
use crate::frequency::{Frequency, FREQ_BOUND};

verus! {

/// The largest sample window a backend accepts; keeps the crossing count
/// times the sample rate below the measurement bound.
pub const MAX_WINDOW: usize = 0x10000;

/// Edge-timing backend: frequency from the timer count between two
/// successive threshold crossings.
#[derive(Clone, Copy, Debug)]
pub struct Comparator {
    /// Rate of the free-running timer, in counts per second.
    pub clock_hz: u32,
    /// Whether the backend has been started.
    pub running: bool,
    /// Timer count between the two most recent crossings.
    pub last_count: u16,
    /// Whether any crossing pair has been observed since construction.
    pub measured: bool,
}

impl Comparator {
    pub open spec fn wf(self) -> bool {
        &&& 1 <= self.clock_hz
        &&& (self.measured ==> 1 <= self.last_count)
    }

    /// The state after the crossing interrupt records a timer count.
    pub open spec fn after_callback(self, count: u16) -> Comparator {
        Comparator { measured: true, last_count: count, ..self }
    }

    /// The state with the running flag set or cleared.
    pub open spec fn with_running(self, running: bool) -> Comparator {
        Comparator { running, ..self }
    }

    pub fn new(clock_hz: u32) -> (c: Self)
        requires
            1 <= clock_hz,
        ensures
            c.wf(),
            !c.running,
            !c.measured,
            c.clock_hz == clock_hz,
    {
        Comparator { clock_hz, running: false, last_count: 0, measured: false }
    }

    pub fn start(&mut self)
        ensures
            *final(self) == old(self).with_running(true),
    {
        self.running = true;
    }

    pub fn stop(&mut self)
        ensures
            *final(self) == old(self).with_running(false),
    {
        self.running = false;
    }

    /// Records the timer count read at a threshold crossing. A full signal
    /// period spans two crossings, so `count` is the half-period; it is at
    /// least one tick, since the formula divides by it.
    pub fn handle_callback(&mut self, count: u16)
        requires
            1 <= count,
        ensures
            *final(self) == old(self).after_callback(count),
            old(self).wf() ==> final(self).wf(),
    {
        self.last_count = count;
        self.measured = true;
    }

    /// The last computed frequency, `clock / (2 * count)` Hertz: two
    /// crossings make one full period. Before any crossing has been
    /// observed the reading is zero, not an error.
    pub fn calculate_frequency(&self) -> (f: Frequency)
        requires
            self.wf(),
        ensures
            f.wf(),
            self.measured ==> f.num == self.clock_hz && f.den == 2 * self.last_count,
            !self.measured ==> f.is_zero(),
    {
        if self.measured {
            Frequency { num: self.clock_hz as u64, den: 2 * (self.last_count as u64) }
        } else {
            Frequency::zero()
        }
    }
}

/// Whether a sample lies on or above the reference midpoint level.
pub open spec fn is_high(sample: u16, midpoint: u16) -> bool {
    sample >= midpoint
}

/// How often consecutive samples of `s` lie on opposite sides of the
/// midpoint: the number of zero crossings in the window.
pub open spec fn crossings(s: Seq<u16>, midpoint: u16) -> nat
    decreases s.len(),
{
    if s.len() < 2 {
        0
    } else {
        crossings(s.drop_last(), midpoint) + if is_high(s[s.len() - 2], midpoint) != is_high(
            s[s.len() - 1],
            midpoint,
        ) {
            1nat
        } else {
            0nat
        }
    }
}

/// A window of `n` samples has at most `n - 1` consecutive pairs, so at
/// most that many crossings.
pub proof fn lemma_crossings_bound(s: Seq<u16>, midpoint: u16)
    ensures
        s.len() == 0 ==> crossings(s, midpoint) == 0,
        s.len() >= 1 ==> crossings(s, midpoint) <= s.len() - 1,
    decreases s.len(),
{
    if s.len() >= 2 {
        lemma_crossings_bound(s.drop_last(), midpoint);
    }
}

/// Counts the zero crossings of a sample window against the midpoint.
fn count_crossings(samples: &Vec<u16>, midpoint: u16) -> (n: usize)
    ensures
        n == crossings(samples@, midpoint),
{
    let mut n: usize = 0;
    if samples.len() < 2 {
        return n;
    }
    let mut i: usize = 1;
    while i < samples.len()
        invariant
            1 <= i <= samples@.len(),
            2 <= samples@.len(),
            n == crossings(samples@.take(i as int), midpoint),
            n < i,
        decreases samples@.len() - i,
    {
        proof {
            lemma_crossings_bound(samples@.take(i as int), midpoint);
            assert(samples@.take(i as int + 1).drop_last() =~= samples@.take(i as int));
            assert(samples@.take(i as int + 1).last() == samples@[i as int]);
        }
        if (samples[i] >= midpoint) != (samples[i - 1] >= midpoint) {
            n = n + 1;
        }
        i = i + 1;
    }
    proof {
        assert(samples@.take(samples@.len() as int) =~= samples@);
    }
    n
}

/// Sampled-waveform backend: frequency from the zero crossings of a filled
/// sample window.
#[derive(Debug)]
pub struct SampledBackend {
    /// Rate at which the window is filled, in samples per second.
    pub sample_rate_hz: u32,
    /// Reference level that stands for the waveform's midpoint voltage.
    pub midpoint: u16,
    /// Whether the backend has been started.
    pub running: bool,
    /// The most recent filled window; empty until the first fill completes,
    /// and emptied again when a reading consumes it.
    pub buffer: Vec<u16>,
}

impl SampledBackend {
    pub open spec fn wf(self) -> bool {
        &&& 1 <= self.sample_rate_hz
        &&& self.buffer@.len() <= MAX_WINDOW
    }

    /// The state with the running flag set or cleared.
    pub open spec fn with_running(self, running: bool) -> SampledBackend {
        SampledBackend { running, ..self }
    }

    pub fn new(sample_rate_hz: u32, midpoint: u16) -> (b: Self)
        requires
            1 <= sample_rate_hz,
        ensures
            b.wf(),
            !b.running,
            b.buffer@.len() == 0,
            b.sample_rate_hz == sample_rate_hz,
            b.midpoint == midpoint,
    {
        SampledBackend { sample_rate_hz, midpoint, running: false, buffer: Vec::new() }
    }

    pub fn start(&mut self)
        ensures
            *final(self) == old(self).with_running(true),
    {
        self.running = true;
    }

    pub fn stop(&mut self)
        ensures
            *final(self) == old(self).with_running(false),
    {
        self.running = false;
    }

    /// Stores the window that the fill mechanism completed.
    pub fn handle_callback(&mut self, samples: Vec<u16>)
        requires
            1 <= samples@.len() <= MAX_WINDOW,
        ensures
            final(self).buffer == samples,
            final(self).sample_rate_hz == old(self).sample_rate_hz,
            final(self).midpoint == old(self).midpoint,
            final(self).running == old(self).running,
            old(self).wf() ==> final(self).wf(),
    {
        self.buffer = samples;
    }

    /// The frequency seen in the current window: crossings over twice the
    /// window duration, `crossings * rate / (2 * len)` Hertz. An empty
    /// window (nothing filled yet, or just consumed) reads as zero, not an
    /// error. With `restart` the window is consumed, to be refilled by the
    /// fill mechanism; without it the same window may be re-read.
    pub fn calculate_frequency(&mut self, restart: bool) -> (f: Frequency)
        requires
            old(self).wf(),
        ensures
            f.wf(),
            old(self).buffer@.len() >= 1 ==> f.num == crossings(
                old(self).buffer@,
                old(self).midpoint,
            ) * old(self).sample_rate_hz && f.den == 2 * old(self).buffer@.len(),
            old(self).buffer@.len() == 0 ==> f.is_zero(),
            final(self).sample_rate_hz == old(self).sample_rate_hz,
            final(self).midpoint == old(self).midpoint,
            final(self).running == old(self).running,
            final(self).buffer@ == if restart { Seq::<u16>::empty() } else { old(self).buffer@ },
            final(self).wf(),
    {
        let f = if self.buffer.len() >= 1 {
            let n = count_crossings(&self.buffer, self.midpoint);
            proof {
                lemma_crossings_bound(self.buffer@, self.midpoint);
                vstd::arithmetic::mul::lemma_mul_upper_bound(
                    n as int,
                    0xffff,
                    self.sample_rate_hz as int,
                    0xffff_ffff,
                );
            }
            Frequency {
                num: (n as u64) * (self.sample_rate_hz as u64),
                den: 2 * (self.buffer.len() as u64),
            }
        } else {
            Frequency::zero()
        };
        if restart {
            self.buffer = Vec::new();
        }
        f
    }
}

} // verus!
