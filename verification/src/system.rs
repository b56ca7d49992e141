//! The instrument as a whole: the mode controller that reads the logical
//! button and decides which backend is active and which unit is shown, the
//! two guarded backend cells, and the per-cycle measurement path.
//!
//! Button handling is edge-triggered: a transition fires only when the
//! button differs from the mode already recorded, so a button held across
//! several polls acts once. Switching backends is stop-then-start through
//! the guarded cells, so at most one backend is ever running.

use vstd::prelude::*;
use crate::backends::{crossings, Comparator, SampledBackend, MAX_WINDOW};
use crate::exclusive::SafeGlobal;
use crate::frequency::Frequency;
use crate::speed::{convert_speed, speed_den, speed_num, Speed, UnitMode};

verus! {

/// The logical buttons of the panel, as the external classifier reports
/// them; `NoPress` is the released level.
#[derive(Clone, Copy, Debug, PartialEq, Eq, Structural)]
pub enum Button {
    Up,
    Down,
    Left,
    Right,
    NoPress,
}

/// Which detection backend is active. Exactly one is, at any time.
#[derive(Clone, Copy, Debug, PartialEq, Eq, Structural)]
pub enum SamplingMode {
    ComparatorEdge,
    SampledWaveform,
}

/// The control face of the instrument, abstracted from measurement data:
/// the two mode axes, which backends are running, and whether each guarded
/// cell holds its backend.
pub struct ControlView {
    pub sampling: SamplingMode,
    pub unit: UnitMode,
    pub comp_running: bool,
    pub adc_running: bool,
    pub comp_present: bool,
    pub adc_present: bool,
}

/// What can reach the control state between two display refreshes: a poll
/// of the button panel, or one of the two interrupts. The interrupt
/// payloads (a timer count, a sample window) touch only measurement data,
/// so they do not appear here.
pub enum ControlEvent {
    Poll(Button),
    ComparatorEdge,
    BufferReady,
}

/// The control invariant: both guarded cells hold their backend, and the
/// running backend is exactly the one the sampling mode names.
pub open spec fn control_inv(v: ControlView) -> bool {
    &&& v.comp_present
    &&& v.adc_present
    &&& v.comp_running == (v.sampling is ComparatorEdge)
    &&& v.adc_running == (v.sampling is SampledWaveform)
}

/// The mode controller's transition on one poll of the button. A
/// transition fires only on a change from the mode already recorded;
/// the unit axis moves independently of the sampling axis.
pub open spec fn step_button(v: ControlView, b: Button) -> ControlView {
    match b {
        Button::Down => if v.sampling is ComparatorEdge {
            v
        } else {
            ControlView {
                sampling: SamplingMode::ComparatorEdge,
                comp_running: true,
                adc_running: false,
                ..v
            }
        },
        Button::Up => if v.sampling is SampledWaveform {
            v
        } else {
            ControlView {
                sampling: SamplingMode::SampledWaveform,
                comp_running: false,
                adc_running: true,
                ..v
            }
        },
        Button::Right => ControlView { unit: UnitMode::Metric, ..v },
        Button::Left => ControlView { unit: UnitMode::Imperial, ..v },
        Button::NoPress => v,
    }
}

/// One event's effect on the control state: interrupts deliver measurement
/// data only and leave the control axes alone.
pub open spec fn step_control(v: ControlView, e: ControlEvent) -> ControlView {
    match e {
        ControlEvent::Poll(b) => step_button(v, b),
        ControlEvent::ComparatorEdge => v,
        ControlEvent::BufferReady => v,
    }
}

/// The control state after a finite sequence of events.
pub open spec fn run_control(v: ControlView, es: Seq<ControlEvent>) -> ControlView
    decreases es.len(),
{
    if es.len() == 0 {
        v
    } else {
        step_control(run_control(v, es.drop_last()), es.last())
    }
}

/// Every single event preserves the control invariant; in particular at
/// most one backend is running afterwards, and both cells stay present.
pub proof fn lemma_step_preserves_inv(v: ControlView, e: ControlEvent)
    requires
        control_inv(v),
    ensures
        control_inv(step_control(v, e)),
        !(step_control(v, e).comp_running && step_control(v, e).adc_running),
{
}

/// Backend mutual exclusion under any workload: after any finite sequence
/// of polls and interrupts from a state satisfying the control invariant,
/// the invariant still holds: at most one backend is running, and neither
/// guarded cell has been left empty.
pub proof fn lemma_run_preserves_inv(v: ControlView, es: Seq<ControlEvent>)
    requires
        control_inv(v),
    ensures
        control_inv(run_control(v, es)),
        !(run_control(v, es).comp_running && run_control(v, es).adc_running),
    decreases es.len(),
{
    if es.len() > 0 {
        lemma_run_preserves_inv(v, es.drop_last());
        lemma_step_preserves_inv(run_control(v, es.drop_last()), es.last());
    }
}

/// Holding a button steady across several polls triggers at most one
/// transition: a second poll of the same button changes nothing.
pub proof fn lemma_button_idempotent(v: ControlView, b: Button)
    ensures
        step_button(step_button(v, b), b) == step_button(v, b),
{
}

/// The whole instrument: the two mode axes and the two backends in their
/// guarded cells, which interrupt handlers and the main loop share.
pub struct Radar {
    pub sampling: SamplingMode,
    pub unit: UnitMode,
    pub comparator: SafeGlobal<Comparator>,
    pub sampled: SafeGlobal<SampledBackend>,
}

impl Radar {
    /// The control face of this state.
    pub open spec fn control(self) -> ControlView {
        ControlView {
            sampling: self.sampling,
            unit: self.unit,
            comp_running: self.comparator.value().running,
            adc_running: self.sampled.value().running,
            comp_present: self.comparator.present(),
            adc_present: self.sampled.present(),
        }
    }

    /// Well-formed states satisfy the control invariant and hold
    /// well-formed backends.
    pub open spec fn wf(self) -> bool {
        &&& control_inv(self.control())
        &&& self.comparator.value().wf()
        &&& self.sampled.value().wf()
    }

    /// Builds the instrument in its boot state: waveform sampling active
    /// (the conservative default), metric units, no measurement yet.
    pub fn new(clock_hz: u32, sample_rate_hz: u32, midpoint: u16) -> (r: Self)
        requires
            1 <= clock_hz,
            1 <= sample_rate_hz,
        ensures
            r.wf(),
            r.sampling is SampledWaveform,
            r.unit is Metric,
            !r.comparator.value().measured,
            r.comparator.value().clock_hz == clock_hz,
            r.sampled.value().buffer@.len() == 0,
            r.sampled.value().sample_rate_hz == sample_rate_hz,
            r.sampled.value().midpoint == midpoint,
    {
        let comparator = Comparator::new(clock_hz);
        let mut sampled = SampledBackend::new(sample_rate_hz, midpoint);
        sampled.start();
        Radar {
            sampling: SamplingMode::SampledWaveform,
            unit: UnitMode::Metric,
            comparator: SafeGlobal::new(comparator),
            sampled: SafeGlobal::new(sampled),
        }
    }

    /// One poll of the button panel: applies the mode controller's
    /// transition, starting and stopping backends through their guarded
    /// cells. Measurement data is untouched; only running flags and the
    /// mode axes move, exactly as `step_button` says.
    pub fn handle_button(&mut self, b: Button)
        requires
            old(self).wf(),
        ensures
            final(self).wf(),
            final(self).control() == step_button(old(self).control(), b),
            final(self).comparator.value() == old(self).comparator.value().with_running(
                final(self).control().comp_running,
            ),
            final(self).sampled.value() == old(self).sampled.value().with_running(
                final(self).control().adc_running,
            ),
    {
        match b {
            Button::Down => {
                if self.sampling != SamplingMode::ComparatorEdge {
                    let mut comp = self.comparator.take();
                    comp.start();
                    self.comparator.restore(comp);
                    let mut adc = self.sampled.take();
                    adc.stop();
                    self.sampled.restore(adc);
                    self.sampling = SamplingMode::ComparatorEdge;
                }
            },
            Button::Up => {
                if self.sampling != SamplingMode::SampledWaveform {
                    let mut comp = self.comparator.take();
                    comp.stop();
                    self.comparator.restore(comp);
                    let mut adc = self.sampled.take();
                    adc.start();
                    self.sampled.restore(adc);
                    self.sampling = SamplingMode::SampledWaveform;
                }
            },
            Button::Right => {
                self.unit = UnitMode::Metric;
            },
            Button::Left => {
                self.unit = UnitMode::Imperial;
            },
            Button::NoPress => {},
        }
    }

    /// The edge-timer interrupt: records the timer count read at a
    /// threshold crossing in the comparator backend. Control axes are
    /// untouched, and the cell is present again when the handler is done.
    pub fn on_comparator_edge(&mut self, count: u16)
        requires
            old(self).wf(),
            1 <= count,
        ensures
            final(self).wf(),
            final(self).control() == step_control(
                old(self).control(),
                ControlEvent::ComparatorEdge,
            ),
            final(self).comparator.value() == old(self).comparator.value().after_callback(count),
            final(self).sampled == old(self).sampled,
            final(self).unit == old(self).unit,
    {
        let mut comp = self.comparator.take();
        comp.handle_callback(count);
        self.comparator.restore(comp);
    }

    /// The buffer-ready interrupt: stores the sample window that the fill
    /// mechanism completed in the sampled backend. Control axes are
    /// untouched, and the cell is present again when the handler is done.
    pub fn on_buffer_ready(&mut self, samples: Vec<u16>)
        requires
            old(self).wf(),
            1 <= samples@.len() <= MAX_WINDOW,
        ensures
            final(self).wf(),
            final(self).control() == step_control(old(self).control(), ControlEvent::BufferReady),
            final(self).sampled.value().buffer == samples,
            final(self).sampled.value().sample_rate_hz == old(self).sampled.value().sample_rate_hz,
            final(self).sampled.value().midpoint == old(self).sampled.value().midpoint,
            final(self).sampled.value().running == old(self).sampled.value().running,
            final(self).comparator == old(self).comparator,
            final(self).unit == old(self).unit,
    {
        let mut adc = self.sampled.take();
        adc.handle_callback(samples);
        self.sampled.restore(adc);
    }

    /// The active backend's point-in-time reading: the last value the
    /// owning interrupt computed, never blocking, and zero before any
    /// callback has fired. A reading from the sampled backend consumes its
    /// window, to be refilled by the fill mechanism.
    pub fn calculate_frequency(&mut self) -> (f: Frequency)
        requires
            old(self).wf(),
        ensures
            final(self).wf(),
            f.wf(),
            final(self).control() == old(self).control(),
            final(self).unit == old(self).unit,
            old(self).sampling is ComparatorEdge ==> {
                &&& final(self).comparator == old(self).comparator
                &&& final(self).sampled == old(self).sampled
                &&& (old(self).comparator.value().measured ==> f.num == old(
                    self,
                ).comparator.value().clock_hz && f.den == 2 * old(
                    self,
                ).comparator.value().last_count)
                &&& (!old(self).comparator.value().measured ==> f.is_zero())
            },
            old(self).sampling is SampledWaveform ==> {
                &&& final(self).comparator == old(self).comparator
                &&& final(self).sampled.value().buffer@.len() == 0
                &&& (old(self).sampled.value().buffer@.len() >= 1 ==> f.num == crossings(
                    old(self).sampled.value().buffer@,
                    old(self).sampled.value().midpoint,
                ) * old(self).sampled.value().sample_rate_hz && f.den == 2 * old(
                    self,
                ).sampled.value().buffer@.len())
                &&& (old(self).sampled.value().buffer@.len() == 0 ==> f.is_zero())
            },
    {
        if self.sampling == SamplingMode::ComparatorEdge {
            let comp = self.comparator.take();
            let f = comp.calculate_frequency();
            self.comparator.restore(comp);
            f
        } else {
            let mut adc = self.sampled.take();
            let f = adc.calculate_frequency(true);
            self.sampled.restore(adc);
            f
        }
    }

    /// One cycle of the main loop's decisions: poll the button, read the
    /// active backend, and convert the reading to a speed in the unit now
    /// selected. The display edge renders what comes back.
    pub fn poll(&mut self, b: Button, transmitted_hz: u64) -> (r: (Frequency, Speed))
        requires
            old(self).wf(),
            1 <= transmitted_hz,
        ensures
            final(self).wf(),
            r.0.wf(),
            final(self).control() == step_button(old(self).control(), b),
            r.1.num == speed_num(r.0, final(self).unit),
            r.1.den == speed_den(r.0, transmitted_hz as int),
            step_button(old(self).control(), b).sampling is ComparatorEdge ==> {
                &&& (old(self).comparator.value().measured ==> r.0.num == old(
                    self,
                ).comparator.value().clock_hz && r.0.den == 2 * old(
                    self,
                ).comparator.value().last_count)
                &&& (!old(self).comparator.value().measured ==> r.0.is_zero())
            },
            step_button(old(self).control(), b).sampling is SampledWaveform ==> {
                &&& (old(self).sampled.value().buffer@.len() >= 1 ==> r.0.num == crossings(
                    old(self).sampled.value().buffer@,
                    old(self).sampled.value().midpoint,
                ) * old(self).sampled.value().sample_rate_hz && r.0.den == 2 * old(
                    self,
                ).sampled.value().buffer@.len())
                &&& (old(self).sampled.value().buffer@.len() == 0 ==> r.0.is_zero())
            },
    {
        self.handle_button(b);
        let f = self.calculate_frequency();
        let s = convert_speed(&f, transmitted_hz, self.unit);
        (f, s)
    }
}

} // verus!
