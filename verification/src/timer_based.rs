//! The software-timed pulser: lower the pin, wait out the bitplane's duration
//! against the microsecond counter, raise the pin.

use vstd::prelude::*;
use crate::pin_pulser::PinPulser;
use crate::protocol::{Action, Event};
use crate::timing::{coarse_sleep_us, deadline_reached, pulse_duration_us, pulse_durations};

verus! {

/// How far a software-timed pulse has come.
#[derive(Clone, Copy, PartialEq, Eq, Debug)]
pub enum TimerPhase {
    /// No pulse is under way.
    Idle,
    /// A pulse was requested; the pin is still at rest.
    Armed { duration_us: u32 },
    /// The pin has been driven low.
    Lowered { duration_us: u32 },
    /// The counter is being read for the start of the wait.
    Stamping { duration_us: u32 },
    /// The wait is running since the counter read `start_time`.
    Timing { duration_us: u32, start_time: u64 },
}

/// The mathematical state of a [`TimerBasedPinPulser`].
pub struct TimerModel {
    /// The duration of each bitplane's pulse in microseconds.
    pub durations_us: Seq<u32>,
    /// The pins that are pulsed.
    pub pins: u32,
    /// How far the pulse under way has come.
    pub phase: TimerPhase,
}

/// Software-timed pulser: drives the pins low, waits, drives them high.
pub struct TimerBasedPinPulser {
    durations_us: Vec<u32>,
    pins: u32,
    phase: TimerPhase,
}

impl View for TimerBasedPinPulser {
    type V = TimerModel;

    closed spec fn view(&self) -> TimerModel {
        TimerModel { durations_us: self.durations_us@, pins: self.pins, phase: self.phase }
    }
}

impl TimerBasedPinPulser {
    /// The state of a new pulser.
    pub open spec fn spec_new(bitplane_timings_ns: Seq<u32>, pins: u32) -> TimerModel {
        TimerModel {
            durations_us: pulse_durations(bitplane_timings_ns),
            pins,
            phase: TimerPhase::Idle,
        }
    }

    /// A pulser for `pins`, with one bitplane for each entry of the table of
    /// durations. A bitplane's pulse lasts its duration rounded up to whole
    /// microseconds, the unit of the counter that times it. The pulser is at
    /// rest.
    pub fn new(bitplane_timings_ns: &[u32], pins: u32) -> (pulser: Self)
        ensures
            pulser@ == Self::spec_new(bitplane_timings_ns@, pins),
    {
        let mut durations_us: Vec<u32> = Vec::new();
        let mut i: usize = 0;
        while i < bitplane_timings_ns.len()
            invariant
                i <= bitplane_timings_ns.len(),
                durations_us@ == pulse_durations(bitplane_timings_ns@).take(i as int),
            decreases bitplane_timings_ns.len() - i,
        {
            durations_us.push(pulse_duration_us(bitplane_timings_ns[i]));
            i += 1;
        }
        assert(durations_us@ == pulse_durations(bitplane_timings_ns@));
        Self { durations_us, pins, phase: TimerPhase::Idle }
    }

    /// The pins that are pulsed.
    pub fn pins(&self) -> (pins: u32)
        ensures
            pins == self@.pins,
    {
        self.pins
    }

    /// The duration of a bitplane's pulse in microseconds.
    pub fn duration_us(&self, bitplane: usize) -> (duration_us: u32)
        requires
            bitplane < self@.durations_us.len(),
        ensures
            duration_us == self@.durations_us[bitplane as int],
    {
        self.durations_us[bitplane]
    }

    /// How far the pulse under way has come.
    pub fn phase(&self) -> (phase: TimerPhase)
        ensures
            phase == self@.phase,
    {
        self.phase
    }
}

impl PinPulser for TimerBasedPinPulser {
    open spec fn spec_bitplanes(model: TimerModel) -> nat {
        model.durations_us.len()
    }

    open spec fn spec_send_pulse(model: TimerModel, bitplane: usize) -> TimerModel {
        TimerModel {
            phase: TimerPhase::Armed { duration_us: model.durations_us[bitplane as int] },
            ..model
        }
    }

    open spec fn spec_wait_pulse_finished(model: TimerModel) -> TimerModel {
        model
    }

    open spec fn spec_step(model: TimerModel, event: Event) -> (TimerModel, Option<Action>) {
        match model.phase {
            TimerPhase::Idle => (model, None),
            TimerPhase::Armed { duration_us } => (
                TimerModel { phase: TimerPhase::Lowered { duration_us }, ..model },
                Some(Action::WriteClrBits(model.pins)),
            ),
            TimerPhase::Lowered { duration_us } => (
                TimerModel { phase: TimerPhase::Stamping { duration_us }, ..model },
                Some(Action::GetTime),
            ),
            TimerPhase::Stamping { duration_us } => match event {
                Event::Time(start_time) => (
                    TimerModel { phase: TimerPhase::Timing { duration_us, start_time }, ..model },
                    match coarse_sleep_us(duration_us) {
                        Some(sleep) => Some(Action::Sleep(sleep)),
                        None => Some(Action::GetTime),
                    },
                ),
                _ => (model, Some(Action::GetTime)),
            },
            TimerPhase::Timing { duration_us, start_time } => match event {
                Event::Time(now) if deadline_reached(start_time, duration_us, now) => (
                    TimerModel { phase: TimerPhase::Idle, ..model },
                    Some(Action::WriteSetBits(model.pins)),
                ),
                _ => (model, Some(Action::GetTime)),
            },
        }
    }

    fn bitplanes(&self) -> (count: usize)
        ensures
            count == self@.durations_us.len(),
    {
        self.durations_us.len()
    }

    /// Begins the pulse of a bitplane: the steps that follow lower the pins,
    /// wait out the bitplane's duration and raise the pins.
    fn send_pulse(&mut self, bitplane: usize)
        ensures
            final(self)@ == Self::spec_send_pulse(old(self)@, bitplane),
    {
        self.phase = TimerPhase::Armed { duration_us: self.durations_us[bitplane] };
    }

    /// Changes nothing: a software-timed pulse is over when its last step
    /// is done.
    fn wait_pulse_finished(&mut self)
        ensures
            final(self)@ == Self::spec_wait_pulse_finished(old(self)@),
    {
    }

    /// The next action of the pulse under way. The wait takes its start
    /// from the first reading of the counter after the pins are low. It
    /// opens with a coarse sleep where the duration is long enough for one,
    /// and goes on reading the counter until a reading lies the duration or
    /// more past the start.
    fn step(&mut self, event: Event) -> (action: Option<Action>)
        ensures
            (final(self)@, action) == Self::spec_step(old(self)@, event),
    {
        match self.phase {
            TimerPhase::Idle => None,
            TimerPhase::Armed { duration_us } => {
                self.phase = TimerPhase::Lowered { duration_us };
                Some(Action::WriteClrBits(self.pins))
            },
            TimerPhase::Lowered { duration_us } => {
                self.phase = TimerPhase::Stamping { duration_us };
                Some(Action::GetTime)
            },
            TimerPhase::Stamping { duration_us } => match event {
                Event::Time(start_time) => {
                    self.phase = TimerPhase::Timing { duration_us, start_time };
                    match coarse_sleep_us(duration_us) {
                        Some(sleep) => Some(Action::Sleep(sleep)),
                        None => Some(Action::GetTime),
                    }
                },
                _ => Some(Action::GetTime),
            },
            TimerPhase::Timing { duration_us, start_time } => match event {
                Event::Time(now) => {
                    if deadline_reached(start_time, duration_us, now) {
                        self.phase = TimerPhase::Idle;
                        Some(Action::WriteSetBits(self.pins))
                    } else {
                        Some(Action::GetTime)
                    }
                },
                _ => Some(Action::GetTime),
            },
        }
    }
}

} // verus!
