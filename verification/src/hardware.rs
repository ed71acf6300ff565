//! The PWM pulser: queue the bitplane's period in the PWM peripheral, let
//! the hardware play it, and later wait until the queue has drained.

use vstd::prelude::*;
use crate::pin_pulser::PinPulser;
use crate::protocol::{Action, Event, GPIOFunction};
use crate::timing::{
    fifo_copies, fifo_entry, fifo_load, pulse_period, pulse_periods, pwm_divider,
    remaining_time_us, sleep_hint_us, sleep_hints, valid_timings,
};

verus! {

/// The pin mask of GPIO 18, which carries the PWM channel as its function 5.
pub const PWM_PINS_GPIO18: u32 = 0x0004_0000;

/// The pin mask of GPIO 12, which carries the PWM channel as its function 0.
pub const PWM_PINS_GPIO12: u32 = 0x0000_1000;

/// The pin behind a pin mask and the function that routes the PWM channel to
/// it, for the two masks that name a pin with a PWM channel.
pub open spec fn spec_pwm_pin(pins: u32) -> Option<(u8, GPIOFunction)> {
    if pins == PWM_PINS_GPIO18 {
        Some((18u8, GPIOFunction::Alt5))
    } else if pins == PWM_PINS_GPIO12 {
        Some((12u8, GPIOFunction::Alt0))
    } else {
        None
    }
}

/// The pin behind a pin mask and the function that routes the PWM channel to
/// it, or `None` where the mask is not that of one pin with a PWM channel.
#[verifier::when_used_as_spec(spec_pwm_pin)]
pub fn pwm_pin(pins: u32) -> (pin: Option<(u8, GPIOFunction)>)
    ensures
        pin == spec_pwm_pin(pins),
{
    if pins == PWM_PINS_GPIO18 {
        Some((18u8, GPIOFunction::Alt5))
    } else if pins == PWM_PINS_GPIO12 {
        Some((12u8, GPIOFunction::Alt0))
    } else {
        None
    }
}

/// The record of the pulse that the hardware is playing.
#[derive(Clone, Copy, PartialEq, Eq, Debug)]
pub struct Pulse {
    /// The value of the counter when the pulse was issued.
    pub start_time: u64,
    /// The expected duration of the pulse in microseconds.
    pub sleep_hint_us: u32,
}

/// How far the operation under way on a [`HardwarePinPulser`] has come.
#[derive(Clone, Copy, PartialEq, Eq, Debug)]
pub enum HardwarePhase {
    /// No operation is under way.
    Idle,
    /// The pulser was constructed; no register has been touched.
    Unconfigured { pin: u8, function: GPIOFunction, divider: u32 },
    /// The pin has its alternate function.
    Selected { divider: u32 },
    /// The peripheral has been reset for the first time.
    Cleared { divider: u32 },
    /// A pulse was requested; nothing is queued.
    Armed { period: u32, sleep_hint_us: u32 },
    /// The cycle length is set and `pushed` entries are queued.
    Loading { period: u32, sleep_hint_us: u32, pushed: usize },
    /// The queue is loaded and the counter is being read.
    Stamping { sleep_hint_us: u32 },
    /// The wait for a pulse was requested.
    Waiting { pulse: Pulse },
    /// The counter is being read to see how much of the pulse is left.
    Measuring { pulse: Pulse },
    /// The estimated rest of the pulse has been waited out, or is being; the
    /// queue is polled until it is empty.
    Draining,
}

/// The mathematical state of a [`HardwarePinPulser`].
pub struct HardwareModel {
    /// The sleep hint of each bitplane: its duration in whole microseconds,
    /// rounded down.
    pub sleep_hints_us: Seq<u32>,
    /// The period of each bitplane in PWM cycles.
    pub pulse_periods: Seq<u32>,
    /// The pulse in flight, from the moment it is enabled until a wait for
    /// it begins.
    pub current_pulse: Option<Pulse>,
    /// The pin that is pulsed.
    pub pins: u32,
    /// How far the operation under way has come.
    pub phase: HardwarePhase,
}

impl HardwareModel {
    /// The pin is one with a PWM channel, and every bitplane has a sleep
    /// hint and a period.
    pub open spec fn wf(self) -> bool {
        &&& spec_pwm_pin(self.pins) is Some
        &&& self.sleep_hints_us.len() == self.pulse_periods.len()
    }
}

/// Hardware pulser: loads the pulse length into the PWM queue and lets the
/// peripheral strobe the pin.
pub struct HardwarePinPulser {
    sleep_hints_us: Vec<u32>,
    pulse_periods: Vec<u32>,
    current_pulse: Option<Pulse>,
    pins: u32,
    phase: HardwarePhase,
}

impl View for HardwarePinPulser {
    type V = HardwareModel;

    closed spec fn view(&self) -> HardwareModel {
        HardwareModel {
            sleep_hints_us: self.sleep_hints_us@,
            pulse_periods: self.pulse_periods@,
            current_pulse: self.current_pulse,
            pins: self.pins,
            phase: self.phase,
        }
    }
}

impl HardwarePinPulser {
    /// Every pulser is well formed, at all times.
    #[verifier::type_invariant]
    pub open spec fn wf(self) -> bool {
        self@.wf()
    }

    /// The state of a new pulser.
    pub open spec fn spec_new(pins: u32, bitplane_timings_ns: Seq<u32>) -> HardwareModel
        recommends
            spec_pwm_pin(pins) is Some,
            valid_timings(bitplane_timings_ns),
    {
        HardwareModel {
            sleep_hints_us: sleep_hints(bitplane_timings_ns),
            pulse_periods: pulse_periods(bitplane_timings_ns),
            current_pulse: None,
            pins,
            phase: match spec_pwm_pin(pins) {
                Some((pin, function)) => HardwarePhase::Unconfigured {
                    pin,
                    function,
                    divider: pwm_divider(bitplane_timings_ns[0]),
                },
                None => HardwarePhase::Idle,
            },
        }
    }

    /// A pulser for the PWM pin `pins`, with one bitplane for each entry of
    /// the table of durations, whose first entry is the base duration. The
    /// pin mask must be that of a pin with a PWM channel, and the table one
    /// that the peripheral can play.
    ///
    /// The pulser has no pulse in flight. It starts out with the set-up of
    /// the pin, the peripheral and its clock to step through: the pin is
    /// given its alternate function, the peripheral is reset, and the clock
    /// divider is set from the base duration. The set-up is an operation
    /// like any other: step the pulser to the end of it before the first
    /// pulse is sent, for a pulse that is begun earlier takes its place.
    pub fn new(pins: u32, bitplane_timings_ns: &[u32]) -> (pulser: Self)
        requires
            spec_pwm_pin(pins) is Some,
            valid_timings(bitplane_timings_ns@),
        ensures
            pulser@ == Self::spec_new(pins, bitplane_timings_ns@),
            pulser@.wf(),
    {
        let time_base: u32 = bitplane_timings_ns[0];
        let mut hints: Vec<u32> = Vec::new();
        let mut periods: Vec<u32> = Vec::new();
        let mut i: usize = 0;
        while i < bitplane_timings_ns.len()
            invariant
                i <= bitplane_timings_ns.len(),
                valid_timings(bitplane_timings_ns@),
                time_base == bitplane_timings_ns[0],
                hints@ == sleep_hints(bitplane_timings_ns@).take(i as int),
                periods@ == pulse_periods(bitplane_timings_ns@).take(i as int),
            decreases bitplane_timings_ns.len() - i,
        {
            let timing: u32 = bitplane_timings_ns[i];
            hints.push(sleep_hint_us(timing));
            periods.push(pulse_period(timing, time_base));
            i += 1;
        }
        assert(hints@ == sleep_hints(bitplane_timings_ns@));
        assert(periods@ == pulse_periods(bitplane_timings_ns@));
        let (pin, function) = pwm_pin(pins).unwrap();
        Self {
            sleep_hints_us: hints,
            pulse_periods: periods,
            current_pulse: None,
            pins,
            phase: HardwarePhase::Unconfigured { pin, function, divider: pwm_divider(time_base) },
        }
    }

    /// The pin that is pulsed.
    pub fn pins(&self) -> (pins: u32)
        ensures
            pins == self@.pins,
    {
        self.pins
    }

    /// The sleep hint of a bitplane in microseconds.
    pub fn sleep_hint_us(&self, bitplane: usize) -> (hint: u32)
        requires
            bitplane < self@.sleep_hints_us.len(),
        ensures
            hint == self@.sleep_hints_us[bitplane as int],
    {
        self.sleep_hints_us[bitplane]
    }

    /// The period of a bitplane in PWM cycles.
    pub fn pulse_period(&self, bitplane: usize) -> (period: u32)
        requires
            bitplane < self@.sleep_hints_us.len(),
        ensures
            period == self@.pulse_periods[bitplane as int],
    {
        proof {
            use_type_invariant(self);
        }
        self.pulse_periods[bitplane]
    }

    /// The record of the pulse in flight, if there is one.
    pub fn current_pulse(&self) -> (pulse: Option<Pulse>)
        ensures
            pulse == self@.current_pulse,
    {
        self.current_pulse
    }

    /// How far the operation under way has come.
    pub fn phase(&self) -> (phase: HardwarePhase)
        ensures
            phase == self@.phase,
    {
        self.phase
    }
}

impl PinPulser for HardwarePinPulser {
    open spec fn spec_bitplanes(model: HardwareModel) -> nat {
        model.sleep_hints_us.len()
    }

    open spec fn spec_send_pulse(model: HardwareModel, bitplane: usize) -> HardwareModel {
        HardwareModel {
            phase: HardwarePhase::Armed {
                period: model.pulse_periods[bitplane as int],
                sleep_hint_us: model.sleep_hints_us[bitplane as int],
            },
            ..model
        }
    }

    open spec fn spec_wait_pulse_finished(model: HardwareModel) -> HardwareModel {
        match model.current_pulse {
            Some(pulse) => HardwareModel {
                current_pulse: None,
                phase: HardwarePhase::Waiting { pulse },
                ..model
            },
            None => model,
        }
    }

    open spec fn spec_step(model: HardwareModel, event: Event) -> (HardwareModel, Option<Action>) {
        match model.phase {
            HardwarePhase::Idle => (model, None),
            HardwarePhase::Unconfigured { pin, function, divider } => (
                HardwareModel { phase: HardwarePhase::Selected { divider }, ..model },
                Some(Action::SelectFunction(pin, function)),
            ),
            HardwarePhase::Selected { divider } => (
                HardwareModel { phase: HardwarePhase::Cleared { divider }, ..model },
                Some(Action::ResetPwm),
            ),
            HardwarePhase::Cleared { divider } => (
                HardwareModel { phase: HardwarePhase::Idle, ..model },
                Some(Action::InitPwmDivider(divider)),
            ),
            HardwarePhase::Armed { period, sleep_hint_us } => (
                HardwareModel {
                    phase: HardwarePhase::Loading { period, sleep_hint_us, pushed: 0 },
                    ..model
                },
                Some(Action::SetPwmPulsePeriod(fifo_entry(period))),
            ),
            HardwarePhase::Loading { period, sleep_hint_us, pushed } => {
                if pushed < fifo_load(period).len() {
                    (
                        HardwareModel {
                            phase: HardwarePhase::Loading {
                                period,
                                sleep_hint_us,
                                pushed: (pushed + 1) as usize,
                            },
                            ..model
                        },
                        Some(Action::PushFifo(fifo_load(period)[pushed as int])),
                    )
                } else {
                    (
                        HardwareModel { phase: HardwarePhase::Stamping { sleep_hint_us }, ..model },
                        Some(Action::GetTime),
                    )
                }
            },
            HardwarePhase::Stamping { sleep_hint_us } => match event {
                Event::Time(start_time) => (
                    HardwareModel {
                        current_pulse: Some(Pulse { start_time, sleep_hint_us }),
                        phase: HardwarePhase::Idle,
                        ..model
                    },
                    Some(Action::EnablePwm),
                ),
                _ => (model, Some(Action::GetTime)),
            },
            HardwarePhase::Waiting { pulse } => (
                HardwareModel { phase: HardwarePhase::Measuring { pulse }, ..model },
                Some(Action::GetTime),
            ),
            HardwarePhase::Measuring { pulse } => match event {
                Event::Time(now) => (
                    HardwareModel { phase: HardwarePhase::Draining, ..model },
                    Some(
                        Action::SleepAtMost(
                            remaining_time_us(pulse.start_time, pulse.sleep_hint_us, now),
                        ),
                    ),
                ),
                _ => (model, Some(Action::GetTime)),
            },
            HardwarePhase::Draining => match event {
                Event::FifoEmpty(true) => (
                    HardwareModel { phase: HardwarePhase::Idle, ..model },
                    Some(Action::ResetPwm),
                ),
                Event::FifoEmpty(false) => (model, Some(Action::Yield)),
                _ => (model, Some(Action::FifoEmpty)),
            },
        }
    }

    fn bitplanes(&self) -> (count: usize)
        ensures
            count == self@.sleep_hints_us.len(),
    {
        self.sleep_hints_us.len()
    }

    /// Begins the pulse of a bitplane: the steps that follow load the queue
    /// with the bitplane's period, record the pulse and enable the output.
    /// The record of an earlier pulse that was not waited for is replaced
    /// when they do.
    fn send_pulse(&mut self, bitplane: usize)
        ensures
            final(self)@ == Self::spec_send_pulse(old(self)@, bitplane),
    {
        proof {
            use_type_invariant(&*self);
        }
        self.phase = HardwarePhase::Armed {
            period: self.pulse_periods[bitplane],
            sleep_hint_us: self.sleep_hints_us[bitplane],
        };
    }

    /// Begins the wait for the pulse in flight and takes its record.
    /// Where no pulse is in flight, nothing changes.
    fn wait_pulse_finished(&mut self)
        ensures
            final(self)@ == Self::spec_wait_pulse_finished(old(self)@),
    {
        proof {
            use_type_invariant(&*self);
        }
        match self.current_pulse {
            Some(pulse) => {
                self.current_pulse = None;
                self.phase = HardwarePhase::Waiting { pulse };
            },
            None => {},
        }
    }

    /// The next action of the operation under way.
    ///
    /// A pulse is sent by setting the cycle length, queueing the period,
    /// whole or in eight fragments, and two zeros after it, reading the
    /// counter for the record of the pulse, and enabling the output.
    ///
    /// A pulse is waited for by reading the counter, waiting coarsely for
    /// what is left of the pulse's expected duration, and polling the queue,
    /// with a yield after every poll that finds it in use, until it is
    /// empty. Then the peripheral is reset.
    fn step(&mut self, event: Event) -> (action: Option<Action>)
        ensures
            (final(self)@, action) == Self::spec_step(old(self)@, event),
    {
        proof {
            use_type_invariant(&*self);
        }
        match self.phase {
            HardwarePhase::Idle => None,
            HardwarePhase::Unconfigured { pin, function, divider } => {
                self.phase = HardwarePhase::Selected { divider };
                Some(Action::SelectFunction(pin, function))
            },
            HardwarePhase::Selected { divider } => {
                self.phase = HardwarePhase::Cleared { divider };
                Some(Action::ResetPwm)
            },
            HardwarePhase::Cleared { divider } => {
                self.phase = HardwarePhase::Idle;
                Some(Action::InitPwmDivider(divider))
            },
            HardwarePhase::Armed { period, sleep_hint_us } => {
                self.phase = HardwarePhase::Loading { period, sleep_hint_us, pushed: 0 };
                Some(Action::SetPwmPulsePeriod(fifo_entry(period)))
            },
            HardwarePhase::Loading { period, sleep_hint_us, pushed } => {
                let copies: usize = fifo_copies(period);
                if pushed < copies + 2 {
                    let entry: u32 = if pushed < copies {
                        fifo_entry(period)
                    } else {
                        0
                    };
                    let queued: usize = pushed + 1;
                    self.phase = HardwarePhase::Loading { period, sleep_hint_us, pushed: queued };
                    Some(Action::PushFifo(entry))
                } else {
                    self.phase = HardwarePhase::Stamping { sleep_hint_us };
                    Some(Action::GetTime)
                }
            },
            HardwarePhase::Stamping { sleep_hint_us } => match event {
                Event::Time(start_time) => {
                    self.current_pulse = Some(Pulse { start_time, sleep_hint_us });
                    self.phase = HardwarePhase::Idle;
                    Some(Action::EnablePwm)
                },
                _ => Some(Action::GetTime),
            },
            HardwarePhase::Waiting { pulse } => {
                self.phase = HardwarePhase::Measuring { pulse };
                Some(Action::GetTime)
            },
            HardwarePhase::Measuring { pulse } => match event {
                Event::Time(now) => {
                    self.phase = HardwarePhase::Draining;
                    Some(
                        Action::SleepAtMost(
                            remaining_time_us(pulse.start_time, pulse.sleep_hint_us, now),
                        ),
                    )
                },
                _ => Some(Action::GetTime),
            },
            HardwarePhase::Draining => match event {
                Event::FifoEmpty(empty) => {
                    if empty {
                        self.phase = HardwarePhase::Idle;
                        Some(Action::ResetPwm)
                    } else {
                        Some(Action::Yield)
                    }
                },
                _ => Some(Action::FifoEmpty),
            },
        }
    }
}

} // verus!
