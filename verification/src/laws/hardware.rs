//! What holds of every run of the hardware pulser.

use vstd::prelude::*;
use crate::hardware::{spec_pwm_pin, HardwareModel, HardwarePhase, HardwarePinPulser, Pulse};
use crate::pin_pulser::{action_at, lemma_state_after_next, state_after, PinPulser};
use crate::protocol::{Action, Event};
use crate::timing::{fifo_entry, fifo_load, pwm_divider, remaining_time_us, valid_timings};

verus! {

/// The action that answers `events[k]` after construction: the pin is given
/// its alternate function, the peripheral is reset, the clock divider is
/// set, and nothing is left to do.
pub open spec fn setup_action(pins: u32, time_base_ns: u32, k: int) -> Option<Action> {
    if k == 0 {
        match spec_pwm_pin(pins) {
            Some((pin, function)) => Some(Action::SelectFunction(pin, function)),
            None => None,
        }
    } else if k == 1 {
        Some(Action::ResetPwm)
    } else if k == 2 {
        Some(Action::InitPwmDivider(pwm_divider(time_base_ns)))
    } else {
        None
    }
}

/// Where the set-up stands after `n` events.
proof fn lemma_setup_progress(pins: u32, bitplane_timings_ns: Seq<u32>, events: Seq<Event>, n: int)
    requires
        spec_pwm_pin(pins) is Some,
        0 <= n <= events.len(),
    ensures
        ({
            let built = HardwarePinPulser::spec_new(pins, bitplane_timings_ns);
            let state = state_after::<HardwarePinPulser>(built, events.take(n));
            let divider = pwm_divider(bitplane_timings_ns[0]);
            &&& state == HardwareModel { phase: state.phase, ..built }
            &&& match state.phase {
                HardwarePhase::Unconfigured { .. } => n == 0 && state.phase == built.phase,
                HardwarePhase::Selected { divider: d } => n == 1 && d == divider,
                HardwarePhase::Cleared { divider: d } => n == 2 && d == divider,
                HardwarePhase::Idle => n >= 3,
                _ => false,
            }
        }),
    decreases n,
{
    let built = HardwarePinPulser::spec_new(pins, bitplane_timings_ns);
    if n == 0 {
        assert(events.take(0) =~= Seq::<Event>::empty());
    } else {
        lemma_setup_progress(pins, bitplane_timings_ns, events, n - 1);
        lemma_state_after_next::<HardwarePinPulser>(built, events, n - 1);
    }
}

/// A new pulser sets up the pin, the peripheral and its clock, in this
/// order.
///
/// Take a new pulser for a pin with a PWM channel and a valid timing table,
/// and step it with any events. Its first three actions give the pin the
/// alternate function that carries the PWM channel, reset the peripheral,
/// and set the clock divider that belongs to the table's base duration.
/// Then it is at rest, with its hints and periods as it was built and no
/// pulse in flight.
pub proof fn lemma_new_sets_up(pins: u32, bitplane_timings_ns: Seq<u32>, events: Seq<Event>)
    requires
        spec_pwm_pin(pins) is Some,
        valid_timings(bitplane_timings_ns),
    ensures
        forall|k: int|
            0 <= k < events.len() ==> #[trigger] action_at::<HardwarePinPulser>(
                HardwarePinPulser::spec_new(pins, bitplane_timings_ns),
                events,
                k,
            ) == setup_action(pins, bitplane_timings_ns[0], k),
        events.len() >= 3 ==> state_after::<HardwarePinPulser>(
            HardwarePinPulser::spec_new(pins, bitplane_timings_ns),
            events,
        ) == (HardwareModel {
            phase: HardwarePhase::Idle,
            ..HardwarePinPulser::spec_new(pins, bitplane_timings_ns)
        }),
{
    let built = HardwarePinPulser::spec_new(pins, bitplane_timings_ns);
    assert forall|k: int| 0 <= k < events.len() implies #[trigger] action_at::<HardwarePinPulser>(
        built,
        events,
        k,
    ) == setup_action(pins, bitplane_timings_ns[0], k) by {
        lemma_setup_progress(pins, bitplane_timings_ns, events, k);
    }
    lemma_setup_progress(pins, bitplane_timings_ns, events, events.len() as int);
    assert(events.take(events.len() as int) =~= events);
}

/// Whether `events[i]` is the reading that becomes the start time of a
/// pulse of `period` cycles: the first reading handed in once the queue is
/// loaded and the counter has been asked for.
pub open spec fn send_window(events: Seq<Event>, period: u32, i: int) -> bool {
    &&& fifo_load(period).len() + 2 <= i < events.len()
    &&& events[i] is Time
    &&& forall|k: int| fifo_load(period).len() + 2 <= k < i ==> !(#[trigger] events[k] is Time)
}

/// The action that answers `events[k]` when a pulse of `period` cycles is
/// sent and `events[i]` becomes its start time: the cycle length is set to
/// the value of a period entry; [`fifo_load`] is queued entry by entry; the
/// counter is read, again and again until a reading is handed in; the
/// output is enabled; and nothing is left to do.
pub open spec fn send_action(period: u32, i: int, k: int) -> Option<Action> {
    if k == 0 {
        Some(Action::SetPwmPulsePeriod(fifo_entry(period)))
    } else if k <= fifo_load(period).len() {
        Some(Action::PushFifo(fifo_load(period)[k - 1]))
    } else if k < i {
        Some(Action::GetTime)
    } else if k == i {
        Some(Action::EnablePwm)
    } else {
        None
    }
}

/// Whether the pulse of a bitplane, stepped with `events`, takes `events[i]`
/// for its start time, answers every event as [`send_action`] says, and
/// leaves the pulser at rest with the record of the pulse.
pub open spec fn send_runs(
    model: HardwareModel,
    bitplane: usize,
    events: Seq<Event>,
    i: int,
) -> bool {
    let sent = HardwarePinPulser::spec_send_pulse(model, bitplane);
    let period = model.pulse_periods[bitplane as int];
    &&& send_window(events, period, i)
    &&& forall|k: int|
        0 <= k < events.len() ==> #[trigger] action_at::<HardwarePinPulser>(sent, events, k)
            == send_action(period, i, k)
    &&& state_after::<HardwarePinPulser>(sent, events) == (HardwareModel {
        current_pulse: Some(
            Pulse {
                start_time: events[i]->Time_0,
                sleep_hint_us: model.sleep_hints_us[bitplane as int],
            },
        ),
        phase: HardwarePhase::Idle,
        ..model
    })
}

/// Where the pulse of a bitplane stands after `n` events, and what it has
/// done so far. The result is the index of the reading that became the
/// pulse's start time, if it is among the first `n` events, and an index
/// past them otherwise.
proof fn lemma_send_progress(
    model: HardwareModel,
    bitplane: usize,
    events: Seq<Event>,
    n: int,
) -> (i: int)
    requires
        model.wf(),
        bitplane < model.sleep_hints_us.len(),
        0 <= n <= events.len(),
    ensures
        ({
            let sent = HardwarePinPulser::spec_send_pulse(model, bitplane);
            let state = state_after::<HardwarePinPulser>(sent, events.take(n));
            let period = model.pulse_periods[bitplane as int];
            let hint = model.sleep_hints_us[bitplane as int];
            let loaded = fifo_load(period).len() + 2;
            &&& loaded <= i
            &&& forall|k: int|
                0 <= k < n ==> #[trigger] action_at::<HardwarePinPulser>(sent, events, k)
                    == send_action(period, i, k)
            &&& forall|k: int| loaded <= k < i && k < n ==> !(#[trigger] events[k] is Time)
            &&& match state.phase {
                HardwarePhase::Armed { .. } => {
                    &&& n == 0
                    &&& state == sent
                },
                HardwarePhase::Loading { .. } => {
                    &&& 1 <= n < loaded
                    &&& state == HardwareModel {
                        phase: HardwarePhase::Loading {
                            period,
                            sleep_hint_us: hint,
                            pushed: (n - 1) as usize,
                        },
                        ..model
                    }
                },
                HardwarePhase::Stamping { .. } => {
                    &&& loaded <= n <= i
                    &&& state == HardwareModel {
                        phase: HardwarePhase::Stamping { sleep_hint_us: hint },
                        ..model
                    }
                },
                HardwarePhase::Idle => {
                    &&& i < n
                    &&& events[i] matches Event::Time(start_time)
                    &&& state == HardwareModel {
                        current_pulse: Some(Pulse { start_time, sleep_hint_us: hint }),
                        phase: HardwarePhase::Idle,
                        ..model
                    }
                },
                _ => false,
            }
        }),
    decreases n,
{
    let sent = HardwarePinPulser::spec_send_pulse(model, bitplane);
    let loaded = fifo_load(model.pulse_periods[bitplane as int]).len() as int + 2;
    if n == 0 {
        assert(events.take(0) =~= Seq::<Event>::empty());
        loaded
    } else {
        let i = lemma_send_progress(model, bitplane, events, n - 1);
        lemma_state_after_next::<HardwarePinPulser>(sent, events, n - 1);
        let before = state_after::<HardwarePinPulser>(sent, events.take(n - 1));
        match before.phase {
            HardwarePhase::Stamping { .. } => if events[n - 1] is Time {
                n - 1
            } else {
                n
            },
            HardwarePhase::Idle => i,
            _ => if n < loaded {
                loaded
            } else {
                n
            },
        }
    }
}

/// A pulse is queued whole, closed with two zeros, before anything else
/// happens.
///
/// Take a valid pulser in any state, begin the pulse of a bitplane and step
/// it with any events. The first action sets the cycle length to the value
/// of a period entry. The next ones queue [`fifo_load`] of the bitplane's
/// period, entry by entry, so that two zeros are queued last. Then the
/// counter is read, and from there on nothing is queued: the pulser reads
/// the counter again, enables the output in answer to a reading, or has
/// nothing left to do.
pub proof fn lemma_send_loads_queue(
    model: HardwareModel,
    bitplane: usize,
    events: Seq<Event>,
    k: int,
)
    requires
        model.wf(),
        bitplane < model.sleep_hints_us.len(),
        0 <= k < events.len(),
    ensures
        ({
            let period = model.pulse_periods[bitplane as int];
            let load = fifo_load(period);
            let action = action_at::<HardwarePinPulser>(
                HardwarePinPulser::spec_send_pulse(model, bitplane),
                events,
                k,
            );
            &&& k == 0 ==> action == Some(Action::SetPwmPulsePeriod(fifo_entry(period)))
            &&& 1 <= k <= load.len() ==> action == Some(Action::PushFifo(load[k - 1]))
            &&& k == load.len() + 1 ==> action == Some(Action::GetTime)
            &&& k > load.len() + 1 ==> {
                ||| action == Some(Action::GetTime)
                ||| action == Some(Action::EnablePwm) && events[k] is Time
                ||| action is None
            }
        }),
{
    lemma_send_progress(model, bitplane, events, k + 1);
}

/// A pulse that has been enabled is on record.
///
/// Take a valid pulser in any state, begin the pulse of a bitplane and step
/// it with any events. If the action that answers `events[i]` enables the
/// output, the whole run is known. The cycle length was set and the queue
/// loaded first. `events[i]` is the first reading of the counter that was
/// handed in after that, and the pulser has asked for readings until it
/// came: it has asked for no wait. After `events[i]` the pulser asks for
/// nothing. It is left at rest, with a record of the pulse that holds the
/// reading `events[i]` and the bitplane's duration in microseconds.
pub proof fn lemma_send_records_pulse(
    model: HardwareModel,
    bitplane: usize,
    events: Seq<Event>,
    i: int,
)
    requires
        model.wf(),
        bitplane < model.sleep_hints_us.len(),
        0 <= i < events.len(),
        action_at::<HardwarePinPulser>(
            HardwarePinPulser::spec_send_pulse(model, bitplane),
            events,
            i,
        ) == Some(Action::EnablePwm),
    ensures
        send_runs(model, bitplane, events, i),
{
    lemma_send_progress(model, bitplane, events, events.len() as int);
    assert(events.take(events.len() as int) =~= events);
}

/// A pulse is enabled with the first reading of the counter.
///
/// Take a valid pulser in any state, begin the pulse of a bitplane and step
/// it with events among which there is a reading of the counter after the
/// queue has been loaded and the counter asked for: let `events[i]` be the
/// first. Then the pulse runs as [`send_runs`] says: the pulser enables the
/// output in answer to `events[i]` and is left at rest with the record of
/// the pulse.
pub proof fn lemma_send_enables(model: HardwareModel, bitplane: usize, events: Seq<Event>, i: int)
    requires
        model.wf(),
        bitplane < model.sleep_hints_us.len(),
        send_window(events, model.pulse_periods[bitplane as int], i),
    ensures
        send_runs(model, bitplane, events, i),
{
    lemma_send_progress(model, bitplane, events, events.len() as int);
    assert(events.take(events.len() as int) =~= events);
}

/// Whether, in the wait for a pulse, `events[j]` is the reading by which
/// the rest of the pulse is estimated and `events[i]` the report that ends
/// the wait: `events[j]` is the first reading handed in once the counter
/// has been asked for, and `events[i]` is the first report after it that
/// the queue is empty.
pub open spec fn wait_window(events: Seq<Event>, j: int, i: int) -> bool {
    &&& 1 <= j < i < events.len()
    &&& events[j] is Time
    &&& events[i] == Event::FifoEmpty(true)
    &&& forall|k: int| 1 <= k < j ==> !(#[trigger] events[k] is Time)
    &&& forall|k: int| j < k < i ==> #[trigger] events[k] != Event::FifoEmpty(true)
}

/// The action that answers `events[k]` in the wait for `pulse`, where
/// `events[j]` is the reading by which the rest of the pulse is estimated
/// and `events[i]` the report that ends the wait: the counter is read, again
/// and again until a reading is handed in; the reading is answered by a
/// coarse wait for what is then left of the pulse's expected duration; from
/// there on the queue is polled, with a yield after every report that it is
/// not empty; the report that it is empty is answered by the reset of the
/// peripheral; and nothing is left to do.
pub open spec fn wait_action(pulse: Pulse, events: Seq<Event>, j: int, i: int, k: int) -> Option<
    Action,
> {
    if k < j {
        Some(Action::GetTime)
    } else if k == j {
        Some(
            Action::SleepAtMost(
                remaining_time_us(pulse.start_time, pulse.sleep_hint_us, events[j]->Time_0),
            ),
        )
    } else if k < i {
        if events[k] == Event::FifoEmpty(false) {
            Some(Action::Yield)
        } else {
            Some(Action::FifoEmpty)
        }
    } else if k == i {
        Some(Action::ResetPwm)
    } else {
        None
    }
}

/// Whether the wait for the pulse in flight, stepped with `events`, takes
/// `events[j]` for its estimate, ends with `events[i]`, answers every event
/// as [`wait_action`] says, and leaves the pulser at rest with no pulse in
/// flight.
pub open spec fn wait_runs(model: HardwareModel, events: Seq<Event>, j: int, i: int) -> bool {
    let waiting = HardwarePinPulser::spec_wait_pulse_finished(model);
    &&& model.current_pulse is Some
    &&& wait_window(events, j, i)
    &&& forall|k: int|
        0 <= k < events.len() ==> #[trigger] action_at::<HardwarePinPulser>(waiting, events, k)
            == wait_action(model.current_pulse->0, events, j, i, k)
    &&& state_after::<HardwarePinPulser>(waiting, events) == (HardwareModel {
        current_pulse: None,
        phase: HardwarePhase::Idle,
        ..model
    })
}

/// Where the wait for the pulse in flight stands after `n` events, and what
/// it has done so far. The result holds the index of the reading by which
/// the rest of the pulse is estimated and of the report that ends the wait,
/// as far as they are among the first `n` events, and indices past them
/// otherwise.
proof fn lemma_wait_progress(model: HardwareModel, events: Seq<Event>, n: int) -> (window: (
    int,
    int,
))
    requires
        model.current_pulse is Some,
        0 <= n <= events.len(),
    ensures
        ({
            let waiting = HardwarePinPulser::spec_wait_pulse_finished(model);
            let state = state_after::<HardwarePinPulser>(waiting, events.take(n));
            let in_flight = model.current_pulse->0;
            let (j, i) = window;
            &&& 1 <= j < i
            &&& forall|k: int|
                0 <= k < n ==> #[trigger] action_at::<HardwarePinPulser>(waiting, events, k)
                    == wait_action(in_flight, events, j, i, k)
            &&& forall|k: int| 1 <= k < j && k < n ==> !(#[trigger] events[k] is Time)
            &&& forall|k: int|
                j < k < i && k < n ==> #[trigger] events[k] != Event::FifoEmpty(true)
            &&& state == HardwareModel { current_pulse: None, phase: state.phase, ..model }
            &&& match state.phase {
                HardwarePhase::Waiting { pulse } => n == 0 && pulse == in_flight,
                HardwarePhase::Measuring { pulse } => 1 <= n <= j && pulse == in_flight,
                HardwarePhase::Draining => j < n <= i && events[j] is Time,
                HardwarePhase::Idle => i < n && wait_window(events, j, i),
                _ => false,
            }
        }),
    decreases n,
{
    let waiting = HardwarePinPulser::spec_wait_pulse_finished(model);
    if n == 0 {
        assert(events.take(0) =~= Seq::<Event>::empty());
        (1, 2)
    } else {
        let (j, i) = lemma_wait_progress(model, events, n - 1);
        lemma_state_after_next::<HardwarePinPulser>(waiting, events, n - 1);
        let before = state_after::<HardwarePinPulser>(waiting, events.take(n - 1));
        match before.phase {
            HardwarePhase::Waiting { .. } => (1, 2),
            HardwarePhase::Measuring { .. } => if events[n - 1] is Time {
                (n - 1, n)
            } else {
                (n, n + 1)
            },
            HardwarePhase::Draining => if events[n - 1] == Event::FifoEmpty(true) {
                (j, n - 1)
            } else {
                (j, n)
            },
            _ => (j, i),
        }
    }
}

/// The peripheral is reset only when the queue has been seen empty.
///
/// Take a pulser with a pulse in flight, begin the wait for it and step it
/// with any events. If the action that answers `events[i]` resets the
/// peripheral, the whole wait is known. `events[i]` is the report that the
/// queue is empty, and the first such report since the queue has been
/// polled. Before that the pulser has read the counter and asked, in answer
/// to the first reading handed in, for a coarse wait of what was then left
/// of the pulse's expected duration: nothing, where the counter was already
/// past it. From there on it has polled the queue and yielded. After
/// `events[i]` it asks for nothing: it is left at rest with no pulse in
/// flight.
pub proof fn lemma_reset_follows_drain(model: HardwareModel, events: Seq<Event>, i: int)
    requires
        model.current_pulse is Some,
        0 <= i < events.len(),
        action_at::<HardwarePinPulser>(
            HardwarePinPulser::spec_wait_pulse_finished(model),
            events,
            i,
        ) == Some(Action::ResetPwm),
    ensures
        exists|j: int| #[trigger] wait_runs(model, events, j, i),
{
    let (j, end) = lemma_wait_progress(model, events, events.len() as int);
    assert(events.take(events.len() as int) =~= events);
    assert(wait_runs(model, events, j, i));
}

/// A wait ends with the first report that the queue is empty.
///
/// Take a pulser with a pulse in flight, begin the wait for it and step it
/// with events among which there is a reading of the counter, after the
/// counter has been asked for, and later a report that the queue is empty:
/// let `events[j]` be the first reading and `events[i]` the first such
/// report after it. Then the wait runs as [`wait_runs`] says: the pulser
/// resets the peripheral in answer to `events[i]`, and not before, and is
/// left at rest.
pub proof fn lemma_wait_ends(model: HardwareModel, events: Seq<Event>, j: int, i: int)
    requires
        model.current_pulse is Some,
        wait_window(events, j, i),
    ensures
        wait_runs(model, events, j, i),
{
    lemma_wait_progress(model, events, events.len() as int);
    assert(events.take(events.len() as int) =~= events);
}

/// Whether a pulser has no pulse in flight and is at rest or within a wait.
spec fn settled(state: HardwareModel) -> bool {
    &&& state.current_pulse is None
    &&& match state.phase {
        HardwarePhase::Idle => true,
        HardwarePhase::Waiting { .. } => true,
        HardwarePhase::Measuring { .. } => true,
        HardwarePhase::Draining => true,
        _ => false,
    }
}

/// No step of a wait puts a pulse in flight or begins another operation.
proof fn lemma_wait_stays_settled(state: HardwareModel, events: Seq<Event>)
    requires
        settled(state),
    ensures
        settled(state_after::<HardwarePinPulser>(state, events)),
    decreases events.len(),
{
    if events.len() > 0 {
        lemma_wait_stays_settled(state, events.drop_last());
    }
}

/// A second wait has nothing to do.
///
/// Take a pulser at rest, begin a wait and step it with events that bring
/// it to rest again. Then no pulse is in flight: to begin another wait
/// changes nothing, and the first step of it asks for no action.
pub proof fn lemma_wait_twice(model: HardwareModel, events: Seq<Event>, event: Event)
    requires
        model.phase is Idle,
        state_after::<HardwarePinPulser>(
            HardwarePinPulser::spec_wait_pulse_finished(model),
            events,
        ).phase is Idle,
    ensures
        ({
            let rested = state_after::<HardwarePinPulser>(
                HardwarePinPulser::spec_wait_pulse_finished(model),
                events,
            );
            &&& rested.current_pulse is None
            &&& HardwarePinPulser::spec_wait_pulse_finished(rested) == rested
            &&& HardwarePinPulser::spec_step(rested, event) == (rested, None::<Action>)
        }),
{
    lemma_wait_stays_settled(HardwarePinPulser::spec_wait_pulse_finished(model), events);
}

/// A wait without a pulse in flight has nothing to do.
///
/// Take a pulser at rest with no pulse in flight. To begin a wait changes
/// nothing, and the first step of it asks for no action.
pub proof fn lemma_wait_without_pulse(model: HardwareModel, event: Event)
    requires
        model.phase is Idle,
        model.current_pulse is None,
    ensures
        HardwarePinPulser::spec_wait_pulse_finished(model) == model,
        HardwarePinPulser::spec_step(model, event) == (model, None::<Action>),
{
}

/// To begin a wait twice is to begin it once.
pub proof fn lemma_wait_idempotent(model: HardwareModel)
    ensures
        HardwarePinPulser::spec_wait_pulse_finished(
            HardwarePinPulser::spec_wait_pulse_finished(model),
        ) == HardwarePinPulser::spec_wait_pulse_finished(model),
{
}

} // verus!
