//! What holds of every run of the software-timed pulser.

use vstd::prelude::*;
use crate::pin_pulser::{action_at, lemma_state_after_next, state_after, PinPulser};
use crate::protocol::{Action, Event};
use crate::timer_based::{TimerBasedPinPulser, TimerModel, TimerPhase};
use crate::timing::{coarse_sleep_us, lemma_pulse_duration_rounds_up, pulse_durations};

verus! {

/// Whether `events[j]` is the reading with which the wait of a pulse begins
/// and `events[i]` the reading with which it ends: `events[j]` is the first
/// reading handed in once the pins are low and the counter has been asked
/// for, and `events[i]` is the first reading after it that lies
/// `duration_us` microseconds or more past it.
pub open spec fn pulse_window(events: Seq<Event>, duration_us: u32, j: int, i: int) -> bool {
    &&& 2 <= j < i < events.len()
    &&& events[j] matches Event::Time(start_time)
    &&& events[i] matches Event::Time(end_time)
    &&& start_time + duration_us <= end_time
    &&& forall|k: int| 2 <= k < j ==> !(#[trigger] events[k] is Time)
    &&& forall|k: int|
        j < k < i ==> !(#[trigger] events[k] matches Event::Time(now) && start_time + duration_us
            <= now)
}

/// Whether `events[j]` and `events[i]` are readings of the microsecond
/// counter that lie at least `duration_ns` nanoseconds apart.
pub open spec fn readings_apart_ns(events: Seq<Event>, j: int, i: int, duration_ns: u32) -> bool {
    &&& events[j] matches Event::Time(start_time)
    &&& events[i] matches Event::Time(end_time)
    &&& (end_time - start_time) * 1000 >= duration_ns
}

/// The action that answers `events[k]` in a pulse whose wait begins with
/// `events[j]` and ends with `events[i]`: the pins are lowered first and
/// raised last; the reading that begins the wait is answered by the coarse
/// sleep, where the duration calls for one; everything else in between is
/// answered by a reading of the counter; and nothing is left to do after the
/// end.
pub open spec fn pulse_action(pins: u32, duration_us: u32, j: int, i: int, k: int) -> Option<
    Action,
> {
    if k == 0 {
        Some(Action::WriteClrBits(pins))
    } else if k == j && coarse_sleep_us(duration_us) is Some {
        Some(Action::Sleep(coarse_sleep_us(duration_us)->0))
    } else if k < i {
        Some(Action::GetTime)
    } else if k == i {
        Some(Action::WriteSetBits(pins))
    } else {
        None
    }
}

/// Whether the pulse of a bitplane, stepped with `events`, begins its wait
/// with `events[j]`, ends it with `events[i]`, answers every event as
/// [`pulse_action`] says, and leaves the pulser at rest.
pub open spec fn pulse_runs(
    model: TimerModel,
    bitplane: usize,
    events: Seq<Event>,
    j: int,
    i: int,
) -> bool {
    let sent = TimerBasedPinPulser::spec_send_pulse(model, bitplane);
    let duration_us = model.durations_us[bitplane as int];
    &&& pulse_window(events, duration_us, j, i)
    &&& forall|k: int|
        0 <= k < events.len() ==> #[trigger] action_at::<TimerBasedPinPulser>(sent, events, k)
            == pulse_action(model.pins, duration_us, j, i, k)
    &&& state_after::<TimerBasedPinPulser>(sent, events) == (TimerModel {
        phase: TimerPhase::Idle,
        ..model
    })
}

/// Where the pulse of a bitplane stands after `n` events, and what it has
/// done so far. The result holds the index of the reading that begins the
/// wait and of the reading that ends it, as far as they are among the first
/// `n` events, and indices past them otherwise.
proof fn lemma_pulse_progress(
    model: TimerModel,
    bitplane: usize,
    events: Seq<Event>,
    n: int,
) -> (window: (int, int))
    requires
        bitplane < model.durations_us.len(),
        0 <= n <= events.len(),
    ensures
        ({
            let sent = TimerBasedPinPulser::spec_send_pulse(model, bitplane);
            let state = state_after::<TimerBasedPinPulser>(sent, events.take(n));
            let duration = model.durations_us[bitplane as int];
            let (j, i) = window;
            &&& state == TimerModel { phase: state.phase, ..model }
            &&& 2 <= j < i
            &&& forall|k: int|
                0 <= k < n ==> #[trigger] action_at::<TimerBasedPinPulser>(sent, events, k)
                    == pulse_action(model.pins, duration, j, i, k)
            &&& forall|k: int| 2 <= k < j && k < n ==> !(#[trigger] events[k] is Time)
            &&& match state.phase {
                TimerPhase::Armed { duration_us } => n == 0 && duration_us == duration,
                TimerPhase::Lowered { duration_us } => n == 1 && duration_us == duration,
                TimerPhase::Stamping { duration_us } => {
                    &&& duration_us == duration
                    &&& 2 <= n <= j
                },
                TimerPhase::Timing { duration_us, start_time } => {
                    &&& duration_us == duration
                    &&& j < n <= i
                    &&& events[j] == Event::Time(start_time)
                    &&& forall|k: int|
                        j < k < n ==> !(#[trigger] events[k] matches Event::Time(now) && start_time
                            + duration <= now)
                },
                TimerPhase::Idle => i < n && pulse_window(events, duration, j, i),
            }
        }),
    decreases n,
{
    let sent = TimerBasedPinPulser::spec_send_pulse(model, bitplane);
    if n == 0 {
        assert(events.take(0) =~= Seq::<Event>::empty());
        (2, 3)
    } else {
        let (j, i) = lemma_pulse_progress(model, bitplane, events, n - 1);
        lemma_state_after_next::<TimerBasedPinPulser>(sent, events, n - 1);
        let before = state_after::<TimerBasedPinPulser>(sent, events.take(n - 1));
        match before.phase {
            TimerPhase::Armed { .. } => (2, 3),
            TimerPhase::Lowered { .. } => (2, 3),
            TimerPhase::Stamping { .. } => if events[n - 1] is Time {
                (n - 1, n)
            } else {
                (n, n + 1)
            },
            TimerPhase::Timing { duration_us, start_time } => if events[n - 1] matches Event::Time(
                now,
            ) && start_time + duration_us <= now {
                (j, n - 1)
            } else {
                (j, n)
            },
            TimerPhase::Idle => (j, i),
        }
    }
}

/// A software-timed pulse lasts at least as long as its duration in
/// microseconds, and no longer than it takes to notice.
///
/// Take a pulser in any state, begin the pulse of a bitplane and step it
/// with any events. If the action that answers `events[i]` raises the pins,
/// the whole pulse is known. The first action has lowered the pins. The wait
/// began with the first reading of the counter that was handed in after
/// that, `events[j]`, and `events[i]` is the first reading after it that
/// lies the pulse's duration or more past it. In between the pulser has
/// asked for the coarse sleep once, in answer to `events[j]` and only where
/// the duration calls for one, and for readings of the counter otherwise.
/// After `events[i]` it asks for nothing: it is left at rest.
pub proof fn lemma_pulse_lasts(model: TimerModel, bitplane: usize, events: Seq<Event>, i: int)
    requires
        bitplane < model.durations_us.len(),
        0 <= i < events.len(),
        action_at::<TimerBasedPinPulser>(
            TimerBasedPinPulser::spec_send_pulse(model, bitplane),
            events,
            i,
        ) matches Some(Action::WriteSetBits(_)),
    ensures
        exists|j: int| #[trigger] pulse_runs(model, bitplane, events, j, i),
{
    let (j, end) = lemma_pulse_progress(model, bitplane, events, events.len() as int);
    assert(events.take(events.len() as int) =~= events);
    assert(pulse_runs(model, bitplane, events, j, i));
}

/// A software-timed pulse ends with the first reading that is past its
/// duration.
///
/// Take a pulser in any state, begin the pulse of a bitplane and step it
/// with events among which there is a reading of the counter, after the
/// pins have been lowered and the counter asked for, and later a reading
/// that lies the pulse's duration or more past the first of these: let
/// `events[j]` be the first reading and `events[i]` the first that lies so
/// far past it. Then the pulse runs as [`pulse_runs`] says: the pulser
/// raises the pins in answer to `events[i]`, and not before.
pub proof fn lemma_pulse_ends(
    model: TimerModel,
    bitplane: usize,
    events: Seq<Event>,
    j: int,
    i: int,
)
    requires
        bitplane < model.durations_us.len(),
        pulse_window(events, model.durations_us[bitplane as int], j, i),
    ensures
        pulse_runs(model, bitplane, events, j, i),
{
    lemma_pulse_progress(model, bitplane, events, events.len() as int);
    assert(events.take(events.len() as int) =~= events);
}

/// A software-timed pulse lasts at least as long as the table says.
///
/// Take a pulser for a timing table, in any state, begin the pulse of a
/// bitplane and step it with any events. If the action that answers
/// `events[i]` raises the pins, then `events[i]` is a reading of the
/// counter, and before it, after the pins were lowered, the pulser was
/// handed a reading that lies at least the table's duration in nanoseconds
/// before it.
pub proof fn lemma_pulse_lasts_table_duration(
    model: TimerModel,
    bitplane_timings_ns: Seq<u32>,
    bitplane: usize,
    events: Seq<Event>,
    i: int,
)
    requires
        model.durations_us == pulse_durations(bitplane_timings_ns),
        bitplane < bitplane_timings_ns.len(),
        0 <= i < events.len(),
        action_at::<TimerBasedPinPulser>(
            TimerBasedPinPulser::spec_send_pulse(model, bitplane),
            events,
            i,
        ) matches Some(Action::WriteSetBits(_)),
    ensures
        exists|j: int|
            2 <= j < i && #[trigger] readings_apart_ns(
                events,
                j,
                i,
                bitplane_timings_ns[bitplane as int],
            ),
{
    lemma_pulse_lasts(model, bitplane, events, i);
    let j = choose|j: int| #[trigger] pulse_runs(model, bitplane, events, j, i);
    lemma_pulse_duration_rounds_up(bitplane_timings_ns[bitplane as int]);
    assert(readings_apart_ns(events, j, i, bitplane_timings_ns[bitplane as int]));
}

/// A pulser at rest stays at rest, whatever it is told.
proof fn lemma_rest_stays(model: TimerModel, events: Seq<Event>)
    requires
        model.phase is Idle,
    ensures
        state_after::<TimerBasedPinPulser>(model, events) == model,
    decreases events.len(),
{
    if events.len() > 0 {
        lemma_rest_stays(model, events.drop_last());
    }
}

/// A wait has nothing to do, and so has a second one.
///
/// Take a pulser at rest, begin a wait and step it with any events. The
/// pulser is as it was: to begin another wait changes nothing, and the first
/// step of it asks for no action.
pub proof fn lemma_wait_twice(model: TimerModel, events: Seq<Event>, event: Event)
    requires
        model.phase is Idle,
    ensures
        ({
            let rested = state_after::<TimerBasedPinPulser>(
                TimerBasedPinPulser::spec_wait_pulse_finished(model),
                events,
            );
            &&& rested == model
            &&& TimerBasedPinPulser::spec_wait_pulse_finished(rested) == rested
            &&& TimerBasedPinPulser::spec_step(rested, event) == (rested, None::<Action>)
        }),
{
    lemma_rest_stays(model, events);
}

} // verus!
