//! The interface that both pulsers offer to the refresh loop, and what a run
//! of a pulser is.

use vstd::prelude::*;
use crate::protocol::{Action, Event};

verus! {

/// A pulser: a state machine that turns pulse requests into register
/// operations and waits, one at a time.
///
/// An operation is begun by [`send_pulse`](PinPulser::send_pulse) or
/// [`wait_pulse_finished`](PinPulser::wait_pulse_finished), or by the
/// construction of a pulser that has registers to set up. The driver then
/// calls [`step`](PinPulser::step) with [`Event::Done`], carries out the
/// action that it is given, calls `step` again with the outcome, and so on
/// until `step` returns `None`: the operation is complete.
///
/// A pulser looks at an event only where it has asked for a reading. An
/// event that is not the reading it has asked for leaves the question
/// standing: the pulser asks again.
pub trait PinPulser: View {
    /// The number of bitplanes in the timing table.
    spec fn spec_bitplanes(model: Self::V) -> nat;

    /// The state in which `send_pulse` leaves a pulser.
    spec fn spec_send_pulse(model: Self::V, bitplane: usize) -> Self::V;

    /// The state in which `wait_pulse_finished` leaves a pulser.
    spec fn spec_wait_pulse_finished(model: Self::V) -> Self::V;

    /// The state in which `step` leaves a pulser, and the action it returns.
    spec fn spec_step(model: Self::V, event: Event) -> (Self::V, Option<Action>);

    /// The number of bitplanes in the timing table.
    fn bitplanes(&self) -> (count: usize)
        ensures
            count == Self::spec_bitplanes(self@),
    ;

    /// Begins the pulse of a bitplane, which must be one of the timing
    /// table. Whatever operation was under way is abandoned.
    fn send_pulse(&mut self, bitplane: usize)
        requires
            bitplane < Self::spec_bitplanes(old(self)@),
        ensures
            final(self)@ == Self::spec_send_pulse(old(self)@, bitplane),
    ;

    /// Begins the wait for the end of the pulse sent last. Where there is
    /// no pulse to wait for, nothing changes.
    fn wait_pulse_finished(&mut self)
        ensures
            final(self)@ == Self::spec_wait_pulse_finished(old(self)@),
    ;

    /// Takes the outcome of the last action and returns the next one, or
    /// `None` when the operation is complete.
    fn step(&mut self, event: Event) -> (action: Option<Action>)
        ensures
            (final(self)@, action) == Self::spec_step(old(self)@, event),
    ;
}

/// The state of a pulser that has been stepped with each of `events` in
/// turn.
pub open spec fn state_after<P: PinPulser>(model: P::V, events: Seq<Event>) -> P::V
    decreases events.len(),
{
    if events.len() == 0 {
        model
    } else {
        P::spec_step(state_after::<P>(model, events.drop_last()), events.last()).0
    }
}

/// The action with which a pulser answers `events[i]`, having been stepped
/// with the events before it.
pub open spec fn action_at<P: PinPulser>(model: P::V, events: Seq<Event>, i: int) -> Option<
    Action,
> {
    P::spec_step(state_after::<P>(model, events.take(i)), events[i]).1
}

/// One more event takes the state one step further.
pub proof fn lemma_state_after_next<P: PinPulser>(model: P::V, events: Seq<Event>, n: int)
    requires
        0 <= n < events.len(),
    ensures
        state_after::<P>(model, events.take(n + 1)) == P::spec_step(
            state_after::<P>(model, events.take(n)),
            events[n],
        ).0,
{
    assert(events.take(n + 1).drop_last() =~= events.take(n));
}

/// Steps a pulser with each of `events` in turn and returns its answers, one
/// for each event.
pub fn replay<P: PinPulser>(pulser: &mut P, events: &[Event]) -> (actions: Vec<Option<Action>>)
    ensures
        final(pulser)@ == state_after::<P>(old(pulser)@, events@),
        actions.len() == events.len(),
        forall|k: int|
            0 <= k < events.len() ==> #[trigger] actions[k] == action_at::<P>(
                old(pulser)@,
                events@,
                k,
            ),
{
    let ghost begun = pulser@;
    let mut actions: Vec<Option<Action>> = Vec::new();
    let mut i: usize = 0;
    assert(events@.take(0) =~= Seq::<Event>::empty());
    while i < events.len()
        invariant
            i <= events.len(),
            pulser@ == state_after::<P>(begun, events@.take(i as int)),
            actions.len() == i,
            forall|k: int|
                0 <= k < i ==> #[trigger] actions[k] == action_at::<P>(begun, events@, k),
        decreases events.len() - i,
    {
        let action = pulser.step(events[i]);
        proof {
            lemma_state_after_next::<P>(begun, events@, i as int);
        }
        actions.push(action);
        i += 1;
    }
    assert(events@.take(events.len() as int) =~= events@);
    actions
}

} // verus!
