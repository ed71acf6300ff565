//! What holds of every run of a pulser, whatever its driver reports.
//!
//! A run is a pulser's answers to a sequence of events: see
//! [`state_after`](crate::pin_pulser::state_after) and
//! [`action_at`](crate::pin_pulser::action_at). `events[0]` is what the
//! first call of `step` is handed after an operation has begun, and
//! `events[k + 1]` is the driver's report on the action that answered
//! `events[k]`. The events are arbitrary, so that each statement here holds
//! of every board and every driver.

pub mod hardware;
pub mod timer_based;
