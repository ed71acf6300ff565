//! Pulse timing for the output-enable pins of an LED matrix driven by binary
//! code modulation.
//!
//! A pulser turns the request "assert the pins for the duration of bitplane
//! `n`" into register operations and waits, and later makes sure that the
//! pulse is over. It never touches a register itself: it is a state machine
//! that hands out one [`Action`] at a time and is told the outcome as an
//! [`Event`]. Every decision about what happens next is made here; the
//! driver that owns the registers only carries it out.
//!
//! There are two pulsers behind one interface, [`PinPulser`]:
//! [`TimerBasedPinPulser`] drives the pins itself and times the pulse against
//! the microsecond counter, and [`HardwarePinPulser`] has the PWM peripheral
//! play the pulse while the processor is free for other work.
//!
//! [`timing`] holds the arithmetic on durations and periods, [`protocol`] the
//! actions and events, and [`laws`] what is proved of every run of a pulser.

#![allow(unused_imports)]

pub mod hardware;
pub mod laws;
pub mod pin_pulser;
pub mod protocol;
pub mod timer_based;
pub mod timing;

pub use hardware::{HardwareModel, HardwarePhase, HardwarePinPulser, Pulse};
pub use pin_pulser::PinPulser;
pub use protocol::{Action, Event, GPIOFunction};
pub use timer_based::{TimerBasedPinPulser, TimerModel, TimerPhase};
