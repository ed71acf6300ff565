//! The vocabulary shared by a pulser and the driver that owns the registers.

use vstd::prelude::*;

verus! {

/// An alternate function of a GPIO pin that routes the PWM channel to it.
#[derive(Clone, Copy, PartialEq, Eq, Debug)]
pub enum GPIOFunction {
    Alt0,
    Alt5,
}

/// One register operation, or one wait, that a pulser asks its driver to
/// carry out.
#[derive(Clone, Copy, PartialEq, Eq, Debug)]
pub enum Action {
    /// Drive the masked pins low.
    WriteClrBits(u32),
    /// Drive the masked pins high.
    WriteSetBits(u32),
    /// Give a pin, named by its number, an alternate function.
    SelectFunction(u8, GPIOFunction),
    /// Stop the PWM output, clear its queue and leave the peripheral idle.
    ResetPwm,
    /// Set the divider of the PWM clock.
    InitPwmDivider(u32),
    /// Set the cycle length, in ticks, by which queue entries are read.
    SetPwmPulsePeriod(u32),
    /// Append one entry to the PWM queue.
    PushFifo(u32),
    /// Start draining the PWM queue.
    EnablePwm,
    /// Read the microsecond counter; answered by [`Event::Time`].
    GetTime,
    /// Sleep coarsely for the given number of microseconds. The sleep may
    /// overrun.
    Sleep(u32),
    /// Wait for at most the given number of microseconds. The wait may end
    /// early.
    SleepAtMost(u64),
    /// Ask whether the PWM queue has drained; answered by
    /// [`Event::FifoEmpty`].
    FifoEmpty,
    /// Give the processor to another thread for a moment.
    Yield,
}

/// What the driver reports back after carrying out an [`Action`].
#[derive(Clone, Copy, PartialEq, Eq, Debug)]
pub enum Event {
    /// The action is done and had nothing to report. Also what the driver
    /// passes to obtain the first action of an operation.
    Done,
    /// The value of the microsecond counter.
    Time(u64),
    /// Whether the PWM queue is empty.
    FifoEmpty(bool),
}

} // verus!
