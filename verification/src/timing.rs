//! The arithmetic that turns a table of bitplane durations into sleep hints,
//! PWM periods and waiting times.

use vstd::prelude::*;

verus! {

/// Length of one tick of the undivided PWM clock, in nanoseconds.
pub const PWM_BASE_TIME_NS: u32 = 2;

/// Measured latency of the platform's coarse sleep, in microseconds. A coarse
/// sleep is asked to end this much before the deadline.
pub const EMPIRICAL_NANOSLEEP_OVERHEAD_US: u32 = 12;

/// Shortest coarse sleep worth asking for, in microseconds.
pub const MINIMUM_NANOSLEEP_TIME_US: u32 = 5;

/// A period below this many PWM cycles is queued whole; one from here on is
/// queued in fragments.
pub const PERIOD_SPLIT_THRESHOLD: u32 = 16;

/// The number of equal fragments in which a long period is queued.
pub const PERIOD_FRAGMENTS: u32 = 8;

/// The sleep hint of a bitplane: its duration in whole microseconds, rounded
/// down. The hint is an estimate of how long the hardware takes to play the
/// pulse.
pub open spec fn spec_sleep_hint_us(duration_ns: u32) -> u32 {
    (duration_ns / 1000) as u32
}

/// The sleep hint of a bitplane: its duration in whole microseconds, rounded
/// down.
#[verifier::when_used_as_spec(spec_sleep_hint_us)]
pub fn sleep_hint_us(duration_ns: u32) -> (hint: u32)
    ensures
        hint == duration_ns / 1000,
        hint == spec_sleep_hint_us(duration_ns),
{
    duration_ns / 1000
}

/// The duration of a software-timed pulse in microseconds: the bitplane's
/// duration rounded up to whole microseconds, so that a pulse timed by the
/// microsecond counter is never shorter than its bitplane.
pub open spec fn spec_pulse_duration_us(duration_ns: u32) -> u32 {
    if duration_ns % 1000 == 0 {
        (duration_ns / 1000) as u32
    } else {
        (duration_ns / 1000 + 1) as u32
    }
}

/// The duration of a software-timed pulse in microseconds: the bitplane's
/// duration rounded up to whole microseconds.
#[verifier::when_used_as_spec(spec_pulse_duration_us)]
pub fn pulse_duration_us(duration_ns: u32) -> (duration_us: u32)
    ensures
        duration_us == spec_pulse_duration_us(duration_ns),
        duration_us == duration_ns / 1000 + (if duration_ns % 1000 == 0 { 0int } else { 1int }),
{
    let whole: u32 = duration_ns / 1000;
    if duration_ns % 1000 == 0 {
        whole
    } else {
        whole + 1
    }
}

/// The duration of a software-timed pulse is the bitplane's duration rounded
/// up: it is never less than the bitplane's duration, and more by less than
/// one microsecond.
pub proof fn lemma_pulse_duration_rounds_up(duration_ns: u32)
    ensures
        spec_pulse_duration_us(duration_ns) * 1000 >= duration_ns,
        spec_pulse_duration_us(duration_ns) * 1000 < duration_ns + 1000,
        duration_ns % 1000 == 0 ==> spec_pulse_duration_us(duration_ns) * 1000 == duration_ns,
{
}

/// The coarse sleep that opens a software-timed wait of `duration_us`
/// microseconds: the duration less the sleep's own latency, where that leaves
/// a sleep worth asking for, and none otherwise.
pub open spec fn spec_coarse_sleep_us(duration_us: u32) -> Option<u32> {
    if duration_us > EMPIRICAL_NANOSLEEP_OVERHEAD_US + MINIMUM_NANOSLEEP_TIME_US {
        Some((duration_us - EMPIRICAL_NANOSLEEP_OVERHEAD_US) as u32)
    } else {
        None
    }
}

/// The coarse sleep that opens a software-timed wait of `duration_us`
/// microseconds, if there is to be one.
#[verifier::when_used_as_spec(spec_coarse_sleep_us)]
pub fn coarse_sleep_us(duration_us: u32) -> (sleep: Option<u32>)
    ensures
        sleep == spec_coarse_sleep_us(duration_us),
        sleep is Some <==> duration_us > 12 + 5,
        sleep matches Some(us) ==> us == duration_us - 12,
{
    if duration_us > EMPIRICAL_NANOSLEEP_OVERHEAD_US + MINIMUM_NANOSLEEP_TIME_US {
        Some(duration_us - EMPIRICAL_NANOSLEEP_OVERHEAD_US)
    } else {
        None
    }
}

/// Whether a wait of `duration_us` microseconds that began when the counter
/// read `start_time` is over when it reads `now`.
pub open spec fn spec_deadline_reached(start_time: u64, duration_us: u32, now: u64) -> bool {
    start_time + duration_us <= now
}

/// Whether a wait of `duration_us` microseconds that began when the counter
/// read `start_time` is over when it reads `now`.
#[verifier::when_used_as_spec(spec_deadline_reached)]
pub fn deadline_reached(start_time: u64, duration_us: u32, now: u64) -> (reached: bool)
    ensures
        reached == spec_deadline_reached(start_time, duration_us, now),
{
    now >= start_time && now - start_time >= duration_us as u64
}

/// What is left, at counter value `now`, of a wait of `sleep_hint_us`
/// microseconds that began at `start_time`: the hint less the time elapsed,
/// and nothing once the elapsed time has reached the hint. A counter that
/// has not advanced leaves the whole hint.
pub open spec fn spec_remaining_time_us(start_time: u64, sleep_hint_us: u32, now: u64) -> u64 {
    if now <= start_time {
        sleep_hint_us as u64
    } else if now - start_time >= sleep_hint_us {
        0
    } else {
        (sleep_hint_us - (now - start_time)) as u64
    }
}

/// What is left, at counter value `now`, of a wait of `sleep_hint_us`
/// microseconds that began at `start_time`.
#[verifier::when_used_as_spec(spec_remaining_time_us)]
pub fn remaining_time_us(start_time: u64, sleep_hint_us: u32, now: u64) -> (remaining: u64)
    ensures
        remaining == spec_remaining_time_us(start_time, sleep_hint_us, now),
        remaining <= sleep_hint_us,
        now - start_time >= sleep_hint_us ==> remaining == 0,
        0 <= now - start_time < sleep_hint_us ==> remaining == sleep_hint_us - (now - start_time),
{
    let hint: u64 = sleep_hint_us as u64;
    if now <= start_time {
        hint
    } else {
        let already_elapsed_us: u64 = now - start_time;
        if already_elapsed_us >= hint {
            0
        } else {
            hint - already_elapsed_us
        }
    }
}

/// The divider that makes one PWM cycle last half the base duration.
pub open spec fn spec_pwm_divider(time_base_ns: u32) -> u32 {
    ((time_base_ns / 2) / PWM_BASE_TIME_NS) as u32
}

/// The divider of the PWM clock for a timing table whose base duration is
/// `time_base_ns`.
#[verifier::when_used_as_spec(spec_pwm_divider)]
pub fn pwm_divider(time_base_ns: u32) -> (divider: u32)
    ensures
        divider == spec_pwm_divider(time_base_ns),
        divider == (time_base_ns / 2) / 2,
{
    (time_base_ns / 2) / PWM_BASE_TIME_NS
}

/// The number of PWM cycles for which a bitplane of `duration_ns` keeps the
/// output asserted, where the first bitplane lasts `time_base_ns`: twice the
/// ratio of the two, rounded down.
pub open spec fn spec_pulse_period(duration_ns: u32, time_base_ns: u32) -> int {
    (2 * duration_ns) / (time_base_ns as int)
}

/// The number of PWM cycles for which a bitplane of `duration_ns` keeps the
/// output asserted.
pub fn pulse_period(duration_ns: u32, time_base_ns: u32) -> (period: u32)
    requires
        time_base_ns > 0,
        spec_pulse_period(duration_ns, time_base_ns) <= u32::MAX,
    ensures
        period == spec_pulse_period(duration_ns, time_base_ns),
{
    let doubled: u64 = 2 * (duration_ns as u64);
    (doubled / (time_base_ns as u64)) as u32
}

/// Whether a timing table can be played by the PWM peripheral: it has a
/// first entry, which is the base duration and not zero, and the period of
/// every entry fits the period register.
pub open spec fn valid_timings(bitplane_timings_ns: Seq<u32>) -> bool {
    &&& bitplane_timings_ns.len() > 0
    &&& bitplane_timings_ns[0] > 0
    &&& forall|i: int|
        0 <= i < bitplane_timings_ns.len() ==> #[trigger] spec_pulse_period(
            bitplane_timings_ns[i],
            bitplane_timings_ns[0],
        ) <= u32::MAX
}

/// Whether a timing table can be played by the PWM peripheral.
pub fn timings_valid(bitplane_timings_ns: &[u32]) -> (valid: bool)
    ensures
        valid == valid_timings(bitplane_timings_ns@),
{
    if bitplane_timings_ns.len() == 0 {
        return false;
    }
    let time_base: u32 = bitplane_timings_ns[0];
    if time_base == 0 {
        return false;
    }
    let mut i: usize = 0;
    while i < bitplane_timings_ns.len()
        invariant
            i <= bitplane_timings_ns.len(),
            time_base == bitplane_timings_ns[0],
            time_base > 0,
            forall|k: int|
                0 <= k < i ==> #[trigger] spec_pulse_period(
                    bitplane_timings_ns[k],
                    bitplane_timings_ns[0],
                ) <= u32::MAX,
        decreases bitplane_timings_ns.len() - i,
    {
        let doubled: u64 = 2 * (bitplane_timings_ns[i] as u64);
        if doubled / (time_base as u64) > u32::MAX as u64 {
            assert(spec_pulse_period(bitplane_timings_ns[i as int], bitplane_timings_ns[0])
                > u32::MAX);
            return false;
        }
        i += 1;
    }
    true
}

/// The sleep hints of a timing table: the duration of each bitplane in
/// whole microseconds, rounded down.
pub open spec fn sleep_hints(bitplane_timings_ns: Seq<u32>) -> Seq<u32> {
    Seq::new(bitplane_timings_ns.len(), |i: int| spec_sleep_hint_us(bitplane_timings_ns[i]))
}

/// The pulse durations of a timing table: the duration of each bitplane in
/// microseconds, rounded up.
pub open spec fn pulse_durations(bitplane_timings_ns: Seq<u32>) -> Seq<u32> {
    Seq::new(bitplane_timings_ns.len(), |i: int| spec_pulse_duration_us(bitplane_timings_ns[i]))
}

/// The pulse periods of a valid timing table: the period of each bitplane,
/// with the first entry of the table as the base duration.
pub open spec fn pulse_periods(bitplane_timings_ns: Seq<u32>) -> Seq<u32> {
    Seq::new(
        bitplane_timings_ns.len(),
        |i: int| spec_pulse_period(bitplane_timings_ns[i], bitplane_timings_ns[0]) as u32,
    )
}

/// The value of each queue entry that carries a period.
pub open spec fn spec_fifo_entry(period: u32) -> u32 {
    if period < PERIOD_SPLIT_THRESHOLD {
        period
    } else {
        period / PERIOD_FRAGMENTS
    }
}

/// The value of each queue entry that carries a period: the period itself
/// where it is short, and an eighth of it, rounded down, where it is long.
/// The PWM cycle length is set to the same value.
#[verifier::when_used_as_spec(spec_fifo_entry)]
pub fn fifo_entry(period: u32) -> (entry: u32)
    ensures
        entry == spec_fifo_entry(period),
{
    if period < PERIOD_SPLIT_THRESHOLD {
        period
    } else {
        period / PERIOD_FRAGMENTS
    }
}

/// The number of queue entries that carry a period.
pub open spec fn spec_fifo_copies(period: u32) -> usize {
    if period < PERIOD_SPLIT_THRESHOLD {
        1
    } else {
        PERIOD_FRAGMENTS as usize
    }
}

/// The number of queue entries that carry a period: one where it is short,
/// eight where it is long.
#[verifier::when_used_as_spec(spec_fifo_copies)]
pub fn fifo_copies(period: u32) -> (copies: usize)
    ensures
        copies == spec_fifo_copies(period),
{
    if period < PERIOD_SPLIT_THRESHOLD {
        1
    } else {
        PERIOD_FRAGMENTS as usize
    }
}

/// Everything that is queued for one pulse, in order: the entries that carry
/// the period, then two zeros, which hold the output low once the period has
/// been played.
pub open spec fn fifo_load(period: u32) -> Seq<u32> {
    Seq::new(spec_fifo_copies(period) as nat, |i: int| spec_fifo_entry(period)) + seq![0u32, 0u32]
}

/// Whatever the period, what is queued for a pulse ends in two zeros.
/// Before them stands the period alone where it is below sixteen, and eight
/// times its eighth from there on: three entries in all, or ten.
pub proof fn lemma_fifo_load_ends_low(period: u32)
    ensures
        ({
            let load = fifo_load(period);
            let eighth = (period / 8) as u32;
            &&& load.len() >= 2
            &&& load[load.len() - 2] == 0
            &&& load[load.len() - 1] == 0
            &&& period < 16 ==> load == seq![period, 0u32, 0u32]
            &&& period >= 16 ==> load == seq![
                eighth,
                eighth,
                eighth,
                eighth,
                eighth,
                eighth,
                eighth,
                eighth,
                0u32,
                0u32,
            ]
        }),
{
    let load = fifo_load(period);
    let eighth = (period / 8) as u32;
    if period < 16 {
        assert(load =~= seq![period, 0u32, 0u32]);
    } else {
        assert(load =~= seq![
            eighth,
            eighth,
            eighth,
            eighth,
            eighth,
            eighth,
            eighth,
            eighth,
            0u32,
            0u32,
        ]);
    }
}

} // verus!
