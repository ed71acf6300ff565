use pin_pulser::hardware::{pwm_pin, PWM_PINS_GPIO12, PWM_PINS_GPIO18};
use pin_pulser::timing::timings_valid;
use pin_pulser::{
    Action, Event, GPIOFunction, HardwarePhase, HardwarePinPulser, PinPulser, Pulse,
};

/// A PWM peripheral that plays one queue entry between two polls of its
/// queue, and a counter that advances by one microsecond with every reading
/// and by the time asked for with every wait.
struct Board {
    now: u64,
    period: Option<u32>,
    fifo: Vec<u32>,
    enabled: bool,
    resets: usize,
    played: Vec<u32>,
}

fn board(now: u64) -> Board {
    Board { now, period: None, fifo: Vec::new(), enabled: false, resets: 0, played: Vec::new() }
}

fn perform(board: &mut Board, action: Action) -> Event {
    match action {
        Action::SelectFunction(_, _) | Action::InitPwmDivider(_) | Action::Yield => Event::Done,
        Action::ResetPwm => {
            board.fifo.clear();
            board.enabled = false;
            board.resets += 1;
            Event::Done
        }
        Action::SetPwmPulsePeriod(period) => {
            board.period = Some(period);
            Event::Done
        }
        Action::PushFifo(entry) => {
            assert!(!board.enabled);
            board.fifo.push(entry);
            Event::Done
        }
        Action::EnablePwm => {
            board.enabled = true;
            Event::Done
        }
        Action::GetTime => {
            board.now += 1;
            Event::Time(board.now)
        }
        Action::SleepAtMost(us) => {
            board.now += us;
            Event::Done
        }
        Action::FifoEmpty => {
            let empty = board.fifo.is_empty();
            if board.enabled && !empty {
                board.played.push(board.fifo.remove(0));
            }
            Event::FifoEmpty(empty)
        }
        other => panic!("a hardware pulser asked for {:?}", other),
    }
}

fn run(pulser: &mut HardwarePinPulser, board: &mut Board) -> Vec<Action> {
    let mut actions = Vec::new();
    let mut event = Event::Done;
    while let Some(action) = pulser.step(event) {
        assert!(actions.len() < 10_000);
        actions.push(action);
        event = perform(board, action);
    }
    actions
}

/// A pulser that has been set up, for a table whose periods are the entries
/// themselves.
fn pulser_with_periods(periods: &[u32]) -> HardwarePinPulser {
    let mut table = vec![2];
    table.extend_from_slice(periods);
    let mut pulser = HardwarePinPulser::new(PWM_PINS_GPIO18, &table);
    run(&mut pulser, &mut board(0));
    pulser
}

fn pushed(actions: &[Action]) -> Vec<u32> {
    let mut entries = Vec::new();
    for action in actions {
        if let Action::PushFifo(entry) = action {
            entries.push(*entry);
        }
    }
    entries
}

#[test]
fn pin_masks_with_a_pwm_channel() {
    assert_eq!(PWM_PINS_GPIO18, 1 << 18);
    assert_eq!(PWM_PINS_GPIO12, 1 << 12);
    assert_eq!(pwm_pin(1 << 18), Some((18, GPIOFunction::Alt5)));
    assert_eq!(pwm_pin(1 << 12), Some((12, GPIOFunction::Alt0)));
}

#[test]
fn pin_masks_without_a_pwm_channel() {
    assert_eq!(pwm_pin(0), None);
    assert_eq!(pwm_pin(1 << 13), None);
    assert_eq!(pwm_pin(1 << 19), None);
    assert_eq!(pwm_pin((1 << 18) | (1 << 12)), None);
    assert_eq!(pwm_pin(u32::MAX), None);
}

#[test]
fn table_needs_a_base_that_is_not_zero() {
    assert!(!timings_valid(&[]));
    assert!(!timings_valid(&[0]));
    assert!(!timings_valid(&[0, 1000]));
    assert!(timings_valid(&[1]));
    assert!(timings_valid(&[1000, 2000, 4000]));
    assert!(timings_valid(&[1000, 0]));
}

#[test]
fn table_needs_periods_that_fit_the_register() {
    assert!(timings_valid(&[2, u32::MAX]));
    assert!(timings_valid(&[1, 0x7fff_ffff]));
    assert!(!timings_valid(&[1, 0x8000_0000]));
    assert!(!timings_valid(&[1, u32::MAX]));
    assert!(!timings_valid(&[1, 5, 0x8000_0000, 7]));
}

#[test]
fn new_pulser_derives_hints_and_periods() {
    let pulser = HardwarePinPulser::new(PWM_PINS_GPIO18, &[1000, 2000, 4000, 130_999]);
    assert_eq!(pulser.pins(), 1 << 18);
    assert_eq!(pulser.bitplanes(), 4);
    assert_eq!(pulser.current_pulse(), None);
    let hints: Vec<u32> = (0..4).map(|bitplane| pulser.sleep_hint_us(bitplane)).collect();
    let periods: Vec<u32> = (0..4).map(|bitplane| pulser.pulse_period(bitplane)).collect();
    assert_eq!(hints, vec![1, 2, 4, 130]);
    assert_eq!(periods, vec![2, 4, 8, 261]);
}

#[test]
fn new_pulser_sets_up_gpio_18() {
    let mut pulser = HardwarePinPulser::new(PWM_PINS_GPIO18, &[1000, 2000]);
    assert_eq!(
        pulser.phase(),
        HardwarePhase::Unconfigured { pin: 18, function: GPIOFunction::Alt5, divider: 250 }
    );
    assert_eq!(pulser.step(Event::Done), Some(Action::SelectFunction(18, GPIOFunction::Alt5)));
    assert_eq!(pulser.phase(), HardwarePhase::Selected { divider: 250 });
    assert_eq!(pulser.step(Event::Done), Some(Action::ResetPwm));
    assert_eq!(pulser.phase(), HardwarePhase::Cleared { divider: 250 });
    assert_eq!(pulser.step(Event::Done), Some(Action::InitPwmDivider(250)));
    assert_eq!(pulser.phase(), HardwarePhase::Idle);
    assert_eq!(pulser.step(Event::Done), None);
}

#[test]
fn new_pulser_sets_up_gpio_12() {
    let mut pulser = HardwarePinPulser::new(PWM_PINS_GPIO12, &[130, 260]);
    let actions = run(&mut pulser, &mut board(0));
    assert_eq!(
        actions,
        vec![
            Action::SelectFunction(12, GPIOFunction::Alt0),
            Action::ResetPwm,
            Action::InitPwmDivider(32),
        ]
    );
    assert_eq!(pulser.pins(), 1 << 12);
}

#[test]
fn period_of_fifteen_is_queued_whole() {
    let mut pulser = pulser_with_periods(&[15]);
    assert_eq!(pulser.pulse_period(1), 15);
    pulser.send_pulse(1);
    let actions = run(&mut pulser, &mut board(0));
    assert_eq!(actions[0], Action::SetPwmPulsePeriod(15));
    assert_eq!(pushed(&actions), vec![15, 0, 0]);
    assert_eq!(pushed(&actions).len(), 3);
}

#[test]
fn period_of_sixteen_is_queued_in_eight_fragments() {
    let mut pulser = pulser_with_periods(&[16]);
    assert_eq!(pulser.pulse_period(1), 16);
    pulser.send_pulse(1);
    let actions = run(&mut pulser, &mut board(0));
    assert_eq!(actions[0], Action::SetPwmPulsePeriod(2));
    assert_eq!(pushed(&actions), vec![2, 2, 2, 2, 2, 2, 2, 2, 0, 0]);
    assert_eq!(pushed(&actions).len(), 10);
}

#[test]
fn period_of_a_thousand_is_queued_as_eight_times_125() {
    let mut pulser = pulser_with_periods(&[1000]);
    assert_eq!(pulser.pulse_period(1), 1000);
    pulser.send_pulse(1);
    let actions = run(&mut pulser, &mut board(0));
    assert_eq!(
        actions,
        vec![
            Action::SetPwmPulsePeriod(125),
            Action::PushFifo(125),
            Action::PushFifo(125),
            Action::PushFifo(125),
            Action::PushFifo(125),
            Action::PushFifo(125),
            Action::PushFifo(125),
            Action::PushFifo(125),
            Action::PushFifo(125),
            Action::PushFifo(0),
            Action::PushFifo(0),
            Action::GetTime,
            Action::EnablePwm,
        ]
    );
}

#[test]
fn doubling_table_has_periods_two_four_eight() {
    let mut pulser = HardwarePinPulser::new(PWM_PINS_GPIO18, &[1000, 2000, 4000]);
    run(&mut pulser, &mut board(0));
    let mut loads = Vec::new();
    for bitplane in 0..3 {
        pulser.send_pulse(bitplane);
        let actions = run(&mut pulser, &mut board(0));
        loads.push((actions[0], pushed(&actions)));
    }
    assert_eq!(
        loads,
        vec![
            (Action::SetPwmPulsePeriod(2), vec![2, 0, 0]),
            (Action::SetPwmPulsePeriod(4), vec![4, 0, 0]),
            (Action::SetPwmPulsePeriod(8), vec![8, 0, 0]),
        ]
    );
}

#[test]
fn every_load_ends_in_two_zeros() {
    let periods: Vec<u32> = vec![0, 1, 2, 7, 14, 15, 16, 17, 23, 24, 255, 256, 1000, 0x7fff_ffff];
    let mut pulser = pulser_with_periods(&periods);
    for bitplane in 0..pulser.bitplanes() {
        pulser.send_pulse(bitplane);
        let actions = run(&mut pulser, &mut board(0));
        let entries = pushed(&actions);
        let period = pulser.pulse_period(bitplane);
        assert_eq!(entries.len(), if period < 16 { 3 } else { 10 });
        assert_eq!(entries[entries.len() - 2..], [0, 0]);
        let last_push = actions.iter().rposition(|action| matches!(action, Action::PushFifo(_)));
        let enable = actions.iter().position(|action| *action == Action::EnablePwm);
        assert!(last_push.unwrap() < enable.unwrap());
        assert_eq!(enable.unwrap(), actions.len() - 1);
    }
}

#[test]
fn long_period_that_is_no_multiple_of_eight_is_rounded_down() {
    let mut pulser = pulser_with_periods(&[23]);
    pulser.send_pulse(1);
    let actions = run(&mut pulser, &mut board(0));
    assert_eq!(actions[0], Action::SetPwmPulsePeriod(2));
    assert_eq!(pushed(&actions), vec![2, 2, 2, 2, 2, 2, 2, 2, 0, 0]);
}

#[test]
fn send_pulse_records_the_pulse_before_it_enables_the_output() {
    let mut pulser = HardwarePinPulser::new(PWM_PINS_GPIO18, &[1000, 64_000]);
    run(&mut pulser, &mut board(0));
    pulser.send_pulse(1);
    assert_eq!(pulser.phase(), HardwarePhase::Armed { period: 128, sleep_hint_us: 64 });
    for _ in 0..11 {
        pulser.step(Event::Done);
    }
    assert_eq!(
        pulser.phase(),
        HardwarePhase::Loading { period: 128, sleep_hint_us: 64, pushed: 10 }
    );
    assert_eq!(pulser.step(Event::Done), Some(Action::GetTime));
    assert_eq!(pulser.phase(), HardwarePhase::Stamping { sleep_hint_us: 64 });
    assert_eq!(pulser.current_pulse(), None);
    assert_eq!(pulser.step(Event::Time(5000)), Some(Action::EnablePwm));
    assert_eq!(pulser.current_pulse(), Some(Pulse { start_time: 5000, sleep_hint_us: 64 }));
    assert_eq!(pulser.phase(), HardwarePhase::Idle);
    assert_eq!(pulser.step(Event::Done), None);
}

#[test]
fn wait_sleeps_for_the_rest_then_polls_until_the_queue_is_empty() {
    let mut pulser = HardwarePinPulser::new(PWM_PINS_GPIO18, &[1000, 64_000]);
    run(&mut pulser, &mut board(0));
    pulser.send_pulse(1);
    let mut board = board(5000);
    run(&mut pulser, &mut board);
    let start_time = pulser.current_pulse().unwrap().start_time;
    assert_eq!(start_time, 5001);

    board.now += 20;
    pulser.wait_pulse_finished();
    assert_eq!(pulser.current_pulse(), None);
    assert_eq!(
        pulser.phase(),
        HardwarePhase::Waiting { pulse: Pulse { start_time: 5001, sleep_hint_us: 64 } }
    );
    assert_eq!(pulser.step(Event::Done), Some(Action::GetTime));
    assert_eq!(
        pulser.phase(),
        HardwarePhase::Measuring { pulse: Pulse { start_time: 5001, sleep_hint_us: 64 } }
    );
    assert_eq!(pulser.step(Event::Time(5022)), Some(Action::SleepAtMost(43)));
    assert_eq!(pulser.phase(), HardwarePhase::Draining);
    assert_eq!(pulser.step(Event::Done), Some(Action::FifoEmpty));
    assert_eq!(pulser.step(Event::FifoEmpty(false)), Some(Action::Yield));
    assert_eq!(pulser.step(Event::Done), Some(Action::FifoEmpty));
    assert_eq!(pulser.step(Event::FifoEmpty(false)), Some(Action::Yield));
    assert_eq!(pulser.step(Event::Done), Some(Action::FifoEmpty));
    assert_eq!(pulser.phase(), HardwarePhase::Draining);
    assert_eq!(pulser.step(Event::FifoEmpty(true)), Some(Action::ResetPwm));
    assert_eq!(pulser.phase(), HardwarePhase::Idle);
    assert_eq!(pulser.step(Event::Done), None);
}

#[test]
fn wait_plays_the_whole_queue_before_it_resets() {
    let mut pulser = pulser_with_periods(&[3, 64]);
    for (bitplane, load) in [(1, vec![3, 0, 0]), (2, vec![8, 8, 8, 8, 8, 8, 8, 8, 0, 0])] {
        let mut board = board(10);
        pulser.send_pulse(bitplane);
        run(&mut pulser, &mut board);
        assert!(board.enabled);
        assert_eq!(board.fifo, load);
        pulser.wait_pulse_finished();
        let actions = run(&mut pulser, &mut board);
        assert_eq!(board.played, load);
        assert_eq!(board.resets, 1);
        assert!(!board.enabled);
        assert_eq!(actions[actions.len() - 1], Action::ResetPwm);
        assert_eq!(actions.iter().filter(|action| **action == Action::ResetPwm).count(), 1);
    }
}

#[test]
fn wait_asks_for_no_sleep_when_the_pulse_is_overdue() {
    let mut pulser = HardwarePinPulser::new(PWM_PINS_GPIO18, &[1000, 64_000]);
    run(&mut pulser, &mut board(0));
    for (start_time, now) in [(100u64, 164u64), (100, 165), (100, 1_000_000), (0, u64::MAX)] {
        pulser.send_pulse(1);
        for _ in 0..12 {
            pulser.step(Event::Done);
        }
        assert_eq!(pulser.step(Event::Time(start_time)), Some(Action::EnablePwm));
        pulser.wait_pulse_finished();
        assert_eq!(pulser.step(Event::Done), Some(Action::GetTime));
        assert_eq!(pulser.step(Event::Time(now)), Some(Action::SleepAtMost(0)));
        assert_eq!(pulser.step(Event::FifoEmpty(true)), Some(Action::ResetPwm));
    }
}

#[test]
fn wait_asks_for_the_whole_hint_when_no_time_has_passed() {
    let mut pulser = HardwarePinPulser::new(PWM_PINS_GPIO18, &[1000, 64_000]);
    run(&mut pulser, &mut board(0));
    for (start_time, now) in [(100u64, 100u64), (100, 99), (u64::MAX, 3)] {
        pulser.send_pulse(1);
        for _ in 0..12 {
            pulser.step(Event::Done);
        }
        assert_eq!(pulser.step(Event::Time(start_time)), Some(Action::EnablePwm));
        pulser.wait_pulse_finished();
        assert_eq!(pulser.step(Event::Done), Some(Action::GetTime));
        assert_eq!(pulser.step(Event::Time(now)), Some(Action::SleepAtMost(64)));
        assert_eq!(pulser.step(Event::FifoEmpty(true)), Some(Action::ResetPwm));
    }
}

#[test]
fn wait_without_a_pulse_has_nothing_to_do() {
    let mut pulser = pulser_with_periods(&[4]);
    pulser.wait_pulse_finished();
    assert_eq!(pulser.phase(), HardwarePhase::Idle);
    assert_eq!(pulser.step(Event::Done), None);
}

#[test]
fn second_wait_has_nothing_to_do() {
    let mut pulser = pulser_with_periods(&[4]);
    let mut board = board(0);
    pulser.send_pulse(1);
    run(&mut pulser, &mut board);
    pulser.wait_pulse_finished();
    assert!(!run(&mut pulser, &mut board).is_empty());
    assert_eq!(board.resets, 1);
    assert_eq!(pulser.current_pulse(), None);

    pulser.wait_pulse_finished();
    assert_eq!(pulser.phase(), HardwarePhase::Idle);
    assert_eq!(run(&mut pulser, &mut board), vec![]);
    pulser.wait_pulse_finished();
    assert_eq!(pulser.step(Event::Time(9)), None);
    assert_eq!(pulser.step(Event::FifoEmpty(false)), None);
    assert_eq!(board.resets, 1);
}

#[test]
fn wait_begun_twice_is_begun_once() {
    let mut pulser = pulser_with_periods(&[4]);
    pulser.send_pulse(1);
    run(&mut pulser, &mut board(40));
    pulser.wait_pulse_finished();
    let phase = pulser.phase();
    pulser.wait_pulse_finished();
    assert_eq!(pulser.phase(), phase);
    assert_eq!(pulser.current_pulse(), None);
    assert_eq!(pulser.step(Event::Done), Some(Action::GetTime));
}

#[test]
fn second_pulse_without_a_wait_replaces_the_record() {
    let mut pulser = HardwarePinPulser::new(PWM_PINS_GPIO18, &[1000, 7000]);
    run(&mut pulser, &mut board(0));
    pulser.send_pulse(0);
    run(&mut pulser, &mut board(10));
    assert_eq!(pulser.current_pulse(), Some(Pulse { start_time: 11, sleep_hint_us: 1 }));
    pulser.send_pulse(1);
    assert_eq!(pulser.current_pulse(), Some(Pulse { start_time: 11, sleep_hint_us: 1 }));
    run(&mut pulser, &mut board(20));
    assert_eq!(pulser.current_pulse(), Some(Pulse { start_time: 21, sleep_hint_us: 7 }));
}

#[test]
fn answer_that_was_not_asked_for_is_asked_for_again() {
    let mut pulser = pulser_with_periods(&[4]);
    pulser.send_pulse(1);
    for _ in 0..5 {
        pulser.step(Event::Time(1));
    }
    assert_eq!(pulser.phase(), HardwarePhase::Stamping { sleep_hint_us: 0 });
    assert_eq!(pulser.step(Event::Done), Some(Action::GetTime));
    assert_eq!(pulser.step(Event::FifoEmpty(true)), Some(Action::GetTime));
    assert_eq!(pulser.current_pulse(), None);
    assert_eq!(pulser.step(Event::Time(8)), Some(Action::EnablePwm));

    pulser.wait_pulse_finished();
    assert_eq!(pulser.step(Event::Time(8)), Some(Action::GetTime));
    assert_eq!(pulser.step(Event::Done), Some(Action::GetTime));
    assert_eq!(pulser.step(Event::FifoEmpty(true)), Some(Action::GetTime));
    assert_eq!(pulser.step(Event::Time(9)), Some(Action::SleepAtMost(0)));
    assert_eq!(pulser.step(Event::Time(10)), Some(Action::FifoEmpty));
    assert_eq!(pulser.step(Event::FifoEmpty(true)), Some(Action::ResetPwm));
}
