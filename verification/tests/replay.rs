use pin_pulser::hardware::PWM_PINS_GPIO12;
use pin_pulser::pin_pulser::replay;
use pin_pulser::{
    Action, Event, GPIOFunction, HardwarePhase, HardwarePinPulser, PinPulser, Pulse,
    TimerBasedPinPulser, TimerPhase,
};

#[test]
fn replay_of_no_events_changes_nothing() {
    let mut pulser = TimerBasedPinPulser::new(&[5000], 8);
    pulser.send_pulse(0);
    assert_eq!(replay(&mut pulser, &[]), vec![]);
    assert_eq!(pulser.phase(), TimerPhase::Armed { duration_us: 5 });
}

#[test]
fn replay_of_a_software_timed_pulse() {
    let mut pulser = TimerBasedPinPulser::new(&[5000, 40_000], 8);
    pulser.send_pulse(0);
    let events = [
        Event::Done,
        Event::Done,
        Event::Time(10),
        Event::Time(12),
        Event::Time(14),
        Event::Time(15),
        Event::Done,
        Event::Time(99),
    ];
    assert_eq!(
        replay(&mut pulser, &events),
        vec![
            Some(Action::WriteClrBits(8)),
            Some(Action::GetTime),
            Some(Action::GetTime),
            Some(Action::GetTime),
            Some(Action::GetTime),
            Some(Action::WriteSetBits(8)),
            None,
            None,
        ]
    );
    assert_eq!(pulser.phase(), TimerPhase::Idle);

    pulser.send_pulse(1);
    let events = [
        Event::Done,
        Event::Done,
        Event::Done,
        Event::Time(100),
        Event::Done,
        Event::Time(139),
        Event::Time(141),
    ];
    assert_eq!(
        replay(&mut pulser, &events),
        vec![
            Some(Action::WriteClrBits(8)),
            Some(Action::GetTime),
            Some(Action::GetTime),
            Some(Action::Sleep(28)),
            Some(Action::GetTime),
            Some(Action::GetTime),
            Some(Action::WriteSetBits(8)),
        ]
    );
}

#[test]
fn replay_of_a_pulse_cut_short() {
    let mut pulser = TimerBasedPinPulser::new(&[5000], 8);
    pulser.send_pulse(0);
    let actions = replay(&mut pulser, &[Event::Done, Event::Done, Event::Time(10)]);
    assert_eq!(
        actions,
        vec![Some(Action::WriteClrBits(8)), Some(Action::GetTime), Some(Action::GetTime)]
    );
    assert_eq!(pulser.phase(), TimerPhase::Timing { duration_us: 5, start_time: 10 });
    let actions = replay(&mut pulser, &[Event::Time(14), Event::Time(16)]);
    assert_eq!(actions, vec![Some(Action::GetTime), Some(Action::WriteSetBits(8))]);
}

#[test]
fn replay_of_set_up_pulse_and_wait() {
    let mut pulser = HardwarePinPulser::new(PWM_PINS_GPIO12, &[1000, 3500]);
    assert_eq!(
        replay(&mut pulser, &[Event::Done; 4]),
        vec![
            Some(Action::SelectFunction(12, GPIOFunction::Alt0)),
            Some(Action::ResetPwm),
            Some(Action::InitPwmDivider(250)),
            None,
        ]
    );

    pulser.send_pulse(1);
    let events = [
        Event::Done,
        Event::Done,
        Event::Done,
        Event::Done,
        Event::Done,
        Event::Time(1000),
        Event::Done,
    ];
    assert_eq!(
        replay(&mut pulser, &events),
        vec![
            Some(Action::SetPwmPulsePeriod(7)),
            Some(Action::PushFifo(7)),
            Some(Action::PushFifo(0)),
            Some(Action::PushFifo(0)),
            Some(Action::GetTime),
            Some(Action::EnablePwm),
            None,
        ]
    );
    assert_eq!(pulser.current_pulse(), Some(Pulse { start_time: 1000, sleep_hint_us: 3 }));

    pulser.wait_pulse_finished();
    let events = [
        Event::Done,
        Event::Time(1001),
        Event::Done,
        Event::FifoEmpty(false),
        Event::Done,
        Event::FifoEmpty(true),
        Event::Done,
    ];
    assert_eq!(
        replay(&mut pulser, &events),
        vec![
            Some(Action::GetTime),
            Some(Action::SleepAtMost(2)),
            Some(Action::FifoEmpty),
            Some(Action::Yield),
            Some(Action::FifoEmpty),
            Some(Action::ResetPwm),
            None,
        ]
    );
    assert_eq!(pulser.current_pulse(), None);
    assert_eq!(pulser.phase(), HardwarePhase::Idle);
}
