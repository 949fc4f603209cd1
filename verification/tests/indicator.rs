use uart_interrupt::indicator::{after, first, idle_for, pulse, IdleOp, Mark, SimLed, PULSE_MS};

#[test]
fn pulse_lasts_one_hundred_milliseconds() {
    assert_eq!(PULSE_MS, 100);
}

#[test]
fn loop_starts_by_waiting() {
    assert_eq!(first(), IdleOp::WaitForEvent);
}

#[test]
fn operations_follow_in_loop_order() {
    assert_eq!(after(IdleOp::WaitForEvent), IdleOp::SetHigh);
    assert_eq!(after(IdleOp::SetHigh), IdleOp::DelayMs(100));
    assert_eq!(after(IdleOp::DelayMs(100)), IdleOp::SetLow);
    assert_eq!(after(IdleOp::SetLow), IdleOp::WaitForEvent);
}

#[test]
fn any_delay_is_followed_by_low() {
    assert_eq!(after(IdleOp::DelayMs(0)), IdleOp::SetLow);
    assert_eq!(after(IdleOp::DelayMs(u32::MAX)), IdleOp::SetLow);
}

#[test]
fn four_operations_make_one_round() {
    let mut op = first();
    let mut seen = Vec::new();
    for _ in 0..8 {
        seen.push(op);
        op = after(op);
    }
    let round = vec![IdleOp::WaitForEvent, IdleOp::SetHigh, IdleOp::DelayMs(100), IdleOp::SetLow];
    assert_eq!(seen[..4], round[..]);
    assert_eq!(seen[4..], round[..]);
    assert_eq!(op, IdleOp::WaitForEvent);
}

#[test]
fn new_indicator_is_low_and_untouched() {
    let led = SimLed::new();
    assert!(!led.is_lit());
    assert!(led.trace().is_empty());
}

#[test]
fn perform_records_each_operation() {
    let mut led = SimLed::new();
    led.perform(IdleOp::WaitForEvent);
    assert!(led.trace().is_empty());
    led.perform(IdleOp::SetHigh);
    assert!(led.is_lit());
    led.perform(IdleOp::DelayMs(5));
    assert!(led.is_lit());
    led.perform(IdleOp::SetLow);
    assert!(!led.is_lit());
    assert_eq!(led.trace(), &vec![Mark::High, Mark::Held(5), Mark::Low]);
}

#[test]
fn one_wake_shows_one_pulse() {
    let mut led = SimLed::new();
    pulse(&mut led);
    assert_eq!(led.trace(), &vec![Mark::High, Mark::Held(100), Mark::Low]);
    assert!(!led.is_lit());
}

#[test]
fn consecutive_wakes_show_consecutive_pulses() {
    let mut led = SimLed::new();
    idle_for(&mut led, 3);
    assert_eq!(
        led.trace(),
        &vec![
            Mark::High,
            Mark::Held(100),
            Mark::Low,
            Mark::High,
            Mark::Held(100),
            Mark::Low,
            Mark::High,
            Mark::Held(100),
            Mark::Low,
        ]
    );
    assert!(!led.is_lit());
}

#[test]
fn no_wake_shows_nothing() {
    let mut led = SimLed::new();
    idle_for(&mut led, 0);
    assert!(led.trace().is_empty());
    assert!(!led.is_lit());
}

#[test]
fn toggles_alternate_over_many_wakes() {
    let mut led = SimLed::new();
    idle_for(&mut led, 50);
    let trace = led.trace();
    assert_eq!(trace.len(), 150);
    for (index, mark) in trace.iter().enumerate() {
        let expected = match index % 3 {
            0 => Mark::High,
            1 => Mark::Held(100),
            _ => Mark::Low,
        };
        assert_eq!(*mark, expected);
    }
}
