use uart_interrupt::startup::{
    advance, banner, begin, can_fail, line_settings, pinout, record, Claim, DataBits, LineSettings,
    Pinout, Stage, StopBits,
};

fn order() -> Vec<Stage> {
    vec![
    Stage::TakeDevice,
    Stage::TakeCore,
    Stage::Watchdog,
    Stage::Clocks,
    Stage::Delay,
    Stage::Pins,
    Stage::EnableUart,
    Stage::UnmaskInterrupt,
    Stage::EnableRxInterrupt,
    Stage::Banner,
    Stage::Publish,
    Stage::Led,
    Stage::Idle,
    ]
}

#[test]
fn bring_up_begins_by_claiming_the_device() {
    assert_eq!(begin(), Stage::TakeDevice);
}

#[test]
fn successful_bring_up_goes_through_every_stage_in_order() {
    let mut stage = begin();
    for expected in order() {
        assert_eq!(stage, expected);
        stage = advance(stage, true);
    }
    assert_eq!(stage, Stage::Idle);
}

#[test]
fn interrupt_is_unmasked_before_the_handle_is_published() {
    let unmask = order().iter().position(|s| *s == Stage::UnmaskInterrupt).unwrap();
    let enable = order().iter().position(|s| *s == Stage::EnableUart).unwrap();
    let publish = order().iter().position(|s| *s == Stage::Publish).unwrap();
    assert!(enable < unmask);
    assert!(unmask < publish);
    assert_eq!(advance(Stage::EnableUart, true), Stage::UnmaskInterrupt);
    assert_eq!(advance(Stage::Banner, true), Stage::Publish);
}

#[test]
fn exactly_four_operations_can_fail() {
    let fallible: Vec<Stage> = order().iter().copied().filter(|s| can_fail(*s)).collect();
    assert_eq!(
        fallible,
        vec![Stage::TakeDevice, Stage::TakeCore, Stage::Clocks, Stage::EnableUart]
    );
    assert!(!can_fail(Stage::Halted));
}

#[test]
fn failed_claim_of_the_device_halts() {
    assert_eq!(advance(Stage::TakeDevice, false), Stage::Halted);
}

#[test]
fn failed_claim_of_the_core_halts() {
    assert_eq!(advance(Stage::TakeCore, false), Stage::Halted);
}

#[test]
fn failed_clock_setup_halts() {
    assert_eq!(advance(Stage::Clocks, false), Stage::Halted);
}

#[test]
fn failed_uart_enable_halts() {
    assert_eq!(advance(Stage::EnableUart, false), Stage::Halted);
}

#[test]
fn infallible_operations_never_halt() {
    for stage in order() {
        if !can_fail(stage) {
            assert_eq!(advance(stage, false), advance(stage, true));
            assert_ne!(advance(stage, false), Stage::Halted);
        }
    }
}

#[test]
fn halted_and_idle_are_final() {
    assert_eq!(advance(Stage::Halted, true), Stage::Halted);
    assert_eq!(advance(Stage::Halted, false), Stage::Halted);
    assert_eq!(advance(Stage::Idle, true), Stage::Idle);
    assert_eq!(advance(Stage::Idle, false), Stage::Idle);
}

#[test]
fn claim_is_granted_once() {
    let mut claim = Claim::new();
    assert!(!claim.is_taken());
    assert!(claim.acquire());
    assert!(claim.is_taken());
    assert!(!claim.acquire());
    assert!(!claim.acquire());
    assert!(claim.is_taken());
}

#[test]
fn second_claim_is_fatal() {
    let mut device = Claim::new();
    let first = device.acquire();
    assert_eq!(advance(Stage::TakeDevice, first), Stage::TakeCore);
    let second = device.acquire();
    assert_eq!(advance(Stage::TakeDevice, second), Stage::Halted);
}

#[test]
fn line_runs_at_9600_baud_8n1() {
    let settings: LineSettings = line_settings();
    assert_eq!(settings.baud, 9600);
    assert_eq!(settings.data_bits, DataBits::Eight);
    assert_eq!(settings.parity, None);
    assert_eq!(settings.stop_bits, StopBits::One);
}

#[test]
fn banner_is_one_line_of_ascii() {
    assert_eq!(banner(), b"uart_interrupt example started...\n");
    assert_eq!(banner().len(), 34);
    assert_eq!(banner().last(), Some(&b'\n'));
    assert!(banner().is_ascii());
    assert_eq!(banner().iter().filter(|b| **b == b'\n').count(), 1);
}

#[test]
fn pins_are_fixed() {
    let pins: Pinout = pinout();
    assert_eq!(pins.tx, 0);
    assert_eq!(pins.rx, 1);
    assert_eq!(pins.led, 25);
    assert_eq!(pins.rx, pins.tx + 1);
}

#[test]
fn operations_recorded_in_turn_reach_the_idle_loop() {
    let mut stage = begin();
    for performed in order() {
        if performed != Stage::Idle {
            stage = record(stage, performed, true);
            assert_ne!(stage, Stage::Halted);
        }
    }
    assert_eq!(stage, Stage::Idle);
}

#[test]
fn operation_out_of_turn_halts() {
    assert_eq!(record(Stage::TakeDevice, Stage::TakeCore, true), Stage::Halted);
    assert_eq!(record(Stage::EnableUart, Stage::UnmaskInterrupt, true), Stage::Halted);
    assert_eq!(record(Stage::UnmaskInterrupt, Stage::Publish, true), Stage::Halted);
    assert_eq!(record(Stage::Banner, Stage::Banner, true), Stage::Publish);
    assert_eq!(record(Stage::Publish, Stage::Banner, true), Stage::Halted);
}

#[test]
fn publishing_before_unmasking_never_reaches_the_idle_loop() {
    let swapped = vec![
        Stage::TakeDevice,
        Stage::TakeCore,
        Stage::Watchdog,
        Stage::Clocks,
        Stage::Delay,
        Stage::Pins,
        Stage::EnableUart,
        Stage::Publish,
        Stage::UnmaskInterrupt,
        Stage::EnableRxInterrupt,
        Stage::Banner,
        Stage::Led,
    ];
    let mut stage = begin();
    for performed in swapped {
        stage = record(stage, performed, true);
    }
    assert_eq!(stage, Stage::Halted);
}

#[test]
fn recorded_failure_halts_where_the_operation_can_fail() {
    assert_eq!(record(Stage::Clocks, Stage::Clocks, false), Stage::Halted);
    assert_eq!(record(Stage::Clocks, Stage::Clocks, true), Stage::Delay);
    assert_eq!(record(Stage::Delay, Stage::Delay, false), Stage::Pins);
    assert_eq!(record(Stage::Halted, Stage::Halted, true), Stage::Halted);
    assert_eq!(record(Stage::Idle, Stage::Idle, true), Stage::Idle);
    assert_eq!(record(Stage::Idle, Stage::Led, true), Stage::Halted);
}
