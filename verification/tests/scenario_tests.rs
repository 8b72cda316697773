use firmware_core::control_loop::{all_distinct, startup, BoardConfig};
use firmware_core::handshake::{
    BusHandle, ControlLines, DelaySource, HandshakeError, Phase, Polarity, SpiMode, RESET_HOLD_MS,
};
use firmware_core::interrupt_line::TriggerEdge;
use firmware_core::machine::MachineEvent;

fn test_config(initial_period_ms: u16) -> BoardConfig {
    BoardConfig {
        led_pin: 5,
        button_pin: 13,
        sck_pin: 3,
        miso_pin: 4,
        mosi_pin: 6,
        cs_pin: 10,
        boot_pin: 2,
        reset_pin: 8,
        ack_pin: 11,
        spi_mode: SpiMode {
            polarity: Polarity::IdleLow,
            phase: Phase::CaptureOnFirstTransition,
        },
        spi_clock_hz: 8_000_000,
        line_id: 13,
        trigger_edge: TriggerEdge::Rising,
        irq_priority: 1,
        initial_period_ms,
    }
}

fn idle_lines() -> ControlLines {
    ControlLines {
        reset_asserted: false,
        cs_asserted: false,
    }
}

fn bus_for(cfg: &BoardConfig) -> BusHandle {
    BusHandle {
        clock_hz: cfg.spi_clock_hz,
        mode: cfg.spi_mode,
    }
}

#[test]
fn one_trigger_halves_the_next_wait() {
    // Initial period 1000 ms; one interrupt trigger makes it 500 ms, and
    // the foreground loop's next wait uses 500 ms.
    let cfg = test_config(1000);
    let samples = vec![true];
    let mut delay = DelaySource::new();
    let mut sys = startup(&cfg, bus_for(&cfg), idle_lines(), &samples, true, &mut delay).unwrap();
    let startup_waited = delay.total_waited();
    sys.machine.step(MachineEvent::Edge);
    let waited = sys.loop_iteration(&mut delay);
    assert_eq!(waited, 500);
    assert_eq!(delay.total_waited(), startup_waited + 500);
}

#[test]
fn ready_after_reset_release_attaches_in_one_poll() {
    // The simulator asserts ready right after the reset release: the
    // handshake returns a valid session within one polling cycle, fit to
    // hand to the driver module.
    let cfg = test_config(1000);
    let samples = vec![true];
    let mut delay = DelaySource::new();
    let sys = startup(&cfg, bus_for(&cfg), idle_lines(), &samples, true, &mut delay).unwrap();
    assert_eq!(sys.session.polls_used, 1);
    assert_eq!(sys.session.bus, bus_for(&cfg));
    assert!(!sys.session.lines.reset_asserted);
    assert!(!sys.session.lines.cs_asserted);
    assert_eq!(delay.total_waited(), RESET_HOLD_MS as u64);
}

#[test]
fn startup_propagates_a_handshake_timeout() {
    let cfg = test_config(1000);
    let samples: Vec<bool> = Vec::new();
    let mut delay = DelaySource::new();
    let r = startup(&cfg, bus_for(&cfg), idle_lines(), &samples, true, &mut delay);
    match r {
        Err(e) => assert_eq!(e, HandshakeError::ReadyTimeout),
        Ok(_) => panic!("expected a timeout"),
    }
}

#[test]
fn startup_propagates_a_bus_error() {
    let cfg = test_config(1000);
    let samples = vec![true];
    let mut delay = DelaySource::new();
    let r = startup(&cfg, bus_for(&cfg), idle_lines(), &samples, false, &mut delay);
    match r {
        Err(e) => assert_eq!(e, HandshakeError::BusError),
        Ok(_) => panic!("expected a bus error"),
    }
}

#[test]
fn foreground_waits_follow_the_shrinking_period() {
    let cfg = test_config(1000);
    let samples = vec![true];
    let mut delay = DelaySource::new();
    let mut sys = startup(&cfg, bus_for(&cfg), idle_lines(), &samples, true, &mut delay).unwrap();
    assert_eq!(sys.loop_iteration(&mut delay), 1000);
    sys.machine.step(MachineEvent::Edge);
    assert_eq!(sys.loop_iteration(&mut delay), 500);
    sys.machine.step(MachineEvent::Edge);
    sys.machine.step(MachineEvent::Edge);
    assert_eq!(sys.loop_iteration(&mut delay), 125);
}

#[test]
fn distinct_pins_pass_validation() {
    let cfg = test_config(1000);
    assert!(cfg.validate());
}

#[test]
fn a_doubly_used_pin_fails_validation() {
    let mut cfg = test_config(1000);
    cfg.ack_pin = cfg.led_pin;
    assert!(!cfg.validate());
}

#[test]
fn a_zero_initial_period_fails_validation() {
    let cfg = test_config(0);
    assert!(!cfg.validate());
}

#[test]
fn all_distinct_on_samples() {
    assert!(all_distinct(&vec![1, 2, 3, 4]));
    assert!(!all_distinct(&vec![1, 2, 3, 1]));
    assert!(all_distinct(&Vec::new()));
    assert!(all_distinct(&vec![7]));
    assert!(!all_distinct(&vec![5, 5]));
}
