use firmware_core::handshake::{
    establish, BusHandle, ControlLines, DelaySource, HandshakeError, Phase, Polarity, SpiMode,
    MAX_READY_POLLS, POLL_INTERVAL_MS, RESET_HOLD_MS,
};

fn test_bus() -> BusHandle {
    BusHandle {
        clock_hz: 8_000_000,
        mode: SpiMode {
            polarity: Polarity::IdleLow,
            phase: Phase::CaptureOnFirstTransition,
        },
    }
}

fn idle_lines() -> ControlLines {
    ControlLines {
        reset_asserted: false,
        cs_asserted: false,
    }
}

#[test]
fn delay_source_accounts_waits() {
    let mut delay = DelaySource::new();
    assert_eq!(delay.total_waited(), 0);
    delay.wait(5);
    assert_eq!(delay.total_waited(), 5);
    delay.wait(7);
    assert_eq!(delay.total_waited(), 12);
}

#[test]
fn never_ready_times_out_within_bound() {
    // A co-processor that never raises the busy/ack line: the handshake
    // must return a timeout, not hang.
    let samples: Vec<bool> = Vec::new();
    let mut delay = DelaySource::new();
    let r = establish(test_bus(), idle_lines(), &samples, true, &mut delay);
    assert_eq!(r.unwrap_err(), HandshakeError::ReadyTimeout);
    let bound = RESET_HOLD_MS as u64 + MAX_READY_POLLS as u64 * POLL_INTERVAL_MS as u64;
    assert!(delay.total_waited() <= bound);
}

#[test]
fn always_low_times_out() {
    let samples = vec![false; 200];
    let mut delay = DelaySource::new();
    let r = establish(test_bus(), idle_lines(), &samples, true, &mut delay);
    assert_eq!(r.unwrap_err(), HandshakeError::ReadyTimeout);
}

#[test]
fn ready_on_first_poll() {
    let samples = vec![true];
    let mut delay = DelaySource::new();
    let r = establish(test_bus(), idle_lines(), &samples, true, &mut delay);
    let session = r.unwrap();
    assert_eq!(session.polls_used, 1);
    assert_eq!(session.bus, test_bus());
    assert!(!session.lines.reset_asserted);
    assert!(!session.lines.cs_asserted);
    // Only the reset settling time was spent: the first poll saw ready.
    assert_eq!(delay.total_waited(), RESET_HOLD_MS as u64);
}

#[test]
fn ready_on_third_poll() {
    let samples = vec![false, false, true];
    let mut delay = DelaySource::new();
    let r = establish(test_bus(), idle_lines(), &samples, true, &mut delay);
    let session = r.unwrap();
    assert_eq!(session.polls_used, 3);
    assert_eq!(
        delay.total_waited(),
        RESET_HOLD_MS as u64 + 2 * POLL_INTERVAL_MS as u64
    );
}

#[test]
fn attach_failure_is_a_bus_error() {
    let samples = vec![true];
    let mut delay = DelaySource::new();
    let r = establish(test_bus(), idle_lines(), &samples, false, &mut delay);
    assert_eq!(r.unwrap_err(), HandshakeError::BusError);
}

#[test]
fn timeouts_are_retryable_bus_errors_are_not() {
    assert!(HandshakeError::ReadyTimeout.is_retryable());
    assert!(!HandshakeError::BusError.is_retryable());
}

#[test]
fn ready_past_the_bound_still_times_out() {
    // Ready arrives, but only after the poller has given up.
    let mut samples = vec![false; MAX_READY_POLLS as usize];
    samples.push(true);
    let mut delay = DelaySource::new();
    let r = establish(test_bus(), idle_lines(), &samples, true, &mut delay);
    assert_eq!(r.unwrap_err(), HandshakeError::ReadyTimeout);
}
