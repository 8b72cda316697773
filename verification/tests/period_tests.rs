use firmware_core::period::{PeriodState, PERIOD_FLOOR_MS};

#[test]
fn new_and_get() {
    let p = PeriodState::new(1000);
    assert_eq!(p.get(), 1000);
}

#[test]
fn halve_exact() {
    let mut p = PeriodState::new(1000);
    p.halve();
    assert_eq!(p.get(), 500);
    p.halve();
    assert_eq!(p.get(), 250);
    p.halve();
    assert_eq!(p.get(), 125);
}

#[test]
fn halve_rounds_down() {
    let mut p = PeriodState::new(5);
    p.halve();
    assert_eq!(p.get(), 2);
    p.halve();
    assert_eq!(p.get(), 1);
}

#[test]
fn floor_is_one_millisecond() {
    assert_eq!(PERIOD_FLOOR_MS, 1);
}

#[test]
fn halving_at_floor_stays_at_floor() {
    let mut p = PeriodState::new(PERIOD_FLOOR_MS);
    p.halve();
    assert_eq!(p.get(), PERIOD_FLOOR_MS);
    p.halve();
    assert_eq!(p.get(), PERIOD_FLOOR_MS);
}

#[test]
fn never_zero_after_many_halvings() {
    let mut p = PeriodState::new(u16::MAX);
    for _ in 0..64 {
        p.halve();
        assert!(p.get() >= PERIOD_FLOOR_MS);
        assert!(p.get() > 0);
    }
    assert_eq!(p.get(), PERIOD_FLOOR_MS);
}

#[test]
fn k_halvings_match_closed_form() {
    // After k triggers the period equals max(floor, initial >> k).
    let initial: u16 = 1000;
    let mut p = PeriodState::new(initial);
    let mut expected: u32 = initial as u32;
    for _ in 0..16 {
        p.halve();
        expected /= 2;
        let clamped = if expected < PERIOD_FLOOR_MS as u32 {
            PERIOD_FLOOR_MS as u32
        } else {
            expected
        };
        assert_eq!(p.get() as u32, clamped);
    }
}
