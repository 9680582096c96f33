use niri::animation::clock::{Clock, LazyClock, MAX_RATE, RATE_ONE};

const MS: u64 = 1_000_000;

#[test]
fn frozen_clock() {
    let mut clock = Clock::with_time(0);
    assert_eq!(clock.now(), 0);

    clock.set_unadjusted(100 * MS);
    assert_eq!(clock.now(), 100 * MS);

    clock.set_unadjusted(200 * MS);
    assert_eq!(clock.now(), 200 * MS);
}

#[test]
fn rate_change() {
    let mut clock = Clock::with_time(0);
    clock.set_rate(RATE_ONE / 2);

    clock.set_unadjusted(100 * MS);
    assert_eq!(clock.now_unadjusted(), 100 * MS);
    assert_eq!(clock.now(), 50 * MS);

    clock.set_unadjusted(200 * MS);
    assert_eq!(clock.now_unadjusted(), 200 * MS);
    assert_eq!(clock.now(), 100 * MS);

    clock.set_unadjusted(150 * MS);
    assert_eq!(clock.now_unadjusted(), 150 * MS);
    assert_eq!(clock.now(), 75 * MS);

    clock.set_rate(2 * RATE_ONE);

    clock.set_unadjusted(250 * MS);
    assert_eq!(clock.now_unadjusted(), 250 * MS);
    assert_eq!(clock.now(), 275 * MS);
}

#[test]
fn now_is_constant_within_a_frame() {
    let mut clock = Clock::with_time(10 * MS);
    clock.set_unadjusted(30 * MS);
    let first = clock.now();
    clock.set_rate(3 * RATE_ONE);
    assert_eq!(clock.now(), first);
    assert_eq!(clock.now(), 30 * MS);
}

#[test]
fn clear_reads_the_monotonic_time_again() {
    let mut clock = Clock::with_time(0);
    clock.clear();
    let raw = clock.now_unadjusted();
    assert!(raw > 0);
    assert_eq!(clock.now_unadjusted(), raw);
}

#[test]
fn rate_is_clamped() {
    let mut clock = Clock::with_time(0);
    clock.set_rate(5_000 * RATE_ONE);
    assert_eq!(clock.rate(), MAX_RATE);
    clock.set_rate(0);
    assert_eq!(clock.rate(), 0);
    clock.set_unadjusted(100 * MS);
    assert_eq!(clock.now(), 0);
}

#[test]
fn time_going_back_saturates_at_zero() {
    let mut clock = Clock::with_time(100 * MS);
    clock.set_rate(2 * RATE_ONE);
    clock.set_unadjusted(0);
    assert_eq!(clock.now(), 0);
}

#[test]
fn complete_instantly_flag() {
    let mut clock = Clock::default();
    assert!(!clock.should_complete_instantly());
    clock.set_complete_instantly(true);
    assert!(clock.should_complete_instantly());
    assert_eq!(clock.rate(), RATE_ONE);
}

#[test]
fn lazy_clock_keeps_its_time() {
    let mut lazy = LazyClock::with_time(5);
    assert_eq!(lazy.now(), 5);
    lazy.set(7);
    assert_eq!(lazy.now(), 7);
    lazy.clear();
    let t = lazy.now();
    assert_eq!(lazy.now(), t);
}
