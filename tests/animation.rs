use niri::animation::clock::Clock;
use niri::animation::{Animation, Interpolation};

const MS: u64 = 1_000_000;

#[derive(Debug, Clone, Copy, PartialEq)]
struct Linear;

impl Interpolation<i64> for Linear {
    fn value_between(&self, from: i64, to: i64, passed: u64, duration: u64) -> i64 {
        from + (to - from) * passed as i64 / duration as i64
    }
}

#[test]
fn value_follows_the_kind_and_ends_at_the_target() {
    let mut clock = Clock::with_time(100 * MS);
    let anim = Animation::with_kind(&mut clock, 0i64, 1000, Linear, 200 * MS, 200 * MS);
    assert_eq!(anim.start_time(), 100 * MS);
    assert_eq!(anim.end_time(), 300 * MS);
    assert_eq!(anim.value_at(&clock, 100 * MS), 0);
    assert_eq!(anim.value_at(&clock, 50 * MS), 0);
    assert_eq!(anim.value_at(&clock, 200 * MS), 500);
    assert_eq!(anim.value_at(&clock, 300 * MS), 1000);
    assert_eq!(anim.value_at(&clock, 900 * MS), 1000);
    assert!(!anim.is_done(&mut clock));
    clock.set_unadjusted(300 * MS);
    assert!(anim.is_done(&mut clock));
    assert_eq!(anim.value(&mut clock), 1000);
}

#[test]
fn complete_instantly_jumps_to_the_end() {
    let mut clock = Clock::with_time(0);
    let anim = Animation::with_kind(&mut clock, 10i64, 20, Linear, 200 * MS, 100 * MS);
    clock.set_complete_instantly(true);
    assert!(anim.is_done(&mut clock));
    assert!(anim.is_clamped_done(&mut clock));
    assert_eq!(anim.value_at(&clock, 1), 20);
    // At the start time itself the start value still shows.
    assert_eq!(anim.value_at(&clock, 0), 10);
    assert_eq!(anim.clamped_value(&mut clock), 20);
}

#[test]
fn clamped_value_holds_after_first_reach() {
    let mut clock = Clock::with_time(0);
    let anim = Animation::with_kind(&mut clock, 0i64, 100, Linear, 200 * MS, 100 * MS);
    clock.set_unadjusted(150 * MS);
    assert!(anim.is_clamped_done(&mut clock));
    assert!(!anim.is_done(&mut clock));
    assert_eq!(anim.clamped_value(&mut clock), 100);
    assert_eq!(anim.value(&mut clock), 75);
}

#[test]
fn replacing_the_kind_keeps_the_start() {
    let mut clock = Clock::with_time(5 * MS);
    let mut anim = Animation::with_kind(&mut clock, 0i64, 100, Linear, 200 * MS, 200 * MS);
    clock.set_unadjusted(50 * MS);
    anim.replace_kind(Linear, false, 400 * MS, 400 * MS);
    assert_eq!(anim.start_time(), 5 * MS);
    assert_eq!(anim.duration(), 400 * MS);
    anim.replace_kind(Linear, true, 400 * MS, 400 * MS);
    assert!(anim.is_off());
    assert_eq!(anim.duration(), 0);
    assert_eq!(anim.clamped_duration(), 0);
}

#[test]
fn zero_duration_at_start_time_shows_the_start_value() {
    let mut clock = Clock::with_time(7);
    let anim = Animation::with_kind(&mut clock, 1i64, 2, Linear, 0, 0);
    assert_eq!(anim.value_at(&clock, 7), 1);
    assert_eq!(anim.value_at(&clock, 8), 2);
}

#[test]
fn value_under_complete_instantly_is_the_end_even_at_the_start() {
    let mut clock = Clock::with_time(0);
    let anim = Animation::with_kind(&mut clock, 10i64, 20, Linear, 200 * MS, 200 * MS);
    clock.set_complete_instantly(true);
    assert_eq!(anim.value(&mut clock), 20);
}
