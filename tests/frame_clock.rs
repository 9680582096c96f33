use niri::frame_clock::FrameClock;

const MS: u64 = 1_000_000;
const INTERVAL: u64 = 16_666_667;

#[test]
fn next_target_at_60_hz() {
    let mut clock = FrameClock::new(Some(INTERVAL), false);
    clock.presented(100 * MS);
    assert_eq!(clock.next_presentation_time_at(105 * MS), 100 * MS + INTERVAL);
    assert_eq!(clock.next_presentation_time_at(120 * MS), 100 * MS + 2 * INTERVAL);

    clock.set_vrr(true);
    assert_eq!(clock.next_presentation_time_at(200 * MS), 200 * MS);
}

#[test]
fn vrr_returns_now_when_a_deadline_was_missed() {
    let mut clock = FrameClock::new(Some(INTERVAL), true);
    clock.presented(100 * MS);
    assert_eq!(clock.next_presentation_time_at(200 * MS), 200 * MS);
    assert_eq!(clock.next_presentation_time_at(105 * MS), 100 * MS + INTERVAL);
}

#[test]
fn early_vblank_by_two_intervals() {
    let mut clock = FrameClock::new(Some(INTERVAL), false);
    clock.presented(100 * MS);
    assert_eq!(clock.next_presentation_time_at(50 * MS), 100 * MS + 2 * INTERVAL);
    assert_eq!(clock.next_presentation_time_at(100 * MS - INTERVAL - 1), 100 * MS + 2 * INTERVAL);
    // Early by less than one interval: pushed one interval ahead.
    assert_eq!(clock.next_presentation_time_at(90 * MS), 100 * MS + INTERVAL);
}

#[test]
fn now_equal_to_last_presentation() {
    let mut clock = FrameClock::new(Some(INTERVAL), false);
    clock.presented(100 * MS);
    assert_eq!(clock.next_presentation_time_at(100 * MS), 100 * MS + 2 * INTERVAL);
}

#[test]
fn prediction_lies_on_the_grid() {
    let last = 1_000 * MS;
    let mut clock = FrameClock::new(Some(INTERVAL), false);
    clock.presented(last);
    for now in [last + 1, last + INTERVAL - 1, last + INTERVAL, last + 7 * INTERVAL + 3] {
        let next = clock.next_presentation_time_at(now);
        assert!(next > now);
        assert_eq!((next - last) % INTERVAL, 0);
        assert!(next - last >= INTERVAL);
        assert!(next - now <= INTERVAL);
    }
}

#[test]
fn without_interval_or_presentation_returns_now() {
    let clock = FrameClock::new(None, false);
    assert_eq!(clock.next_presentation_time_at(42), 42);
    assert_eq!(clock.refresh_interval(), None);

    let clock = FrameClock::new(Some(INTERVAL), false);
    assert_eq!(clock.next_presentation_time_at(42), 42);
    assert_eq!(clock.refresh_interval(), Some(INTERVAL));
}

#[test]
fn zero_presentation_time_is_ignored() {
    let mut clock = FrameClock::new(Some(INTERVAL), false);
    clock.presented(0);
    assert_eq!(clock.next_presentation_time_at(42), 42);
}

#[test]
fn toggling_vrr_forgets_last_presentation() {
    let mut clock = FrameClock::new(Some(INTERVAL), false);
    clock.presented(100 * MS);
    clock.set_vrr(false);
    assert_eq!(clock.next_presentation_time_at(105 * MS), 100 * MS + INTERVAL);
    clock.set_vrr(true);
    assert!(clock.vrr());
    assert_eq!(clock.next_presentation_time_at(105 * MS), 105 * MS);
}

#[test]
fn next_presentation_time_reads_the_clock() {
    let clock = FrameClock::new(None, false);
    let a = clock.next_presentation_time();
    let b = clock.next_presentation_time();
    assert!(b >= a);
}
