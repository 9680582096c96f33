use niri::backend::{OutputId, RenderResult};
use niri::utils::id::IdCounter;
use niri::utils::Size;
use niri::window::mapped::{ConfigureIntent, InteractiveResizeData, Mapped, MappedId};
use niri::window::toplevel::{Serial, ToplevelRole, ToplevelState};
use niri::window::ResolvedWindowRules;

fn size(w: i32, h: i32) -> Size {
    Size { w, h }
}

fn window(w: i32, h: i32) -> Mapped {
    let mut counter = IdCounter::new();
    let mut state = ToplevelState::empty();
    state.size = Some(size(w, h));
    let role = ToplevelRole::configured(Serial(1), state);
    Mapped::new(MappedId::next(&mut counter), role, size(w, h), ResolvedWindowRules::empty())
}

#[test]
fn serials_compare_across_the_wrap() {
    assert!(Serial(5).is_no_older_than(&Serial(5)));
    assert!(Serial(6).is_no_older_than(&Serial(5)));
    assert!(!Serial(5).is_no_older_than(&Serial(6)));
    assert!(Serial(1).is_no_older_than(&Serial(u32::MAX)));
    assert!(!Serial(u32::MAX).is_no_older_than(&Serial(1)));
}

#[test]
fn request_size_round_trip() {
    let mut w = window(100, 100);
    assert_eq!(w.expected_size(), Some(size(100, 100)));
    assert_eq!(w.configure_intent(), ConfigureIntent::NotNeeded);

    assert_eq!(w.request_size(size(300, 200), false, true, None), None);
    assert_eq!(w.configure_intent(), ConfigureIntent::CanSend);
    assert_eq!(w.expected_size(), Some(size(300, 200)));

    let (sent, dropped) = w.send_pending_configure(Serial(2));
    assert_eq!(sent.map(|s| s.size), Some(Some(size(300, 200))));
    assert_eq!(dropped, None);
    assert_eq!(w.expected_size(), Some(size(300, 200)));

    assert!(w.ack_configure(Serial(2)));
    w.client_commit(size(300, 200));
    assert_eq!(w.expected_size(), Some(size(300, 200)));
    assert_eq!(w.window_size(), size(300, 200));
}

#[test]
fn nothing_to_send_sends_nothing() {
    let mut w = window(100, 100);
    let (sent, dropped) = w.send_pending_configure(Serial(2));
    assert!(sent.is_none());
    assert_eq!(dropped, None);

    w.request_size(size(100, 100), false, false, Some(4));
    let (sent, dropped) = w.send_pending_configure(Serial(2));
    assert!(sent.is_none());
    assert_eq!(dropped, Some(4));
}

#[test]
fn resize_is_throttled_until_the_client_commits() {
    let mut w = window(100, 100);
    w.request_size(size(300, 200), false, false, None);
    w.send_pending_configure(Serial(2));
    w.request_size(size(400, 200), false, false, None);
    assert_eq!(w.configure_intent(), ConfigureIntent::Throttled);
    assert!(w.ack_configure(Serial(2)));
    w.client_commit(size(300, 200));
    assert_eq!(w.configure_intent(), ConfigureIntent::CanSend);
    w.set_needs_configure();
    assert_eq!(w.configure_intent(), ConfigureIntent::ShouldSend);
}

#[test]
fn state_change_should_send() {
    let mut w = window(100, 100);
    w.set_activated(true);
    assert_eq!(w.configure_intent(), ConfigureIntent::ShouldSend);
    assert!(w.needs_recompute_rules());
}

#[test]
fn animate_serials_are_consumed_in_order() {
    let mut w = window(100, 100);
    w.request_size(size(200, 100), false, true, None);
    w.send_pending_configure(Serial(2));
    w.request_size(size(300, 100), false, true, None);
    w.send_pending_configure(Serial(3));
    assert!(!w.should_animate_commit(Serial(1)));
    assert!(w.should_animate_commit(Serial(2)));
    assert!(!w.should_animate_commit(Serial(2)));
    assert!(w.should_animate_commit(Serial(5)));
    assert!(!w.should_animate_commit(Serial(5)));
}

#[test]
fn unanimated_change_is_not_animated() {
    let mut w = window(100, 100);
    w.request_size(size(200, 100), false, false, None);
    w.send_pending_configure(Serial(2));
    assert!(!w.should_animate_commit(Serial(2)));
}

#[test]
fn pending_transactions_are_taken_by_the_commit() {
    let mut w = window(100, 100);
    w.request_size(size(200, 100), false, false, Some(10));
    w.send_pending_configure(Serial(2));
    assert_eq!(w.request_size(size(300, 100), false, false, Some(11)), None);
    assert_eq!(w.request_size(size(300, 100), false, false, Some(12)), Some(11));
    w.send_pending_configure(Serial(3));
    assert_eq!(w.take_pending_transaction(Serial(1)), Vec::<u64>::new());
    assert_eq!(w.take_pending_transaction(Serial(3)), vec![10, 12]);
    assert_eq!(w.take_pending_transaction(Serial(3)), Vec::<u64>::new());
}

#[test]
fn request_size_once_settles_on_the_window_size() {
    let mut w = window(100, 100);
    w.request_size_once(size(50, 60), false);
    assert_eq!(w.expected_size(), Some(size(50, 60)));
    let (sent, _) = w.send_pending_configure(Serial(2));
    assert!(sent.is_some());
    assert!(w.ack_configure(Serial(2)));
    // The client picks a size of its own.
    w.client_commit(size(40, 60));
    assert_eq!(w.expected_size(), Some(size(40, 60)));
    // Size-only changes no longer count.
    let (sent, _) = w.send_pending_configure(Serial(3));
    assert!(sent.is_none());
}

#[test]
fn request_size_once_already_sent_and_committed() {
    let mut w = window(100, 100);
    assert_eq!(w.request_size_once(size(100, 100), false), None);
    w.client_commit(size(90, 90));
    assert_eq!(w.expected_size(), Some(size(90, 90)));
}

#[test]
fn request_size_once_leaves_the_transaction() {
    let mut w = window(100, 100);
    w.request_size(size(200, 100), false, false, Some(3));
    assert_eq!(w.request_size_once(size(50, 50), false), Some(3));
}

#[test]
fn zero_size_takes_the_window_size() {
    let mut w = window(100, 80);
    w.request_size(size(0, 300), false, false, None);
    assert_eq!(w.expected_size(), Some(size(100, 300)));
}

#[test]
fn fullscreen_request_has_no_expected_size() {
    let mut w = window(100, 80);
    w.request_size(size(1920, 1080), true, false, None);
    assert!(w.is_pending_fullscreen());
    assert_eq!(w.expected_size(), None);
}

#[test]
fn windowed_fullscreen_takes_effect_on_commit() {
    let mut w = window(100, 80);
    w.request_windowed_fullscreen(true);
    assert!(w.is_pending_windowed_fullscreen());
    assert!(!w.is_windowed_fullscreen());
    assert!(!w.is_pending_fullscreen());
    w.send_pending_configure(Serial(2));
    assert!(w.ack_configure(Serial(2)));
    w.client_commit(size(100, 80));
    assert!(w.is_windowed_fullscreen());
    assert!(!w.is_fullscreen());
    assert_eq!(w.expected_size(), Some(size(100, 80)));
}

#[test]
fn interactive_resize_lifecycle() {
    let mut w = window(100, 80);
    let data = InteractiveResizeData { edges: 8 };
    w.set_interactive_resize(Some(data));
    assert_eq!(w.interactive_resize_data(), Some(data));
    w.request_size(size(150, 80), false, false, None);
    w.send_pending_configure(Serial(2));
    w.set_interactive_resize(None);
    assert_eq!(w.interactive_resize_data(), Some(data));
    w.send_pending_configure(Serial(3));
    w.on_commit(Serial(2));
    assert_eq!(w.interactive_resize_data(), Some(data));
    w.on_commit(Serial(3));
    assert_eq!(w.interactive_resize_data(), None);
}

#[test]
fn interactive_resize_without_change_ends_at_send() {
    let mut w = window(100, 80);
    w.set_interactive_resize(Some(InteractiveResizeData { edges: 1 }));
    w.send_pending_configure(Serial(2));
    w.set_interactive_resize(None);
    w.cancel_interactive_resize();
    assert_eq!(w.interactive_resize_data(), None);
}

#[test]
fn focus_clears_urgency() {
    let mut w = window(100, 80);
    w.set_urgent(true);
    assert!(w.is_urgent());
    w.set_is_focused(true);
    assert!(w.is_focused());
    assert!(!w.is_urgent());
    w.set_urgent(true);
    assert!(!w.is_urgent());
    w.set_floating(true);
    assert!(w.is_floating());
    w.set_active_in_column(false);
    assert!(!w.is_active_in_column());
    w.set_is_window_cast_target(true);
    assert!(w.is_window_cast_target());
    w.toggle_ignore_opacity_window_rule();
    assert!(w.is_ignoring_opacity_window_rule());
}

#[test]
fn ids_count_up() {
    let mut counter = IdCounter::new();
    assert_eq!(MappedId::next(&mut counter).get(), 1);
    assert_eq!(OutputId::next(&mut counter).get(), 2);
    assert_eq!(counter.next(), 3);
}

#[test]
fn render_result_compares() {
    assert_eq!(RenderResult::Submitted, RenderResult::Submitted);
    assert_ne!(RenderResult::NoDamage, RenderResult::Skipped);
}

#[test]
fn tiled_state_follows_rules_and_decorations() {
    let mut w = window(100, 80);
    w.update_tiled_state(false, Some(true), None);
    assert_eq!(w.role().server_pending.map(|s| s.tiled), Some(true));
    w.update_tiled_state(false, None, None);
    assert_eq!(w.role().server_pending.map(|s| s.tiled), Some(false));
    assert_eq!(w.configure_intent(), ConfigureIntent::NotNeeded);
    w.update_tiled_state(true, None, None);
    assert_eq!(w.configure_intent(), ConfigureIntent::ShouldSend);
}
