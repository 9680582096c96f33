use niri::backend::RenderResult;
use niri::redraw_state::{OutputRedraw, RedrawState};
use niri::window::unmapped::{InitialConfigureState, Unmapped};
use niri::window::ResolvedWindowRules;
use niri::dummy_pw_utils::{PipeWire, PipeWireError};

#[test]
fn submitted_frame_waits_for_vblank() {
    let mut out = OutputRedraw::new();
    assert!(!out.should_render());
    out.queue_redraw();
    assert_eq!(out.state, RedrawState::Queued);
    assert!(out.should_render());
    out.rendered(RenderResult::Submitted, false, None);
    assert_eq!(out.state, RedrawState::WaitingForVBlank { redraw_needed: false });
    assert_eq!(out.frame_callback_sequence, 1);
    out.queue_redraw();
    assert_eq!(out.state, RedrawState::WaitingForVBlank { redraw_needed: true });
    out.on_vblank();
    assert_eq!(out.state, RedrawState::Queued);
    out.rendered(RenderResult::Submitted, false, None);
    out.on_vblank();
    assert_eq!(out.state, RedrawState::Idle);
}

#[test]
fn no_damage_goes_idle_or_waits_for_the_estimate() {
    let mut out = OutputRedraw::new();
    out.queue_redraw();
    out.rendered(RenderResult::NoDamage, false, None);
    assert_eq!(out.state, RedrawState::Idle);
    out.queue_redraw();
    out.rendered(RenderResult::Skipped, false, Some(9));
    assert_eq!(out.state, RedrawState::WaitingForEstimatedVBlank(9));
    out.queue_redraw();
    assert_eq!(out.state, RedrawState::WaitingForEstimatedVBlankAndQueued(9));
    out.on_vblank();
    assert_eq!(out.state, RedrawState::Queued);
    assert_eq!(out.frame_callback_sequence, 2);
}

#[test]
fn animations_keep_the_loop_going() {
    let mut out = OutputRedraw::new();
    out.queue_redraw();
    out.rendered(RenderResult::Submitted, true, None);
    out.on_vblank();
    assert_eq!(out.state, RedrawState::Queued);
}

#[test]
fn frame_callback_sequence_wraps() {
    let mut out = OutputRedraw { state: RedrawState::Queued, frame_callback_sequence: u32::MAX };
    out.rendered(RenderResult::NoDamage, false, None);
    assert_eq!(out.frame_callback_sequence, 0);
}

#[test]
fn unmapped_window_needs_initial_configure() {
    let mut w = Unmapped::new();
    assert!(w.needs_initial_configure());
    w.state = InitialConfigureState::Configured {
        rules: ResolvedWindowRules::empty(),
        is_full_width: false,
        output: None,
        workspace_name: None,
    };
    assert!(!w.needs_initial_configure());
}

#[test]
fn pipewire_is_disabled() {
    assert!(matches!(PipeWire::new(), Err(PipeWireError::Disabled)));
}
