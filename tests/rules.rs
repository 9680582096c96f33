use niri::render_helpers::{BlockOutFrom, RenderTarget, SplitElements};
use niri::utils::{
    ensure_min_max_size, ensure_min_max_size_maybe_zero, has_ssd, is_laptop_panel, update_tiled_state,
    ResizeEdge, Size,
};
use niri::window::toplevel::{Serial, ToplevelRole, ToplevelState};
use niri::window::{
    rule_applies, ColumnDisplay, Match, Pattern, PatternError, ResolvedWindowRules, WindowInfo,
    WindowRule,
};

fn no_match() -> Match {
    Match {
        app_id: None,
        title: None,
        is_focused: None,
        is_urgent: None,
        is_active: None,
        is_active_in_column: None,
        is_floating: None,
        is_window_cast_target: None,
        at_startup: None,
    }
}

fn rule() -> WindowRule {
    WindowRule {
        matches: Vec::new(),
        excludes: Vec::new(),
        default_column_display: None,
        open_on_output: None,
        open_on_workspace: None,
        open_maximized: None,
        open_fullscreen: None,
        open_floating: None,
        open_focused: None,
        min_width: None,
        min_height: None,
        max_width: None,
        max_height: None,
        draw_border_with_background: None,
        clip_to_geometry: None,
        baba_is_float: None,
        block_out_from: None,
        variable_refresh_rate: None,
        tiled_state: None,
    }
}

fn info(app_id: &str) -> WindowInfo {
    WindowInfo {
        app_id: Some(app_id.to_string()),
        title: None,
        is_focused: true,
        is_urgent: false,
        is_pending_activated: true,
        is_active_in_column: true,
        is_floating: false,
        is_window_cast_target: false,
    }
}

#[test]
fn later_rules_override_earlier_ones() {
    let mut a = rule();
    a.open_floating = Some(true);
    a.min_width = Some(100);
    a.open_on_output = Some("DP-1".to_string());
    let mut b = rule();
    b.open_floating = Some(false);
    let mut firefox = no_match();
    firefox.app_id = Some(Pattern::new("^firefox$").unwrap());
    b.matches.push(firefox);
    let mut c = rule();
    c.max_width = Some(500);
    let mut focused = no_match();
    focused.is_focused = Some(true);
    c.excludes.push(focused);

    let rules = vec![a, b, c];
    let r = ResolvedWindowRules::compute(&rules, &info("firefox"), false);
    assert_eq!(r.open_floating, Some(false));
    assert_eq!(r.min_width, Some(100));
    assert_eq!(r.max_width, None);
    assert_eq!(r.open_on_output.as_deref(), Some("DP-1"));

    let r = ResolvedWindowRules::compute(&rules, &info("kitty"), false);
    assert_eq!(r.open_floating, Some(true));
}

#[test]
fn at_startup_condition() {
    let mut a = rule();
    a.open_maximized = Some(true);
    let mut startup = no_match();
    startup.at_startup = Some(true);
    a.matches.push(startup);
    let rules = vec![a];
    assert_eq!(ResolvedWindowRules::compute(&rules, &info("x"), true).open_maximized, Some(true));
    assert_eq!(ResolvedWindowRules::compute(&rules, &info("x"), false).open_maximized, None);
}

#[test]
fn rule_applies_needs_a_match_and_no_exclude() {
    assert!(rule_applies(&vec![], &vec![]));
    assert!(rule_applies(&vec![false, true], &vec![false]));
    assert!(!rule_applies(&vec![false], &vec![]));
    assert!(!rule_applies(&vec![true], &vec![true]));
}

#[test]
fn compute_from_applies_marked_rules() {
    let mut a = rule();
    a.tiled_state = Some(true);
    let mut b = rule();
    b.tiled_state = Some(false);
    let rules = vec![a, b];
    assert_eq!(ResolvedWindowRules::compute_from(&rules, &vec![true, false]).tiled_state, Some(true));
    assert_eq!(ResolvedWindowRules::compute_from(&rules, &vec![true, true]).tiled_state, Some(false));
    assert_eq!(ResolvedWindowRules::compute_from(&rules, &vec![false, false]), ResolvedWindowRules::empty());
}

#[test]
fn min_and_max_size_rules() {
    let mut r = ResolvedWindowRules::empty();
    r.min_width = Some(200);
    r.max_height = Some(300);
    assert_eq!(r.apply_min_size(Size { w: 100, h: 50 }), Size { w: 200, h: 50 });
    assert_eq!(r.apply_min_size(Size { w: 250, h: 50 }), Size { w: 250, h: 50 });
    assert_eq!(r.apply_max_size(Size { w: 0, h: 0 }), Size { w: 0, h: 300 });
    assert_eq!(r.apply_max_size(Size { w: 0, h: 500 }), Size { w: 0, h: 300 });
    assert_eq!(r.apply_max_size(Size { w: 0, h: 200 }), Size { w: 0, h: 200 });
}

#[test]
fn open_floating_heuristic() {
    let mut r = ResolvedWindowRules::empty();
    let fixed = Size { w: 0, h: 400 };
    assert!(r.compute_open_floating(false, fixed, fixed));
    assert!(r.compute_open_floating(true, Size { w: 0, h: 0 }, Size { w: 0, h: 0 }));
    assert!(!r.compute_open_floating(false, Size { w: 0, h: 0 }, Size { w: 0, h: 0 }));
    r.open_floating = Some(false);
    assert!(!r.compute_open_floating(true, fixed, fixed));
}

#[test]
fn laptop_panels() {
    assert!(is_laptop_panel("eDP-1"));
    assert!(is_laptop_panel("LVDS-1"));
    assert!(is_laptop_panel("DSI-1"));
    assert!(!is_laptop_panel("DP-1"));
    assert!(!is_laptop_panel("eDP"));
    assert!(!is_laptop_panel(""));
}

#[test]
fn min_max_size_clamping() {
    assert_eq!(ensure_min_max_size(50, 100, 200), 100);
    assert_eq!(ensure_min_max_size(250, 100, 200), 200);
    assert_eq!(ensure_min_max_size(150, 0, 0), 150);
    assert_eq!(ensure_min_max_size(150, 300, 200), 300);
    assert_eq!(ensure_min_max_size_maybe_zero(0, 100, 200), 0);
    assert_eq!(ensure_min_max_size_maybe_zero(0, 100, 100), 100);
    assert_eq!(ensure_min_max_size_maybe_zero(50, 100, 100), 100);
}

#[test]
fn block_out_targets() {
    assert!(!RenderTarget::Output.should_block_out(None));
    assert!(RenderTarget::Screencast.should_block_out(Some(BlockOutFrom::Screencast)));
    assert!(!RenderTarget::ScreenCapture.should_block_out(Some(BlockOutFrom::Screencast)));
    assert!(RenderTarget::ScreenCapture.should_block_out(Some(BlockOutFrom::ScreenCapture)));
    assert!(!RenderTarget::Output.should_block_out(Some(BlockOutFrom::ScreenCapture)));
}

#[test]
fn split_elements_put_popups_first() {
    let mut a = SplitElements { normal: vec![1, 2], popups: vec![3] };
    let b = SplitElements { normal: vec![4], popups: vec![5, 6] };
    a.extend(b);
    assert_eq!(a.iter().into_iter().copied().collect::<Vec<_>>(), vec![3, 5, 6, 1, 2, 4]);
    assert_eq!(a.into_vec(), vec![3, 5, 6, 1, 2, 4]);
}

#[test]
fn decorations_and_tiling() {
    assert!(has_ssd(Some(true), Some(false)));
    assert!(!has_ssd(Some(false), Some(true)));
    assert!(has_ssd(None, Some(true)));
    assert!(!has_ssd(None, None));

    let mut role = ToplevelRole::configured(Serial(1), ToplevelState::empty());
    update_tiled_state(&mut role, false, None, Some(true), None);
    assert_eq!(role.server_pending.map(|s| s.tiled), Some(true));
    update_tiled_state(&mut role, true, Some(false), Some(true), None);
    assert_eq!(role.server_pending.map(|s| s.tiled), Some(false));
    update_tiled_state(&mut role, true, None, None, Some(false));
    assert_eq!(role.server_pending.map(|s| s.tiled), Some(true));

    let corner = ResizeEdge::from_bits(1 | 4).unwrap();
    assert!(corner.contains(ResizeEdge { bits: 4 }));
    assert!(!corner.contains(ResizeEdge { bits: 8 }));
    assert!(ResizeEdge::from_bits(16).is_none());
}

#[test]
fn patterns_keep_their_text_and_reject_invalid_ones() {
    let p = Pattern::new("^fire").unwrap();
    assert_eq!(p.as_str(), "^fire");
    assert!(p.is_match("firefox"));
    assert!(!p.is_match("kitty"));
    assert!(matches!(Pattern::new("("), Err(PatternError::Invalid)));
}

#[test]
fn unconditional_rule_always_applies() {
    let mut a = rule();
    a.open_floating = Some(true);
    a.default_column_display = Some(ColumnDisplay::Tabbed);
    let rules = vec![a];
    let r = ResolvedWindowRules::compute(&rules, &info("anything"), false);
    assert_eq!(r.open_floating, Some(true));
    assert_eq!(r.default_column_display, Some(ColumnDisplay::Tabbed));
}

#[test]
fn title_pattern_needs_a_title() {
    let mut a = rule();
    a.open_focused = Some(false);
    let mut titled = no_match();
    titled.title = Some(Pattern::new(".*").unwrap());
    a.matches.push(titled);
    let rules = vec![a];
    assert_eq!(ResolvedWindowRules::compute(&rules, &info("x"), false).open_focused, None);
    let mut w = info("x");
    w.title = Some("hello".to_string());
    assert_eq!(ResolvedWindowRules::compute(&rules, &w, false).open_focused, Some(false));
}
