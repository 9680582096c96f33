use niri::layout::scrolling::{column_x, scroll_to_focus};

#[test]
fn columns_are_laid_out_with_gaps() {
    let widths = vec![100, 200, 300];
    assert_eq!(column_x(&widths, 16, 0), 0);
    assert_eq!(column_x(&widths, 16, 1), 116);
    assert_eq!(column_x(&widths, 16, 2), 332);
    assert_eq!(column_x(&widths, 16, 3), 648);
}

#[test]
fn focus_scrolls_just_enough() {
    // Visible: stays.
    assert_eq!(scroll_to_focus(100, 200, 50, 1000), 50);
    // Off the left edge.
    assert_eq!(scroll_to_focus(100, 200, 150, 1000), 100);
    // Off the right edge.
    assert_eq!(scroll_to_focus(1000, 200, 0, 1000), 200);
    // Wider than the view: its left edge is anchored.
    assert_eq!(scroll_to_focus(1000, 1500, 0, 1000), 1000);
}
