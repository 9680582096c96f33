use vstd::prelude::*;

verus! {

/// The x of column `i` in the strip of columns: the widths of the columns before it, each
/// followed by the gap.
pub open spec fn column_x_spec(widths: Seq<u32>, gap: u32, i: int) -> int
    decreases i,
{
    if i <= 0 {
        0
    } else {
        column_x_spec(widths, gap, i - 1) + widths[i - 1] + gap
    }
}

proof fn lemma_column_x_bound(widths: Seq<u32>, gap: u32, i: int)
    requires
        0 <= i,
    ensures
        0 <= column_x_spec(widths, gap, i) <= i * (u32::MAX as int + u32::MAX as int),
    decreases i,
{
    if i > 0 {
        lemma_column_x_bound(widths, gap, i - 1);
        assert((i - 1) * (u32::MAX as int + u32::MAX as int) + (u32::MAX as int + u32::MAX as int)
            == i * (u32::MAX as int + u32::MAX as int)) by (nonlinear_arith);
    }
}

/// The x of column `i` in the strip of columns of the given widths, `gap` apart.
pub fn column_x(widths: &Vec<u32>, gap: u32, i: usize) -> (r: u128)
    requires
        i <= widths@.len(),
    ensures
        r == column_x_spec(widths@, gap, i as int),
{
    let mut x: u128 = 0;
    let mut j: usize = 0;
    while j < i
        invariant
            i <= widths@.len(),
            j <= i,
            x == column_x_spec(widths@, gap, j as int),
        decreases i - j,
    {
        proof {
            lemma_column_x_bound(widths@, gap, j + 1);
            assert((j + 1) * (u32::MAX as int + u32::MAX as int) <= (u64::MAX as int + 1) * (
            u32::MAX as int + u32::MAX as int)) by (nonlinear_arith)
                requires
                    j + 1 <= u64::MAX as int + 1,
            ;
        }
        x = x + widths[j] as u128 + gap as u128;
        j = j + 1;
    }
    x
}

/// The view offset after focusing a column at `x` of width `w`, with the view at `scroll` and
/// `view_width` wide. A column off the left edge is scrolled to the left edge; one off the
/// right edge to the right edge, or, when wider than the view, to the left edge; a visible
/// column leaves the view where it is.
pub open spec fn focus_scroll(x: int, w: int, scroll: int, view_width: int) -> int {
    if x < scroll {
        x
    } else if x + w > scroll + view_width {
        if w > view_width { x } else { x + w - view_width }
    } else {
        scroll
    }
}

/// The view offset after focusing a column at `x` of width `w` (see `focus_scroll`).
pub fn scroll_to_focus(x: i64, w: u32, scroll: i64, view_width: u32) -> (r: i64)
    ensures
        r == focus_scroll(x as int, w as int, scroll as int, view_width as int),
{
    let right = x as i128 + w as i128;
    if x < scroll {
        x
    } else if right > scroll as i128 + view_width as i128 {
        if w > view_width {
            x
        } else {
            (right - view_width as i128) as i64
        }
    } else {
        scroll
    }
}

/// After focusing a column its left edge is in view, and all of it when it fits in the view.
pub proof fn lemma_focused_column_visible(x: int, w: int, scroll: int, view_width: int)
    requires
        w >= 0,
        view_width >= 0,
    ensures
        ({
            let s = focus_scroll(x, w, scroll, view_width);
            &&& s <= x
            &&& w <= view_width ==> x + w <= s + view_width
        }),
{
}

} // verus!
