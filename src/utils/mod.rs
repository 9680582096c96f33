use vstd::prelude::*;

use vstd::string::StringSliceAdditionalSpecFns;

use crate::window::toplevel::{ToplevelRole, ToplevelState};

pub mod id;
pub mod transaction;

verus! {

/// A size in logical pixels.
#[derive(Debug, Clone, Copy, PartialEq, Eq, Structural)]
pub struct Size {
    pub w: i32,
    pub h: i32,
}

/// Relies on rustix::time::clock_gettime: reads CLOCK_MONOTONIC as whole seconds and the
/// nanoseconds past them.
#[verifier::external_body]
fn monotonic_timespec() -> (r: (u64, u64)) {
    let ts = rustix::time::clock_gettime(rustix::time::ClockId::Monotonic);
    (ts.tv_sec as u64, ts.tv_nsec as u64)
}

/// The monotonic time in nanoseconds, saturating at `u64::MAX`.
pub fn get_monotonic_time() -> (r: u64) {
    let (secs, nanos) = monotonic_timespec();
    let ns: u128 = (secs as u128) * 1_000_000_000 + (nanos as u128);
    if ns > u64::MAX as u128 {
        u64::MAX
    } else {
        ns as u64
    }
}

/// `b` starts with the four bytes `p`.
pub open spec fn starts_with4(b: Seq<u8>, p: Seq<u8>) -> bool {
    b.len() >= 4 && b.take(4) == p
}

/// Whether the connector name is that of a laptop's built-in panel: it starts with `eDP-`,
/// `LVDS` or `DSI-`.
pub fn is_laptop_panel(connector: &str) -> (r: bool)
    ensures
        r == (starts_with4(connector.spec_bytes(), seq![101u8, 68u8, 80u8, 45u8])
            || starts_with4(connector.spec_bytes(), seq![76u8, 86u8, 68u8, 83u8])
            || starts_with4(connector.spec_bytes(), seq![68u8, 83u8, 73u8, 45u8])),
{
    let b = connector.as_bytes();
    if b.len() < 4 {
        return false;
    }
    let (b0, b1, b2, b3) = (b[0], b[1], b[2], b[3]);
    let edp = b0 == 101u8 && b1 == 68u8 && b2 == 80u8 && b3 == 45u8;
    let lvds = b0 == 76u8 && b1 == 86u8 && b2 == 68u8 && b3 == 83u8;
    let dsi = b0 == 68u8 && b1 == 83u8 && b2 == 73u8 && b3 == 45u8;
    proof {
        let t = connector.spec_bytes().take(4);
        assert(t =~= seq![b0, b1, b2, b3]);
    }
    edp || lvds || dsi
}

/// `x` held to at most `max_size` and at least `min_size`; a bound that is not positive does
/// not apply, and the lower bound wins when they cross.
pub open spec fn min_max_clamped(x: i32, min_size: i32, max_size: i32) -> i32 {
    let x1 = if max_size > 0 && x > max_size { max_size } else { x };
    if min_size > 0 && x1 < min_size { min_size } else { x1 }
}

pub fn ensure_min_max_size(x: i32, min_size: i32, max_size: i32) -> (r: i32)
    ensures
        r == min_max_clamped(x, min_size, max_size),
{
    let mut x = x;
    if max_size > 0 && x > max_size {
        x = max_size;
    }
    if min_size > 0 && x < min_size {
        x = min_size;
    }
    x
}

/// Like `ensure_min_max_size`, but zero (the client chooses) stays zero, unless the bounds
/// fix the size to one positive value.
pub fn ensure_min_max_size_maybe_zero(x: i32, min_size: i32, max_size: i32) -> (r: i32)
    ensures
        x != 0 ==> r == min_max_clamped(x, min_size, max_size),
        x == 0 ==> r == (if min_size > 0 && min_size == max_size { min_size } else { 0 }),
{
    if x != 0 {
        ensure_min_max_size(x, min_size, max_size)
    } else if min_size > 0 && min_size == max_size {
        min_size
    } else {
        0
    }
}

/// Which window edges an interactive resize drags, as bits: top, bottom, left, right.
#[derive(Debug, Clone, Copy, PartialEq, Eq, Hash, Structural)]
pub struct ResizeEdge {
    pub bits: u32,
}

pub const RESIZE_EDGE_TOP: u32 = 1;
pub const RESIZE_EDGE_BOTTOM: u32 = 2;
pub const RESIZE_EDGE_LEFT: u32 = 4;
pub const RESIZE_EDGE_RIGHT: u32 = 8;

impl ResizeEdge {
    /// The edges of the protocol's resize-edge value, which has one bit per edge; `None` for
    /// a value with other bits set.
    pub fn from_bits(bits: u32) -> (r: Option<ResizeEdge>)
        ensures
            r == (if bits < 16 { Some(ResizeEdge { bits }) } else { None }),
    {
        if bits < 16 {
            Some(ResizeEdge { bits })
        } else {
            None
        }
    }

    /// Whether every edge of `other` is among these.
    pub fn contains(self, other: ResizeEdge) -> (r: bool)
        ensures
            r == (self.bits & other.bits == other.bits),
    {
        self.bits & other.bits == other.bits
    }
}

/// Whether the window should be drawn tiled (without client-side decorations): what the rule
/// forces, else what the decoration protocols settled (`Some(true)` for server-side, the XDG
/// protocol first), else `prefer_no_csd`. A client using the KDE protocol in client-side mode
/// still gets `prefer_no_csd`.
pub open spec fn should_tile(
    force_tiled: Option<bool>,
    xdg_server_side: Option<bool>,
    kde_server_side: Option<bool>,
    prefer_no_csd: bool,
) -> bool {
    match force_tiled {
        Some(t) => t,
        None => match xdg_server_side {
            Some(s) => s,
            None => match kde_server_side {
                Some(s) => s || prefer_no_csd,
                None => prefer_no_csd,
            },
        },
    }
}

/// Sets the tiled state of the next configure of `role` as `should_tile` decides.
pub fn update_tiled_state(
    role: &mut ToplevelRole,
    prefer_no_csd: bool,
    force_tiled: Option<bool>,
    xdg_server_side: Option<bool>,
    kde_server_side: Option<bool>,
)
    ensures
        final(role).server_pending == Some(
            ToplevelState {
                tiled: should_tile(force_tiled, xdg_server_side, kde_server_side, prefer_no_csd),
                ..old(role).pending_state_spec()
            },
        ),
        final(role).pending_configures@ == old(role).pending_configures@,
        final(role).last_acked == old(role).last_acked,
        final(role).configure_serial == old(role).configure_serial,
        final(role).current_serial == old(role).current_serial,
        final(role).current == old(role).current,
{
    let tiled = match force_tiled {
        Some(t) => t,
        None => match xdg_server_side {
            Some(s) => s,
            None => match kde_server_side {
                Some(s) => s || prefer_no_csd,
                None => prefer_no_csd,
            },
        },
    };
    let p = role.pending_state();
    role.set_pending_state(ToplevelState { tiled, ..p });
}

/// Whether the window has server-side decorations: as the XDG decoration protocol says, and
/// where the client does not use it, as the KDE one says.
pub fn has_ssd(xdg_server_side: Option<bool>, kde_server_side: Option<bool>) -> (r: bool)
    ensures
        r == (match xdg_server_side {
            Some(s) => s,
            None => kde_server_side == Some(true),
        }),
{
    match xdg_server_side {
        Some(s) => s,
        None => match kde_server_side {
            Some(s) => s,
            None => false,
        },
    }
}

} // verus!
