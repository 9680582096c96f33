use vstd::prelude::*;

use super::toplevel::{no_older_than, same_but_size, Serial, ToplevelRole, ToplevelState};
use super::{ResolvedWindowRules, WindowInfo, WindowRule};
use crate::utils::id::IdCounter;
use crate::utils::{should_tile, update_tiled_state, Size};

verus! {

/// The unique identifier of a mapped window.
#[derive(Debug, Clone, Copy, PartialEq, Eq, Hash, Structural)]
pub struct MappedId(u64);

impl MappedId {
    pub closed spec fn value(self) -> u64 {
        self.0
    }

    /// The next identifier that `counter` hands out.
    pub fn next(counter: &mut IdCounter) -> (r: MappedId)
        ensures
            r.value() == old(counter).peek(),
            final(counter).peek() == (if r.value() == u64::MAX {
                0
            } else {
                (r.value() + 1) as u64
            }),
    {
        MappedId(counter.next())
    }

    pub fn get(self) -> (r: u64)
        ensures
            r == self.value(),
    {
        self.0
    }
}

/// Where a one-shot size request stands.
#[derive(Debug, Clone, Copy, PartialEq, Eq, Structural)]
pub enum RequestSizeOnce {
    /// The size is to go out with the next configure.
    WaitingForConfigure,
    /// The size went out with this configure; the client has not committed to it yet.
    WaitingForCommit(Serial),
    /// The client has answered: from now on the window's own size is used.
    UseWindowSize,
}

/// What an interactive resize started with.
#[derive(Debug, Clone, Copy, PartialEq, Eq, Structural)]
pub struct InteractiveResizeData {
    /// The edges being dragged, as `ResizeEdge` bits.
    pub edges: u32,
}

/// Where an interactive resize stands.
#[derive(Debug, Clone, Copy, PartialEq, Eq, Structural)]
pub enum InteractiveResize {
    /// The pointer is dragging.
    Ongoing(InteractiveResizeData),
    /// The drag ended; the last size is to go out with the next configure.
    WaitingForLastConfigure(InteractiveResizeData),
    /// The last size went out with this configure; waiting for the client to commit it.
    WaitingForLastCommit { data: InteractiveResizeData, serial: Serial },
}

impl InteractiveResize {
    pub open spec fn data_spec(self) -> InteractiveResizeData {
        match self {
            InteractiveResize::Ongoing(data) => data,
            InteractiveResize::WaitingForLastConfigure(data) => data,
            InteractiveResize::WaitingForLastCommit { data, .. } => data,
        }
    }

    pub fn data(&self) -> (r: InteractiveResizeData)
        ensures
            r == self.data_spec(),
    {
        match self {
            InteractiveResize::Ongoing(data) => *data,
            InteractiveResize::WaitingForLastConfigure(data) => *data,
            InteractiveResize::WaitingForLastCommit { data, .. } => *data,
        }
    }
}

/// Whether a window's pending changes should go out now.
#[derive(Debug, Clone, Copy, PartialEq, Eq, Structural)]
pub enum ConfigureIntent {
    /// Nothing changed since the last configure.
    NotNeeded,
    /// Only the size changed, and the client has committed to the previous size.
    CanSend,
    /// Only the size changed, and the client has not caught up with the previous size yet.
    Throttled,
    /// Something else changed, or a configure was asked for.
    ShouldSend,
}

/// `request_size_once` after a configure went out under `serial`.
pub open spec fn rso_after_send(rso: Option<RequestSizeOnce>, serial: Serial) -> Option<RequestSizeOnce> {
    match rso {
        Some(RequestSizeOnce::WaitingForConfigure) => Some(RequestSizeOnce::WaitingForCommit(serial)),
        _ => rso,
    }
}

/// `request_size_once` after the client committed for configure `serial`.
pub open spec fn rso_after_commit(rso: Option<RequestSizeOnce>, serial: Serial) -> Option<RequestSizeOnce> {
    match rso {
        Some(RequestSizeOnce::WaitingForCommit(s)) => if no_older_than(serial, s) {
            Some(RequestSizeOnce::UseWindowSize)
        } else {
            rso
        },
        _ => rso,
    }
}

/// The interactive resize after a configure went out under `serial`.
pub open spec fn resize_after_send(ir: Option<InteractiveResize>, serial: Serial) -> Option<InteractiveResize> {
    match ir {
        Some(InteractiveResize::WaitingForLastConfigure(data)) => Some(
            InteractiveResize::WaitingForLastCommit { data, serial },
        ),
        _ => ir,
    }
}

/// The interactive resize after the client committed for configure `serial`.
pub open spec fn resize_after_commit(ir: Option<InteractiveResize>, serial: Serial) -> Option<InteractiveResize> {
    match ir {
        Some(InteractiveResize::WaitingForLastCommit { serial: s, .. }) => if no_older_than(serial, s) {
            None
        } else {
            ir
        },
        _ => ir,
    }
}

/// An entry that a commit for configure `serial` does not cover.
pub open spec fn entry_waits<T>(serial: Serial) -> spec_fn((Serial, T)) -> bool {
    |e: (Serial, T)| !no_older_than(serial, e.0)
}

/// A serial that a commit for configure `serial` does not cover.
pub open spec fn serial_waits(serial: Serial) -> spec_fn(Serial) -> bool {
    |s: Serial| !no_older_than(serial, s)
}

/// The entries of `q` that a commit for configure `serial` leaves waiting.
pub open spec fn still_waiting<T>(q: Seq<(Serial, T)>, serial: Serial) -> Seq<(Serial, T)> {
    q.filter(entry_waits(serial))
}

/// The serials of `q` that a commit for configure `serial` leaves waiting.
pub open spec fn serials_still_waiting(q: Seq<Serial>, serial: Serial) -> Seq<Serial> {
    q.filter(serial_waits(serial))
}

/// The windowed-fullscreen flag after a commit for configure `serial`: the value sent with the
/// newest configure that the commit covers, if any.
pub open spec fn windowed_fullscreen_after_commit(
    q: Seq<(Serial, bool)>,
    serial: Serial,
    flag: bool,
) -> bool
    decreases q.len(),
{
    if q.len() == 0 {
        flag
    } else if no_older_than(serial, q.last().0) {
        q.last().1
    } else {
        windowed_fullscreen_after_commit(q.drop_last(), serial, flag)
    }
}

/// `s` with its size set to `size`.
pub open spec fn with_size(s: ToplevelState, size: Option<Size>) -> ToplevelState {
    ToplevelState { size, ..s }
}

/// A size component of zero, or no size, lets the client choose: read as zero.
pub open spec fn size_or_zero(s: Option<Size>) -> Size {
    match s {
        Some(v) => v,
        None => Size { w: 0, h: 0 },
    }
}

fn size_or_zero_exec(s: Option<Size>) -> (r: Size)
    ensures
        r == size_or_zero(s),
{
    match s {
        Some(v) => v,
        None => Size { w: 0, h: 0 },
    }
}

/// A toplevel window that is mapped: the configure bookkeeping that the layout drives, and the
/// flags that window rules read.
#[derive(Debug)]
pub struct Mapped {
    id: MappedId,
    role: ToplevelRole,
    rules: ResolvedWindowRules,
    window_size: Size,
    need_to_recompute_rules: bool,
    needs_configure: bool,
    needs_frame_callback: bool,
    is_urgent: bool,
    is_focused: bool,
    is_active_in_column: bool,
    is_floating: bool,
    is_window_cast_target: bool,
    ignore_opacity_window_rule: bool,
    animate_next_configure: bool,
    animate_serials: Vec<Serial>,
    request_size_once: Option<RequestSizeOnce>,
    transaction_for_next_configure: Option<u64>,
    pending_transactions: Vec<(Serial, u64)>,
    interactive_resize: Option<InteractiveResize>,
    is_windowed_fullscreen: bool,
    is_pending_windowed_fullscreen: bool,
    uncommited_windowed_fullscreen: Vec<(Serial, bool)>,
}

impl Mapped {
    pub closed spec fn id_spec(self) -> MappedId {
        self.id
    }

    /// The window rules that apply to the window.
    pub closed spec fn rules_spec(self) -> ResolvedWindowRules {
        self.rules
    }

    /// The protocol state of the window's surface.
    pub closed spec fn role_spec(self) -> ToplevelRole {
        self.role
    }

    /// The size of the window's committed geometry.
    pub closed spec fn window_size_spec(self) -> Size {
        self.window_size
    }

    pub closed spec fn recompute_rules_spec(self) -> bool {
        self.need_to_recompute_rules
    }

    /// A configure must go out even if nothing seems to have changed.
    pub closed spec fn needs_configure_spec(self) -> bool {
        self.needs_configure
    }

    pub closed spec fn needs_frame_callback_spec(self) -> bool {
        self.needs_frame_callback
    }

    pub closed spec fn urgent_spec(self) -> bool {
        self.is_urgent
    }

    pub closed spec fn focused_spec(self) -> bool {
        self.is_focused
    }

    pub closed spec fn active_in_column_spec(self) -> bool {
        self.is_active_in_column
    }

    pub closed spec fn floating_spec(self) -> bool {
        self.is_floating
    }

    pub closed spec fn cast_target_spec(self) -> bool {
        self.is_window_cast_target
    }

    pub closed spec fn ignore_opacity_spec(self) -> bool {
        self.ignore_opacity_window_rule
    }

    /// The next configure's change is to be animated.
    pub closed spec fn animate_next_spec(self) -> bool {
        self.animate_next_configure
    }

    /// Serials of sent configures whose commit is to be animated, oldest first.
    pub closed spec fn animate_serials_spec(self) -> Seq<Serial> {
        self.animate_serials@
    }

    pub closed spec fn rso_spec(self) -> Option<RequestSizeOnce> {
        self.request_size_once
    }

    /// The transaction handle that goes with the next configure.
    pub closed spec fn next_transaction_spec(self) -> Option<u64> {
        self.transaction_for_next_configure
    }

    /// Transaction handles of sent configures, waiting for the commit, oldest first.
    pub closed spec fn pending_transactions_spec(self) -> Seq<(Serial, u64)> {
        self.pending_transactions@
    }

    pub closed spec fn resize_spec(self) -> Option<InteractiveResize> {
        self.interactive_resize
    }

    pub closed spec fn windowed_fullscreen_spec(self) -> bool {
        self.is_windowed_fullscreen
    }

    pub closed spec fn pending_windowed_fullscreen_spec(self) -> bool {
        self.is_pending_windowed_fullscreen
    }

    /// Windowed-fullscreen values sent with configures the client has not committed yet.
    pub closed spec fn uncommitted_wf_spec(self) -> Seq<(Serial, bool)> {
        self.uncommited_windowed_fullscreen@
    }

    /// A mapped window has had its initial configure acknowledged.
    pub open spec fn wf(self) -> bool {
        self.role_spec().last_acked is Some && self.role_spec().configure_serial is Some
    }

    /// The flags that window rules read are the same in `a` and `b`.
    pub open spec fn same_flags(a: Mapped, b: Mapped) -> bool {
        &&& a.id_spec() == b.id_spec()
        &&& a.rules_spec() == b.rules_spec()
        &&& a.recompute_rules_spec() == b.recompute_rules_spec()
        &&& a.urgent_spec() == b.urgent_spec()
        &&& a.focused_spec() == b.focused_spec()
        &&& a.active_in_column_spec() == b.active_in_column_spec()
        &&& a.floating_spec() == b.floating_spec()
        &&& a.cast_target_spec() == b.cast_target_spec()
        &&& a.ignore_opacity_spec() == b.ignore_opacity_spec()
    }

    /// The configure bookkeeping outside the protocol state is the same in `a` and `b`.
    pub open spec fn same_bookkeeping(a: Mapped, b: Mapped) -> bool {
        &&& a.window_size_spec() == b.window_size_spec()
        &&& a.needs_configure_spec() == b.needs_configure_spec()
        &&& a.needs_frame_callback_spec() == b.needs_frame_callback_spec()
        &&& a.animate_next_spec() == b.animate_next_spec()
        &&& a.animate_serials_spec() == b.animate_serials_spec()
        &&& a.rso_spec() == b.rso_spec()
        &&& a.next_transaction_spec() == b.next_transaction_spec()
        &&& a.pending_transactions_spec() == b.pending_transactions_spec()
        &&& a.resize_spec() == b.resize_spec()
        &&& a.windowed_fullscreen_spec() == b.windowed_fullscreen_spec()
        &&& a.pending_windowed_fullscreen_spec() == b.pending_windowed_fullscreen_spec()
        &&& a.uncommitted_wf_spec() == b.uncommitted_wf_spec()
    }

    /// The two protocol states are the same.
    pub open spec fn same_role(a: ToplevelRole, b: ToplevelRole) -> bool {
        &&& a.server_pending == b.server_pending
        &&& a.pending_configures@ == b.pending_configures@
        &&& a.last_acked == b.last_acked
        &&& a.configure_serial == b.configure_serial
        &&& a.current_serial == b.current_serial
        &&& a.current == b.current
    }

    /// The protocol states are the same but for the prepared state, which `b` holds as `p`.
    pub open spec fn role_with_pending(a: ToplevelRole, b: ToplevelRole, p: ToplevelState) -> bool {
        &&& b.server_pending == Some(p)
        &&& a.pending_configures@ == b.pending_configures@
        &&& a.last_acked == b.last_acked
        &&& a.configure_serial == b.configure_serial
        &&& a.current_serial == b.current_serial
        &&& a.current == b.current
    }

    /// A newly mapped window with the given protocol state and committed size.
    pub fn new(id: MappedId, role: ToplevelRole, window_size: Size, rules: ResolvedWindowRules) -> (r: Self)
        requires
            role.last_acked is Some,
            role.configure_serial is Some,
        ensures
            r.wf(),
            r.id_spec() == id,
            r.rules_spec() == rules,
            Self::same_role(r.role_spec(), role),
            r.window_size_spec() == window_size,
            !r.recompute_rules_spec(),
            !r.needs_configure_spec(),
            !r.needs_frame_callback_spec(),
            !r.urgent_spec(),
            !r.focused_spec(),
            r.active_in_column_spec(),
            !r.floating_spec(),
            !r.cast_target_spec(),
            !r.ignore_opacity_spec(),
            !r.animate_next_spec(),
            r.animate_serials_spec().len() == 0,
            r.rso_spec() is None,
            r.next_transaction_spec() is None,
            r.pending_transactions_spec().len() == 0,
            r.resize_spec() is None,
            !r.windowed_fullscreen_spec(),
            !r.pending_windowed_fullscreen_spec(),
            r.uncommitted_wf_spec().len() == 0,
    {
        Mapped {
            id,
            role,
            rules,
            window_size,
            need_to_recompute_rules: false,
            needs_configure: false,
            needs_frame_callback: false,
            is_urgent: false,
            is_focused: false,
            is_active_in_column: true,
            is_floating: false,
            is_window_cast_target: false,
            ignore_opacity_window_rule: false,
            animate_next_configure: false,
            animate_serials: Vec::new(),
            request_size_once: None,
            transaction_for_next_configure: None,
            pending_transactions: Vec::new(),
            interactive_resize: None,
            is_windowed_fullscreen: false,
            is_pending_windowed_fullscreen: false,
            uncommited_windowed_fullscreen: Vec::new(),
        }
    }

    pub fn id(&self) -> (r: MappedId)
        ensures
            r == self.id_spec(),
    {
        self.id
    }

    pub fn role(&self) -> (r: &ToplevelRole)
        ensures
            *r == self.role_spec(),
    {
        &self.role
    }

    pub fn window_size(&self) -> (r: Size)
        ensures
            r == self.window_size_spec(),
    {
        self.window_size
    }
}

impl Mapped {
    pub fn set_needs_configure(&mut self)
        ensures
            final(self).needs_configure_spec(),
            Self::same_flags(*old(self), *final(self)),
            Self::same_role(old(self).role_spec(), final(self).role_spec()),
            final(self).animate_serials_spec() == old(self).animate_serials_spec(),
            final(self).rso_spec() == old(self).rso_spec(),
            final(self).next_transaction_spec() == old(self).next_transaction_spec(),
            final(self).pending_transactions_spec() == old(self).pending_transactions_spec(),
            final(self).resize_spec() == old(self).resize_spec(),
            final(self).uncommitted_wf_spec() == old(self).uncommitted_wf_spec(),
    {
        self.needs_configure = true;
    }

    pub fn is_focused(&self) -> (r: bool)
        ensures
            r == self.focused_spec(),
    {
        self.is_focused
    }

    pub fn is_active_in_column(&self) -> (r: bool)
        ensures
            r == self.active_in_column_spec(),
    {
        self.is_active_in_column
    }

    pub fn is_floating(&self) -> (r: bool)
        ensures
            r == self.floating_spec(),
    {
        self.is_floating
    }

    pub fn is_window_cast_target(&self) -> (r: bool)
        ensures
            r == self.cast_target_spec(),
    {
        self.is_window_cast_target
    }

    pub fn is_urgent(&self) -> (r: bool)
        ensures
            r == self.urgent_spec(),
    {
        self.is_urgent
    }

    pub fn is_windowed_fullscreen(&self) -> (r: bool)
        ensures
            r == self.windowed_fullscreen_spec(),
    {
        self.is_windowed_fullscreen
    }

    pub fn is_pending_windowed_fullscreen(&self) -> (r: bool)
        ensures
            r == self.pending_windowed_fullscreen_spec(),
    {
        self.is_pending_windowed_fullscreen
    }

    pub fn is_ignoring_opacity_window_rule(&self) -> (r: bool)
        ensures
            r == self.ignore_opacity_spec(),
    {
        self.ignore_opacity_window_rule
    }

    /// Whether the flags that window rules read changed since the rules were last computed.
    pub fn needs_recompute_rules(&self) -> (r: bool)
        ensures
            r == self.recompute_rules_spec(),
    {
        self.need_to_recompute_rules
    }

    pub fn toggle_ignore_opacity_window_rule(&mut self)
        ensures
            final(self).ignore_opacity_spec() == !old(self).ignore_opacity_spec(),
            final(self).id_spec() == old(self).id_spec(),
            final(self).rules_spec() == old(self).rules_spec(),
            final(self).recompute_rules_spec() == old(self).recompute_rules_spec(),
            final(self).urgent_spec() == old(self).urgent_spec(),
            final(self).focused_spec() == old(self).focused_spec(),
            Self::same_role(old(self).role_spec(), final(self).role_spec()),
            Self::same_bookkeeping(*old(self), *final(self)),
    {
        self.ignore_opacity_window_rule = !self.ignore_opacity_window_rule;
    }

    /// Focusing or unfocusing a window clears its urgency; a change calls for the rules to be
    /// computed again.
    pub fn set_is_focused(&mut self, is_focused: bool)
        ensures
            final(self).focused_spec() == is_focused,
            final(self).urgent_spec() == (old(self).urgent_spec() && old(self).focused_spec()
                == is_focused),
            final(self).recompute_rules_spec() == (old(self).recompute_rules_spec()
                || old(self).focused_spec() != is_focused),
            final(self).id_spec() == old(self).id_spec(),
            final(self).rules_spec() == old(self).rules_spec(),
            final(self).floating_spec() == old(self).floating_spec(),
            final(self).active_in_column_spec() == old(self).active_in_column_spec(),
            final(self).cast_target_spec() == old(self).cast_target_spec(),
            final(self).ignore_opacity_spec() == old(self).ignore_opacity_spec(),
            Self::same_role(old(self).role_spec(), final(self).role_spec()),
            Self::same_bookkeeping(*old(self), *final(self)),
    {
        if self.is_focused == is_focused {
            return;
        }
        self.is_focused = is_focused;
        self.is_urgent = false;
        self.need_to_recompute_rules = true;
    }

    pub fn set_is_window_cast_target(&mut self, value: bool)
        ensures
            final(self).cast_target_spec() == value,
            final(self).recompute_rules_spec() == (old(self).recompute_rules_spec()
                || old(self).cast_target_spec() != value),
            final(self).id_spec() == old(self).id_spec(),
            final(self).rules_spec() == old(self).rules_spec(),
            final(self).urgent_spec() == old(self).urgent_spec(),
            final(self).focused_spec() == old(self).focused_spec(),
            final(self).floating_spec() == old(self).floating_spec(),
            final(self).active_in_column_spec() == old(self).active_in_column_spec(),
            final(self).ignore_opacity_spec() == old(self).ignore_opacity_spec(),
            Self::same_role(old(self).role_spec(), final(self).role_spec()),
            Self::same_bookkeeping(*old(self), *final(self)),
    {
        if self.is_window_cast_target == value {
            return;
        }
        self.is_window_cast_target = value;
        self.need_to_recompute_rules = true;
    }

    /// A focused window cannot become urgent.
    pub fn set_urgent(&mut self, urgent: bool)
        ensures
            final(self).urgent_spec() == (if old(self).focused_spec() && urgent {
                old(self).urgent_spec()
            } else {
                urgent
            }),
            final(self).recompute_rules_spec() == (old(self).recompute_rules_spec()
                || final(self).urgent_spec() != old(self).urgent_spec()),
            final(self).id_spec() == old(self).id_spec(),
            final(self).rules_spec() == old(self).rules_spec(),
            final(self).focused_spec() == old(self).focused_spec(),
            final(self).cast_target_spec() == old(self).cast_target_spec(),
            final(self).floating_spec() == old(self).floating_spec(),
            final(self).active_in_column_spec() == old(self).active_in_column_spec(),
            final(self).ignore_opacity_spec() == old(self).ignore_opacity_spec(),
            Self::same_role(old(self).role_spec(), final(self).role_spec()),
            Self::same_bookkeeping(*old(self), *final(self)),
    {
        if self.is_focused && urgent {
            return;
        }
        let changed = self.is_urgent != urgent;
        self.is_urgent = urgent;
        self.need_to_recompute_rules = self.need_to_recompute_rules || changed;
    }

    pub fn set_active_in_column(&mut self, active: bool)
        ensures
            final(self).active_in_column_spec() == active,
            final(self).recompute_rules_spec() == (old(self).recompute_rules_spec()
                || old(self).active_in_column_spec() != active),
            final(self).id_spec() == old(self).id_spec(),
            final(self).rules_spec() == old(self).rules_spec(),
            final(self).urgent_spec() == old(self).urgent_spec(),
            final(self).focused_spec() == old(self).focused_spec(),
            final(self).cast_target_spec() == old(self).cast_target_spec(),
            final(self).floating_spec() == old(self).floating_spec(),
            final(self).ignore_opacity_spec() == old(self).ignore_opacity_spec(),
            Self::same_role(old(self).role_spec(), final(self).role_spec()),
            Self::same_bookkeeping(*old(self), *final(self)),
    {
        let changed = self.is_active_in_column != active;
        self.is_active_in_column = active;
        self.need_to_recompute_rules = self.need_to_recompute_rules || changed;
    }

    pub fn set_floating(&mut self, floating: bool)
        ensures
            final(self).floating_spec() == floating,
            final(self).recompute_rules_spec() == (old(self).recompute_rules_spec()
                || old(self).floating_spec() != floating),
            final(self).id_spec() == old(self).id_spec(),
            final(self).rules_spec() == old(self).rules_spec(),
            final(self).urgent_spec() == old(self).urgent_spec(),
            final(self).focused_spec() == old(self).focused_spec(),
            final(self).cast_target_spec() == old(self).cast_target_spec(),
            final(self).active_in_column_spec() == old(self).active_in_column_spec(),
            final(self).ignore_opacity_spec() == old(self).ignore_opacity_spec(),
            Self::same_role(old(self).role_spec(), final(self).role_spec()),
            Self::same_bookkeeping(*old(self), *final(self)),
    {
        let changed = self.is_floating != floating;
        self.is_floating = floating;
        self.need_to_recompute_rules = self.need_to_recompute_rules || changed;
    }

    /// Sets the activated state of the next configure; a change calls for the rules to be
    /// computed again.
    pub fn set_activated(&mut self, active: bool)
        ensures
            Self::role_with_pending(
                old(self).role_spec(),
                final(self).role_spec(),
                ToplevelState { activated: active, ..old(self).role_spec().pending_state_spec() },
            ),
            final(self).recompute_rules_spec() == (old(self).recompute_rules_spec()
                || old(self).role_spec().pending_state_spec().activated != active),
            final(self).id_spec() == old(self).id_spec(),
            final(self).rules_spec() == old(self).rules_spec(),
            final(self).urgent_spec() == old(self).urgent_spec(),
            final(self).focused_spec() == old(self).focused_spec(),
            final(self).cast_target_spec() == old(self).cast_target_spec(),
            final(self).floating_spec() == old(self).floating_spec(),
            final(self).active_in_column_spec() == old(self).active_in_column_spec(),
            final(self).ignore_opacity_spec() == old(self).ignore_opacity_spec(),
            Self::same_bookkeeping(*old(self), *final(self)),
    {
        let p = self.role.pending_state();
        let changed = p.activated != active;
        let next = ToplevelState { activated: active, ..p };
        self.role.set_pending_state(next);
        if changed {
            self.need_to_recompute_rules = true;
        }
    }

    /// Sets the bounds of the next configure.
    pub fn set_bounds(&mut self, bounds: Size)
        ensures
            Self::role_with_pending(
                old(self).role_spec(),
                final(self).role_spec(),
                ToplevelState { bounds: Some(bounds), ..old(self).role_spec().pending_state_spec() },
            ),
            Self::same_flags(*old(self), *final(self)),
            Self::same_bookkeeping(*old(self), *final(self)),
    {
        let p = self.role.pending_state();
        self.role.set_pending_state(ToplevelState { bounds: Some(bounds), ..p });
    }
}

/// Filtering a prefix one element longer adds that element when it passes.
proof fn lemma_filter_take_step<A>(s: Seq<A>, pred: spec_fn(A) -> bool, i: int)
    requires
        0 <= i < s.len(),
    ensures
        s.take(i + 1).filter(pred) == (if pred(s[i]) {
            s.take(i).filter(pred).push(s[i])
        } else {
            s.take(i).filter(pred)
        }),
{
    reveal(Seq::filter);
    assert(s.take(i + 1).drop_last() =~= s.take(i));
}

impl Mapped {
    /// Whether the commit for configure `commit_serial` is to be animated: true when it covers
    /// a configure that was sent to be animated. The covered serials are consumed; the others
    /// stay, in their order.
    pub fn should_animate_commit(&mut self, commit_serial: Serial) -> (r: bool)
        ensures
            r == (exists|i: int|
                0 <= i < old(self).animate_serials_spec().len() && no_older_than(
                    commit_serial,
                    #[trigger] old(self).animate_serials_spec()[i],
                )),
            final(self).animate_serials_spec() == serials_still_waiting(
                old(self).animate_serials_spec(),
                commit_serial,
            ),
            forall|i: int|
                0 <= i < final(self).animate_serials_spec().len() ==> !no_older_than(
                    commit_serial,
                    #[trigger] final(self).animate_serials_spec()[i],
                ),
            Self::same_flags(*old(self), *final(self)),
            Self::same_role(old(self).role_spec(), final(self).role_spec()),
            final(self).rso_spec() == old(self).rso_spec(),
            final(self).next_transaction_spec() == old(self).next_transaction_spec(),
            final(self).pending_transactions_spec() == old(self).pending_transactions_spec(),
            final(self).resize_spec() == old(self).resize_spec(),
            final(self).windowed_fullscreen_spec() == old(self).windowed_fullscreen_spec(),
            final(self).uncommitted_wf_spec() == old(self).uncommitted_wf_spec(),
    {
        let ghost q = self.animate_serials@;
        let ghost pred = serial_waits(commit_serial);
        let mut kept: Vec<Serial> = Vec::new();
        let mut should_animate = false;
        let n = self.animate_serials.len();
        let mut i: usize = 0;
        while i < n
            invariant
                n == q.len(),
                self.animate_serials@ == q,
                i <= n,
                pred == serial_waits(commit_serial),
                q == old(self).animate_serials@,
                kept@ == q.take(i as int).filter(pred),
                should_animate == (exists|j: int|
                    0 <= j < i && no_older_than(
                        commit_serial,
                        #[trigger] old(self).animate_serials_spec()[j],
                    )),
            decreases n - i,
        {
            let s = self.animate_serials[i];
            proof {
                lemma_filter_take_step(q, pred, i as int);
                assert(q[i as int] == s);
                assert(old(self).animate_serials_spec()[i as int] == s);
                assert(pred(s) == !no_older_than(commit_serial, s));
            }
            if commit_serial.is_no_older_than(&s) {
                should_animate = true;
            } else {
                kept.push(s);
            }
            i = i + 1;
        }
        proof {
            assert(q.take(n as int) =~= q);
        }
        self.animate_serials = kept;
        should_animate
    }

    /// Takes the transaction handles of every configure that the commit for `commit_serial`
    /// covers, oldest first. The caller keeps the last one, which goes with this commit, and
    /// drops the others.
    pub fn take_pending_transaction(&mut self, commit_serial: Serial) -> (r: Vec<u64>)
        ensures
            r@.len() <= old(self).pending_transactions_spec().len(),
            forall|i: int|
                0 <= i < r@.len() ==> no_older_than(
                    commit_serial,
                    (#[trigger] old(self).pending_transactions_spec()[i]).0,
                ) && r@[i] == old(self).pending_transactions_spec()[i].1,
            r@.len() < old(self).pending_transactions_spec().len() ==> !no_older_than(
                commit_serial,
                old(self).pending_transactions_spec()[r@.len() as int].0,
            ),
            final(self).pending_transactions_spec() == old(self).pending_transactions_spec().skip(
                r@.len() as int,
            ),
            Self::same_flags(*old(self), *final(self)),
            Self::same_role(old(self).role_spec(), final(self).role_spec()),
            final(self).animate_serials_spec() == old(self).animate_serials_spec(),
            final(self).rso_spec() == old(self).rso_spec(),
            final(self).next_transaction_spec() == old(self).next_transaction_spec(),
            final(self).resize_spec() == old(self).resize_spec(),
            final(self).windowed_fullscreen_spec() == old(self).windowed_fullscreen_spec(),
            final(self).uncommitted_wf_spec() == old(self).uncommitted_wf_spec(),
    {
        let ghost q = self.pending_transactions@;
        let n = self.pending_transactions.len();
        let mut taken: Vec<u64> = Vec::new();
        let mut i: usize = 0;
        while i < n
            invariant
                n == q.len(),
                self.pending_transactions@ == q,
                i <= n,
                taken@.len() == i,
                forall|j: int| 0 <= j < i ==> no_older_than(commit_serial, (#[trigger] q[j]).0) && taken@[j] == q[j].1,
            ensures
                i <= n,
                taken@.len() == i,
                i < n ==> !no_older_than(commit_serial, q[i as int].0),
                forall|j: int| 0 <= j < i ==> no_older_than(commit_serial, (#[trigger] q[j]).0) && taken@[j] == q[j].1,
            decreases n - i,
        {
            let (serial, transaction) = self.pending_transactions[i];
            if !commit_serial.is_no_older_than(&serial) {
                break;
            }
            taken.push(transaction);
            i = i + 1;
        }
        let rest = self.pending_transactions.split_off(i);
        self.pending_transactions = rest;
        taken
    }

    /// The client committed for configure `commit_serial`: an interactive resize waiting for
    /// it ends, a one-shot size request waiting for it moves to the window's own size, and the
    /// windowed-fullscreen values it covers take effect.
    pub fn on_commit(&mut self, commit_serial: Serial)
        ensures
            final(self).resize_spec() == resize_after_commit(old(self).resize_spec(), commit_serial),
            final(self).rso_spec() == rso_after_commit(old(self).rso_spec(), commit_serial),
            final(self).uncommitted_wf_spec() == still_waiting(
                old(self).uncommitted_wf_spec(),
                commit_serial,
            ),
            final(self).windowed_fullscreen_spec() == windowed_fullscreen_after_commit(
                old(self).uncommitted_wf_spec(),
                commit_serial,
                old(self).windowed_fullscreen_spec(),
            ),
            Self::same_flags(*old(self), *final(self)),
            Self::same_role(old(self).role_spec(), final(self).role_spec()),
            final(self).window_size_spec() == old(self).window_size_spec(),
            final(self).needs_configure_spec() == old(self).needs_configure_spec(),
            final(self).needs_frame_callback_spec() == old(self).needs_frame_callback_spec(),
            final(self).animate_next_spec() == old(self).animate_next_spec(),
            final(self).animate_serials_spec() == old(self).animate_serials_spec(),
            final(self).next_transaction_spec() == old(self).next_transaction_spec(),
            final(self).pending_transactions_spec() == old(self).pending_transactions_spec(),
            final(self).pending_windowed_fullscreen_spec()
                == old(self).pending_windowed_fullscreen_spec(),
    {
        self.interactive_resize = commit_resize(self.interactive_resize, commit_serial);
        self.request_size_once = commit_request_size_once(self.request_size_once, commit_serial);
        let (kept, flag) = commit_windowed_fullscreen(
            &self.uncommited_windowed_fullscreen,
            commit_serial,
            self.is_windowed_fullscreen,
        );
        self.uncommited_windowed_fullscreen = kept;
        self.is_windowed_fullscreen = flag;
    }
}

/// The entries of `q` that a commit for `commit_serial` leaves waiting, and the
/// windowed-fullscreen flag after it.
fn commit_windowed_fullscreen(q: &Vec<(Serial, bool)>, commit_serial: Serial, flag0: bool) -> (r: (
    Vec<(Serial, bool)>,
    bool,
))
    ensures
        r.0@ == still_waiting(q@, commit_serial),
        r.1 == windowed_fullscreen_after_commit(q@, commit_serial, flag0),
{
    let ghost pred = entry_waits::<bool>(commit_serial);
    let n = q.len();
    let mut kept: Vec<(Serial, bool)> = Vec::new();
    let mut flag = flag0;
    let mut i: usize = 0;
    while i < n
        invariant
            n == q@.len(),
            i <= n,
            pred == entry_waits::<bool>(commit_serial),
            kept@ == q@.take(i as int).filter(pred),
            flag == windowed_fullscreen_after_commit(q@.take(i as int), commit_serial, flag0),
        decreases n - i,
    {
        let (serial, value) = q[i];
        proof {
            lemma_filter_take_step(q@, pred, i as int);
            assert(q@.take(i + 1).drop_last() =~= q@.take(i as int));
            assert(pred(q@[i as int]) == !no_older_than(commit_serial, serial));
        }
        if commit_serial.is_no_older_than(&serial) {
            flag = value;
        } else {
            kept.push((serial, value));
        }
        i = i + 1;
    }
    proof {
        assert(q@.take(n as int) =~= q@);
    }
    (kept, flag)
}

fn commit_resize(ir: Option<InteractiveResize>, commit_serial: Serial) -> (r: Option<InteractiveResize>)
    ensures
        r == resize_after_commit(ir, commit_serial),
{
    if let Some(InteractiveResize::WaitingForLastCommit { serial, .. }) = ir {
        if commit_serial.is_no_older_than(&serial) {
            return None;
        }
    }
    ir
}

fn commit_request_size_once(rso: Option<RequestSizeOnce>, commit_serial: Serial) -> (r: Option<
    RequestSizeOnce,
>)
    ensures
        r == rso_after_commit(rso, commit_serial),
{
    if let Some(RequestSizeOnce::WaitingForCommit(serial)) = rso {
        if commit_serial.is_no_older_than(&serial) {
            return Some(RequestSizeOnce::UseWindowSize);
        }
    }
    rso
}

impl Mapped {
    /// The client shows the current state fullscreen, and not as windowed fullscreen.
    pub open spec fn is_fullscreen_spec(self) -> bool {
        !self.windowed_fullscreen_spec() && self.role_spec().current.fullscreen
    }

    /// The next configure asks for fullscreen, and not as windowed fullscreen.
    pub open spec fn is_pending_fullscreen_spec(self) -> bool {
        !self.pending_windowed_fullscreen_spec() && self.role_spec().pending_state_spec().fullscreen
    }

    /// A size change that is not committed yet, with whether it asks for fullscreen: one
    /// prepared and not sent, else one sent that the current state is older than.
    pub open spec fn uncommitted_size_spec(self) -> Option<(Size, bool)> {
        let role = self.role_spec();
        let cs = role.current_server_state_spec();
        if role.server_pending is Some && role.server_pending->0.size != cs.size {
            Some((size_or_zero(role.server_pending->0.size), role.server_pending->0.fullscreen))
        } else {
            match (role.last_sent_spec(), role.current_serial) {
                (Some(last), Some(c)) => if !no_older_than(c, last.0) {
                    Some((size_or_zero(last.1.size), last.1.fullscreen))
                } else {
                    None
                },
                _ => None,
            }
        }
    }

    /// The best estimate of the window's size once the pending changes land. The window's
    /// own size when a one-shot request has settled; else the uncommitted size, with zero
    /// components taken from the window's own size; else the window's own size. A fullscreen
    /// window's own size, and a pending real fullscreen, give no estimate.
    pub open spec fn expected_size_spec(self) -> Option<Size> {
        let current_size = if !self.is_fullscreen_spec() {
            Some(self.window_size_spec())
        } else {
            None
        };
        if self.rso_spec() == Some(RequestSizeOnce::UseWindowSize) {
            current_size
        } else {
            match self.uncommitted_size_spec() {
                Some((size, fullscreen)) => if fullscreen && !self.pending_windowed_fullscreen_spec() {
                    None
                } else if (size.w == 0 || size.h == 0) && current_size is None {
                    None
                } else {
                    Some(
                        Size {
                            w: if size.w == 0 { current_size->0.w } else { size.w },
                            h: if size.h == 0 { current_size->0.h } else { size.h },
                        },
                    )
                },
                None => current_size,
            }
        }
    }

    /// Whether the window's pending changes should go out now.
    pub open spec fn configure_intent_spec(self) -> ConfigureIntent {
        let role = self.role_spec();
        let cs = role.current_server_state_spec();
        if self.needs_configure_spec() {
            ConfigureIntent::ShouldSend
        } else {
            match role.server_pending {
                None => ConfigureIntent::NotNeeded,
                Some(sp) => if sp == cs {
                    ConfigureIntent::NotNeeded
                } else if same_but_size(sp, cs) {
                    if role.current.size == cs.size {
                        ConfigureIntent::CanSend
                    } else {
                        ConfigureIntent::Throttled
                    }
                } else {
                    ConfigureIntent::ShouldSend
                },
            }
        }
    }

    pub fn is_fullscreen(&self) -> (r: bool)
        ensures
            r == self.is_fullscreen_spec(),
    {
        if self.is_windowed_fullscreen {
            return false;
        }
        self.role.current.fullscreen
    }

    pub fn is_pending_fullscreen(&self) -> (r: bool)
        ensures
            r == self.is_pending_fullscreen_spec(),
    {
        if self.is_pending_windowed_fullscreen {
            return false;
        }
        self.role.pending_state().fullscreen
    }

    /// The size that the next configure asks for.
    pub fn requested_size(&self) -> (r: Option<Size>)
        ensures
            r == self.role_spec().pending_state_spec().size,
    {
        self.role.pending_state().size
    }

    fn uncommitted_size(&self) -> (r: Option<(Size, bool)>)
        ensures
            r == self.uncommitted_size_spec(),
    {
        let cs = self.role.current_server_state();
        if let Some(sp) = self.role.server_pending {
            if sp.size != cs.size {
                return Some((size_or_zero_exec(sp.size), sp.fullscreen));
            }
        }
        match (self.role.last_sent(), self.role.current_serial) {
            (Some(last), Some(c)) => {
                if !c.is_no_older_than(&last.0) {
                    Some((size_or_zero_exec(last.1.size), last.1.fullscreen))
                } else {
                    None
                }
            },
            _ => None,
        }
    }

    pub fn expected_size(&self) -> (r: Option<Size>)
        ensures
            r == self.expected_size_spec(),
    {
        let current_size = if !self.is_fullscreen() {
            Some(self.window_size)
        } else {
            None
        };
        if let Some(RequestSizeOnce::UseWindowSize) = self.request_size_once {
            return current_size;
        }
        match self.uncommitted_size() {
            Some((size, fullscreen)) => {
                if fullscreen && !self.is_pending_windowed_fullscreen {
                    return None;
                }
                let mut size = size;
                if size.w == 0 {
                    match current_size {
                        Some(c) => size.w = c.w,
                        None => return None,
                    }
                }
                if size.h == 0 {
                    match current_size {
                        Some(c) => size.h = c.h,
                        None => return None,
                    }
                }
                Some(size)
            },
            None => current_size,
        }
    }

    /// Whether the pending changes should go out now. A change of size alone is held back
    /// while the client has not committed to the previous size, so that a fast pointer does
    /// not send sizes faster than the client can follow.
    pub fn configure_intent(&self) -> (r: ConfigureIntent)
        ensures
            r == self.configure_intent_spec(),
    {
        if self.needs_configure {
            return ConfigureIntent::ShouldSend;
        }
        match self.role.server_pending {
            None => ConfigureIntent::NotNeeded,
            Some(sp) => {
                let cs = self.role.current_server_state();
                if sp == cs {
                    ConfigureIntent::NotNeeded
                } else if (ToplevelState { size: cs.size, ..sp }) == cs {
                    if self.role.current.size == cs.size {
                        ConfigureIntent::CanSend
                    } else {
                        ConfigureIntent::Throttled
                    }
                } else {
                    ConfigureIntent::ShouldSend
                }
            },
        }
    }
}

impl Mapped {
    /// What `request_size` does: `b` is `a` after asking for `size` (fullscreen or not,
    /// animated or not) with the transaction handle `transaction`; `dropped` is the handle it
    /// let go of.
    pub open spec fn request_size_post(
        a: Mapped,
        b: Mapped,
        size: Size,
        is_fullscreen: bool,
        animate: bool,
        transaction: Option<u64>,
        dropped: Option<u64>,
    ) -> bool {
        let pwf = if is_fullscreen { false } else { a.pending_windowed_fullscreen_spec() };
        let p = a.role_spec().pending_state_spec();
        let next = ToplevelState { size: Some(size), fullscreen: is_fullscreen || pwf, ..p };
        &&& b.pending_windowed_fullscreen_spec() == pwf
        &&& b.needs_configure_spec() == (a.needs_configure_spec() || (is_fullscreen
            && a.windowed_fullscreen_spec()))
        &&& Self::role_with_pending(a.role_spec(), b.role_spec(), next)
        &&& b.animate_next_spec() == (a.animate_next_spec() || (p.size != Some(size) && animate))
        &&& b.rso_spec() is None
        &&& b.next_transaction_spec() == (if transaction is Some {
            transaction
        } else {
            a.next_transaction_spec()
        })
        &&& dropped == (if transaction is Some {
            a.next_transaction_spec()
        } else {
            None
        })
        &&& Self::same_flags(a, b)
        &&& b.window_size_spec() == a.window_size_spec()
        &&& b.needs_frame_callback_spec() == a.needs_frame_callback_spec()
        &&& b.animate_serials_spec() == a.animate_serials_spec()
        &&& b.pending_transactions_spec() == a.pending_transactions_spec()
        &&& b.resize_spec() == a.resize_spec()
        &&& b.windowed_fullscreen_spec() == a.windowed_fullscreen_spec()
        &&& b.uncommitted_wf_spec() == a.uncommitted_wf_spec()
    }

    /// Asks the window for `size`, fullscreen or not. The change is to be animated when
    /// `animate` is set and the size changes. `transaction`, when given, goes with the next
    /// configure, even where the size does not change, so that every window of a resize uses
    /// the latest transaction. Returns the transaction handle that this replaced, for the
    /// caller to drop.
    pub fn request_size(
        &mut self,
        size: Size,
        is_fullscreen: bool,
        animate: bool,
        transaction: Option<u64>,
    ) -> (dropped: Option<u64>)
        ensures
            Self::request_size_post(
                *old(self),
                *final(self),
                size,
                is_fullscreen,
                animate,
                transaction,
                dropped,
            ),
    {
        let pwf = if is_fullscreen { false } else { self.is_pending_windowed_fullscreen };
        // A commit must come back to clear the windowed fullscreen flag.
        let needs_configure = self.needs_configure || (is_fullscreen && self.is_windowed_fullscreen);
        let p = self.role.pending_state();
        let changed = p.size != Some(size);
        let animate_next = self.animate_next_configure || (changed && animate);
        let (next_transaction, dropped) = match transaction {
            Some(t) => (Some(t), self.transaction_for_next_configure),
            None => (self.transaction_for_next_configure, None),
        };
        self.role.set_pending_state(ToplevelState { size: Some(size), fullscreen: is_fullscreen || pwf, ..p });
        self.is_pending_windowed_fullscreen = pwf;
        self.needs_configure = needs_configure;
        self.animate_next_configure = animate_next;
        self.request_size_once = None;
        self.transaction_for_next_configure = next_transaction;
        dropped
    }

    /// Asks a window that goes floating for `size` once; from then on the window keeps the
    /// size it chooses. When the last configure sent already asked for that size and
    /// fullscreen state, nothing new is sent: the request waits for the client to commit that
    /// configure, or settles at once if it has. The window leaves any transaction; the handle
    /// is returned for the caller to drop.
    pub fn request_size_once(&mut self, size: Size, animate: bool) -> (dropped: Option<u64>)
        requires
            old(self).wf(),
        ensures
            final(self).wf(),
            dropped == old(self).next_transaction_spec(),
            final(self).next_transaction_spec() is None,
            ({
                let last = old(self).role_spec().last_sent_spec()->0;
                let p = old(self).role_spec().pending_state_spec();
                if size_or_zero(last.1.size) == size && last.1.fullscreen
                    == old(self).pending_windowed_fullscreen_spec() {
                    &&& final(self).rso_spec() == Some(
                        match old(self).role_spec().current_serial {
                            Some(c) => if !no_older_than(c, last.0) {
                                RequestSizeOnce::WaitingForCommit(last.0)
                            } else {
                                RequestSizeOnce::UseWindowSize
                            },
                            None => RequestSizeOnce::UseWindowSize,
                        },
                    )
                    &&& Self::same_role(old(self).role_spec(), final(self).role_spec())
                    &&& final(self).animate_next_spec() == old(self).animate_next_spec()
                } else {
                    &&& final(self).rso_spec() == Some(RequestSizeOnce::WaitingForConfigure)
                    &&& Self::role_with_pending(
                        old(self).role_spec(),
                        final(self).role_spec(),
                        ToplevelState {
                            size: Some(size),
                            fullscreen: old(self).pending_windowed_fullscreen_spec() && p.fullscreen,
                            ..p
                        },
                    )
                    &&& final(self).animate_next_spec() == (old(self).animate_next_spec() || (
                    p.size != Some(size) && animate))
                }
            }),
            Self::same_flags(*old(self), *final(self)),
            final(self).window_size_spec() == old(self).window_size_spec(),
            final(self).needs_configure_spec() == old(self).needs_configure_spec(),
            final(self).needs_frame_callback_spec() == old(self).needs_frame_callback_spec(),
            final(self).animate_serials_spec() == old(self).animate_serials_spec(),
            final(self).pending_transactions_spec() == old(self).pending_transactions_spec(),
            final(self).resize_spec() == old(self).resize_spec(),
            final(self).windowed_fullscreen_spec() == old(self).windowed_fullscreen_spec(),
            final(self).pending_windowed_fullscreen_spec()
                == old(self).pending_windowed_fullscreen_spec(),
            final(self).uncommitted_wf_spec() == old(self).uncommitted_wf_spec(),
    {
        let dropped = self.transaction_for_next_configure;
        let last = match self.role.last_sent() {
            Some(last) => last,
            None => {
                proof {
                    assert(false);
                }
                return dropped;
            },
        };
        let same_size = size_or_zero_exec(last.1.size) == size;
        let same_fullscreen = last.1.fullscreen == self.is_pending_windowed_fullscreen;
        if same_size && same_fullscreen {
            let settled = match self.role.current_serial {
                Some(c) => if !c.is_no_older_than(&last.0) {
                    // Sent, but the client has not committed to it yet.
                    RequestSizeOnce::WaitingForCommit(last.0)
                } else {
                    RequestSizeOnce::UseWindowSize
                },
                None => RequestSizeOnce::UseWindowSize,
            };
            self.transaction_for_next_configure = None;
            self.request_size_once = Some(settled);
        } else {
            let p = self.role.pending_state();
            let changed = p.size != Some(size);
            let fullscreen = self.is_pending_windowed_fullscreen && p.fullscreen;
            let animate_next = self.animate_next_configure || (changed && animate);
            self.role.set_pending_state(ToplevelState { size: Some(size), fullscreen, ..p });
            self.transaction_for_next_configure = None;
            self.animate_next_configure = animate_next;
            self.request_size_once = Some(RequestSizeOnce::WaitingForConfigure);
        }
        dropped
    }
}

/// The prepared state as `send_pending_configure` reads it: while a one-shot size request has
/// settled, a change of size alone does not count, so the prepared size is reset to the last
/// sent one (unless a configure is forced anyway).
pub open spec fn adjusted_server_pending(w: Mapped) -> Option<ToplevelState> {
    let role = w.role_spec();
    if !w.needs_configure_spec() && w.rso_spec() == Some(RequestSizeOnce::UseWindowSize)
        && role.server_pending is Some {
        Some(with_size(role.server_pending->0, role.current_server_state_spec().size))
    } else {
        role.server_pending
    }
}

/// Whether `send_pending_configure` sends a configure.
pub open spec fn has_pending_changes(w: Mapped) -> bool {
    let sp = adjusted_server_pending(w);
    w.needs_configure_spec() || (sp is Some && sp->0 != w.role_spec().current_server_state_spec())
}

/// The state that `send_pending_configure` sends: the prepared one, with the window's own
/// size once a one-shot size request has settled.
pub open spec fn state_to_send(w: Mapped) -> ToplevelState {
    let p = match adjusted_server_pending(w) {
        Some(s) => s,
        None => w.role_spec().current_server_state_spec(),
    };
    if w.rso_spec() == Some(RequestSizeOnce::UseWindowSize) {
        with_size(p, Some(w.window_size_spec()))
    } else {
        p
    }
}

/// The last windowed-fullscreen value sent to the client.
pub open spec fn last_sent_windowed_fullscreen(w: Mapped) -> bool {
    let q = w.uncommitted_wf_spec();
    if q.len() > 0 { q.last().1 } else { w.windowed_fullscreen_spec() }
}

impl Mapped {
    /// What `send_pending_configure` does: `b` is `a` after it, with `serial` for the
    /// configure; `sent` is the state sent, if one was, and `dropped` the transaction handle
    /// let go of.
    pub open spec fn send_post(
        a: Mapped,
        b: Mapped,
        serial: Serial,
        sent: Option<ToplevelState>,
        dropped: Option<u64>,
    ) -> bool {
        let ra = a.role_spec();
        let rb = b.role_spec();
        &&& Self::same_flags(a, b)
        &&& b.window_size_spec() == a.window_size_spec()
        &&& b.windowed_fullscreen_spec() == a.windowed_fullscreen_spec()
        &&& b.pending_windowed_fullscreen_spec() == a.pending_windowed_fullscreen_spec()
        &&& !b.animate_next_spec()
        &&& b.next_transaction_spec() is None
        &&& rb.last_acked == ra.last_acked
        &&& rb.configure_serial == ra.configure_serial
        &&& rb.current_serial == ra.current_serial
        &&& rb.current == ra.current
        &&& if has_pending_changes(a) {
            let state = state_to_send(a);
            &&& sent == Some(state)
            &&& dropped is None
            &&& rb.server_pending is None
            &&& rb.pending_configures@ == ra.pending_configures@.push((serial, state))
            &&& !b.needs_configure_spec()
            &&& b.needs_frame_callback_spec()
            &&& b.animate_serials_spec() == (if a.animate_next_spec() {
                a.animate_serials_spec().push(serial)
            } else {
                a.animate_serials_spec()
            })
            &&& b.pending_transactions_spec() == (match a.next_transaction_spec() {
                Some(t) => a.pending_transactions_spec().push((serial, t)),
                None => a.pending_transactions_spec(),
            })
            &&& b.resize_spec() == resize_after_send(a.resize_spec(), serial)
            &&& b.rso_spec() == rso_after_send(a.rso_spec(), serial)
            &&& b.uncommitted_wf_spec() == (if last_sent_windowed_fullscreen(a)
                != a.pending_windowed_fullscreen_spec() {
                a.uncommitted_wf_spec().push((serial, a.pending_windowed_fullscreen_spec()))
            } else {
                a.uncommitted_wf_spec()
            })
        } else {
            &&& sent is None
            &&& dropped == a.next_transaction_spec()
            &&& rb.server_pending == adjusted_server_pending(a)
            &&& rb.pending_configures@ == ra.pending_configures@
            &&& b.needs_configure_spec() == a.needs_configure_spec()
            &&& b.needs_frame_callback_spec() == a.needs_frame_callback_spec()
            &&& b.animate_serials_spec() == a.animate_serials_spec()
            &&& b.pending_transactions_spec() == a.pending_transactions_spec()
            &&& b.resize_spec() == (match a.resize_spec() {
                Some(InteractiveResize::WaitingForLastConfigure(_)) => None,
                x => x,
            })
            &&& b.rso_spec() == a.rso_spec()
            &&& b.uncommitted_wf_spec() == a.uncommitted_wf_spec()
        }
    }

    /// Sends the pending changes to the client, if there are any (or a configure is forced),
    /// under `serial`, a serial the client has not seen yet. The configure carries what goes
    /// with it: its serial is remembered for animation, for the transaction of this
    /// configure, for an interactive resize that waits for its last configure, for a one-shot
    /// size request, and for a change of windowed fullscreen. Returns the state sent, if any,
    /// and the transaction handle that was let go of, for the caller to drop.
    pub fn send_pending_configure(&mut self, serial: Serial) -> (r: (Option<ToplevelState>, Option<u64>))
        requires
            old(self).wf(),
            forall|i: int|
                0 <= i < old(self).role_spec().pending_configures@.len() ==> (#[trigger] old(
                    self,
                ).role_spec().pending_configures@[i]).0 != serial,
        ensures
            final(self).wf(),
            Self::send_post(*old(self), *final(self), serial, r.0, r.1),
    {
        let ghost a = *self;
        let (adjusted, has_changes) = self.pending_changes();
        self.role.server_pending = adjusted;
        if has_changes {
            let state = self.record_configure(serial);
            proof {
                assert(state == state_to_send(a));
            }
            (Some(state), None)
        } else {
            // A resize that started and stopped without changing anything.
            self.interactive_resize = match self.interactive_resize {
                Some(InteractiveResize::WaitingForLastConfigure(_)) => None,
                x => x,
            };
            let dropped = self.transaction_for_next_configure;
            self.animate_next_configure = false;
            self.transaction_for_next_configure = None;
            (None, dropped)
        }
    }

    fn pending_changes(&self) -> (r: (Option<ToplevelState>, bool))
        ensures
            r.0 == adjusted_server_pending(*self),
            r.1 == has_pending_changes(*self),
    {
        let cs = self.role.current_server_state();
        let use_window_size = match self.request_size_once {
            Some(RequestSizeOnce::UseWindowSize) => true,
            _ => false,
        };
        let adjusted = match self.role.server_pending {
            Some(sp) => if !self.needs_configure && use_window_size {
                Some(ToplevelState { size: cs.size, ..sp })
            } else {
                Some(sp)
            },
            None => None,
        };
        let has_changes = self.needs_configure || match adjusted {
            Some(sp) => sp != cs,
            None => false,
        };
        (adjusted, has_changes)
    }

    /// Sends the prepared state under `serial` and records what goes with the configure.
    fn record_configure(&mut self, serial: Serial) -> (state: ToplevelState)
        ensures
            state == (if old(self).rso_spec() == Some(RequestSizeOnce::UseWindowSize) {
                with_size(old(self).role_spec().pending_state_spec(), Some(old(self).window_size_spec()))
            } else {
                old(self).role_spec().pending_state_spec()
            }),
            final(self).role_spec().server_pending is None,
            final(self).role_spec().pending_configures@ == old(self).role_spec().pending_configures@.push((serial, state)),
            final(self).role_spec().last_acked == old(self).role_spec().last_acked,
            final(self).role_spec().configure_serial == old(self).role_spec().configure_serial,
            final(self).role_spec().current_serial == old(self).role_spec().current_serial,
            final(self).role_spec().current == old(self).role_spec().current,
            Self::same_flags(*old(self), *final(self)),
            final(self).window_size_spec() == old(self).window_size_spec(),
            final(self).windowed_fullscreen_spec() == old(self).windowed_fullscreen_spec(),
            final(self).pending_windowed_fullscreen_spec() == old(self).pending_windowed_fullscreen_spec(),
            !final(self).animate_next_spec(),
            final(self).next_transaction_spec() is None,
            !final(self).needs_configure_spec(),
            final(self).needs_frame_callback_spec(),
            final(self).animate_serials_spec() == (if old(self).animate_next_spec() {
                old(self).animate_serials_spec().push(serial)
            } else {
                old(self).animate_serials_spec()
            }),
            final(self).pending_transactions_spec() == (match old(self).next_transaction_spec() {
                Some(t) => old(self).pending_transactions_spec().push((serial, t)),
                None => old(self).pending_transactions_spec(),
            }),
            final(self).resize_spec() == resize_after_send(old(self).resize_spec(), serial),
            final(self).rso_spec() == rso_after_send(old(self).rso_spec(), serial),
            final(self).uncommitted_wf_spec() == (if last_sent_windowed_fullscreen(*old(self))
                != old(self).pending_windowed_fullscreen_spec() {
                old(self).uncommitted_wf_spec().push((serial, old(self).pending_windowed_fullscreen_spec()))
            } else {
                old(self).uncommitted_wf_spec()
            }),
    {
        let state = send_role(&mut self.role, serial, self.request_size_once == Some(RequestSizeOnce::UseWindowSize), self.window_size);
        push_if(&mut self.animate_serials, self.animate_next_configure, serial);
        let t = self.transaction_for_next_configure;
        push_if(&mut self.pending_transactions, t.is_some(), (serial, unwrap_or_zero(t)));
        record_windowed_fullscreen(
            &mut self.uncommited_windowed_fullscreen,
            serial,
            self.is_windowed_fullscreen,
            self.is_pending_windowed_fullscreen,
        );
        self.interactive_resize = send_resize(self.interactive_resize, serial);
        self.request_size_once = send_request_size_once(self.request_size_once, serial);
        self.needs_configure = false;
        // A frame callback lets the client answer at once, even while hidden.
        self.needs_frame_callback = true;
        self.animate_next_configure = false;
        self.transaction_for_next_configure = None;
        state
    }
}

fn send_resize(ir: Option<InteractiveResize>, serial: Serial) -> (r: Option<InteractiveResize>)
    ensures
        r == resize_after_send(ir, serial),
{
    match ir {
        Some(InteractiveResize::WaitingForLastConfigure(data)) => Some(
            InteractiveResize::WaitingForLastCommit { data, serial },
        ),
        _ => ir,
    }
}

fn send_request_size_once(rso: Option<RequestSizeOnce>, serial: Serial) -> (r: Option<RequestSizeOnce>)
    ensures
        r == rso_after_send(rso, serial),
{
    match rso {
        Some(RequestSizeOnce::WaitingForConfigure) => Some(RequestSizeOnce::WaitingForCommit(serial)),
        _ => rso,
    }
}

fn push_if<T>(v: &mut Vec<T>, cond: bool, x: T)
    ensures
        final(v)@ == (if cond { old(v)@.push(x) } else { old(v)@ }),
{
    if cond {
        v.push(x);
    }
}

fn unwrap_or_zero(t: Option<u64>) -> (r: u64)
    ensures
        t is Some ==> r == t->0,
{
    match t {
        Some(v) => v,
        None => 0,
    }
}

/// Sends the prepared state of `role` under `serial`, with `window_size` as its size when
/// `use_window_size` is set.
fn send_role(role: &mut ToplevelRole, serial: Serial, use_window_size: bool, window_size: Size) -> (state: ToplevelState)
    ensures
        state == (if use_window_size {
            with_size(old(role).pending_state_spec(), Some(window_size))
        } else {
            old(role).pending_state_spec()
        }),
        final(role).server_pending is None,
        final(role).pending_configures@ == old(role).pending_configures@.push((serial, state)),
        final(role).last_acked == old(role).last_acked,
        final(role).configure_serial == old(role).configure_serial,
        final(role).current_serial == old(role).current_serial,
        final(role).current == old(role).current,
{
    if use_window_size {
        let p = role.pending_state();
        role.set_pending_state(ToplevelState { size: Some(window_size), ..p });
    }
    role.send_configure(serial)
}

/// Remembers that the configure `serial` carries the windowed-fullscreen value `pending`, when
/// that differs from the last value sent (the last in `q`, else the committed `current`).
fn record_windowed_fullscreen(q: &mut Vec<(Serial, bool)>, serial: Serial, current: bool, pending: bool)
    ensures
        final(q)@ == (if (if old(q)@.len() > 0 { old(q)@.last().1 } else { current }) != pending {
            old(q)@.push((serial, pending))
        } else {
            old(q)@
        }),
{
    let n = q.len();
    let last_sent = if n > 0 {
        q[n - 1].1
    } else {
        current
    };
    if last_sent != pending {
        q.push((serial, pending));
    }
}

impl Mapped {
    /// Asks for windowed fullscreen (fullscreen as far as the client knows, tiled on screen)
    /// or for its end. A change sets the fullscreen state of the next configure to match and
    /// forces a configure, whose commit makes the change take effect.
    pub fn request_windowed_fullscreen(&mut self, value: bool)
        ensures
            final(self).pending_windowed_fullscreen_spec() == value,
            old(self).pending_windowed_fullscreen_spec() == value ==> Self::same_role(
                old(self).role_spec(),
                final(self).role_spec(),
            ) && final(self).needs_configure_spec() == old(self).needs_configure_spec(),
            old(self).pending_windowed_fullscreen_spec() != value ==> Self::role_with_pending(
                old(self).role_spec(),
                final(self).role_spec(),
                ToplevelState { fullscreen: value, ..old(self).role_spec().pending_state_spec() },
            ) && final(self).needs_configure_spec(),
            Self::same_flags(*old(self), *final(self)),
            final(self).window_size_spec() == old(self).window_size_spec(),
            final(self).needs_frame_callback_spec() == old(self).needs_frame_callback_spec(),
            final(self).animate_next_spec() == old(self).animate_next_spec(),
            final(self).animate_serials_spec() == old(self).animate_serials_spec(),
            final(self).rso_spec() == old(self).rso_spec(),
            final(self).next_transaction_spec() == old(self).next_transaction_spec(),
            final(self).pending_transactions_spec() == old(self).pending_transactions_spec(),
            final(self).resize_spec() == old(self).resize_spec(),
            final(self).windowed_fullscreen_spec() == old(self).windowed_fullscreen_spec(),
            final(self).uncommitted_wf_spec() == old(self).uncommitted_wf_spec(),
    {
        if self.is_pending_windowed_fullscreen == value {
            return;
        }
        let p = self.role.pending_state();
        self.role.set_pending_state(ToplevelState { fullscreen: value, ..p });
        self.is_pending_windowed_fullscreen = value;
        self.needs_configure = true;
    }

    /// Starts (`Some`) or ends (`None`) an interactive resize. The resizing state of the next
    /// configure follows; an ongoing resize that ends waits for its last configure.
    pub fn set_interactive_resize(&mut self, data: Option<InteractiveResizeData>)
        ensures
            Self::role_with_pending(
                old(self).role_spec(),
                final(self).role_spec(),
                ToplevelState { resizing: data is Some, ..old(self).role_spec().pending_state_spec() },
            ),
            final(self).resize_spec() == (match data {
                Some(d) => Some(InteractiveResize::Ongoing(d)),
                None => match old(self).resize_spec() {
                    Some(InteractiveResize::Ongoing(d)) => Some(
                        InteractiveResize::WaitingForLastConfigure(d),
                    ),
                    x => x,
                },
            }),
            Self::same_flags(*old(self), *final(self)),
            final(self).window_size_spec() == old(self).window_size_spec(),
            final(self).needs_configure_spec() == old(self).needs_configure_spec(),
            final(self).needs_frame_callback_spec() == old(self).needs_frame_callback_spec(),
            final(self).animate_next_spec() == old(self).animate_next_spec(),
            final(self).animate_serials_spec() == old(self).animate_serials_spec(),
            final(self).rso_spec() == old(self).rso_spec(),
            final(self).next_transaction_spec() == old(self).next_transaction_spec(),
            final(self).pending_transactions_spec() == old(self).pending_transactions_spec(),
            final(self).windowed_fullscreen_spec() == old(self).windowed_fullscreen_spec(),
            final(self).pending_windowed_fullscreen_spec()
                == old(self).pending_windowed_fullscreen_spec(),
            final(self).uncommitted_wf_spec() == old(self).uncommitted_wf_spec(),
    {
        let p = self.role.pending_state();
        self.role.set_pending_state(ToplevelState { resizing: data.is_some(), ..p });
        self.interactive_resize = match data {
            Some(d) => Some(InteractiveResize::Ongoing(d)),
            None => match self.interactive_resize {
                Some(InteractiveResize::Ongoing(d)) => Some(InteractiveResize::WaitingForLastConfigure(d)),
                x => x,
            },
        };
    }

    /// Ends an interactive resize at once, without waiting for any configure.
    pub fn cancel_interactive_resize(&mut self)
        ensures
            Self::role_with_pending(
                old(self).role_spec(),
                final(self).role_spec(),
                ToplevelState { resizing: false, ..old(self).role_spec().pending_state_spec() },
            ),
            final(self).resize_spec() is None,
            Self::same_flags(*old(self), *final(self)),
            final(self).window_size_spec() == old(self).window_size_spec(),
            final(self).needs_configure_spec() == old(self).needs_configure_spec(),
            final(self).needs_frame_callback_spec() == old(self).needs_frame_callback_spec(),
            final(self).animate_next_spec() == old(self).animate_next_spec(),
            final(self).animate_serials_spec() == old(self).animate_serials_spec(),
            final(self).rso_spec() == old(self).rso_spec(),
            final(self).next_transaction_spec() == old(self).next_transaction_spec(),
            final(self).pending_transactions_spec() == old(self).pending_transactions_spec(),
            final(self).windowed_fullscreen_spec() == old(self).windowed_fullscreen_spec(),
            final(self).pending_windowed_fullscreen_spec()
                == old(self).pending_windowed_fullscreen_spec(),
            final(self).uncommitted_wf_spec() == old(self).uncommitted_wf_spec(),
    {
        self.set_interactive_resize(None);
        self.interactive_resize = None;
    }

    pub fn interactive_resize_data(&self) -> (r: Option<InteractiveResizeData>)
        ensures
            r == (match self.resize_spec() {
                Some(ir) => Some(ir.data_spec()),
                None => None,
            }),
    {
        match &self.interactive_resize {
            Some(ir) => Some(ir.data()),
            None => None,
        }
    }

    /// The client acknowledges the configure `serial`.
    pub fn ack_configure(&mut self, serial: Serial) -> (r: bool)
        requires
            old(self).wf(),
        ensures
            final(self).wf(),
            r == (exists|i: int|
                0 <= i < old(self).role_spec().pending_configures@.len()
                    && (#[trigger] old(self).role_spec().pending_configures@[i]).0 == serial),
            Self::ack_post(old(self).role_spec(), final(self).role_spec(), serial, r),
            Self::same_flags(*old(self), *final(self)),
            Self::same_bookkeeping(*old(self), *final(self)),
    {
        self.role.ack_configure(serial)
    }

    /// What acknowledging `serial` does to the protocol state.
    pub open spec fn ack_post(a: ToplevelRole, b: ToplevelRole, serial: Serial, found: bool) -> bool {
        &&& !found ==> b.pending_configures@ == a.pending_configures@ && b.last_acked
            == a.last_acked && b.configure_serial == a.configure_serial
        &&& found ==> exists|i: int|
            0 <= i < a.pending_configures@.len() && (#[trigger] a.pending_configures@[i]).0
                == serial && (forall|j: int|
                0 <= j < i ==> a.pending_configures@[j].0 != serial) && b.last_acked == Some(
                a.pending_configures@[i].1,
            ) && b.pending_configures@ == a.pending_configures@.skip(i + 1)
        &&& found ==> b.configure_serial == Some(serial)
        &&& b.server_pending == a.server_pending
        &&& b.current_serial == a.current_serial
        &&& b.current == a.current
    }

    /// What a commit does: `b` is `a` after the client committed its last acknowledged state
    /// with a window of size `geometry`.
    pub open spec fn client_commit_post(a: Mapped, b: Mapped, geometry: Size) -> bool {
        let ra = a.role_spec();
        let rb = b.role_spec();
        let serial = ra.configure_serial->0;
        &&& rb.current == ra.last_acked->0
        &&& rb.current_serial == ra.configure_serial
        &&& rb.server_pending == ra.server_pending
        &&& rb.pending_configures@ == ra.pending_configures@
        &&& rb.last_acked == ra.last_acked
        &&& rb.configure_serial == ra.configure_serial
        &&& b.window_size_spec() == geometry
        &&& b.resize_spec() == resize_after_commit(a.resize_spec(), serial)
        &&& b.rso_spec() == rso_after_commit(a.rso_spec(), serial)
        &&& b.uncommitted_wf_spec() == still_waiting(a.uncommitted_wf_spec(), serial)
        &&& b.windowed_fullscreen_spec() == windowed_fullscreen_after_commit(
            a.uncommitted_wf_spec(),
            serial,
            a.windowed_fullscreen_spec(),
        )
        &&& Self::same_flags(a, b)
        &&& b.needs_configure_spec() == a.needs_configure_spec()
        &&& b.needs_frame_callback_spec() == a.needs_frame_callback_spec()
        &&& b.animate_next_spec() == a.animate_next_spec()
        &&& b.animate_serials_spec() == a.animate_serials_spec()
        &&& b.next_transaction_spec() == a.next_transaction_spec()
        &&& b.pending_transactions_spec() == a.pending_transactions_spec()
        &&& b.pending_windowed_fullscreen_spec() == a.pending_windowed_fullscreen_spec()
    }

    /// The client commits its last acknowledged state, with a window of size `geometry`; the
    /// bookkeeping that waited for that configure moves on (see `on_commit`).
    pub fn client_commit(&mut self, geometry: Size)
        requires
            old(self).wf(),
        ensures
            final(self).wf(),
            Self::client_commit_post(*old(self), *final(self), geometry),
    {
        let serial = match self.role.configure_serial {
            Some(s) => s,
            None => {
                proof {
                    assert(false);
                }
                return;
            },
        };
        self.role.commit();
        self.window_size = geometry;
        self.on_commit(serial);
    }
}

/// A one-shot size request settles within two round trips: from wherever `request_size_once`
/// leaves it, a configure sent under `sent` and a commit for `committed` that covers it (and
/// covers the configure the request was already waiting for, if any) bring it to the window's
/// own size.
pub proof fn lemma_request_size_once_settles(
    rso: RequestSizeOnce,
    sent: Serial,
    committed: Serial,
)
    requires
        no_older_than(committed, sent),
        rso matches RequestSizeOnce::WaitingForCommit(s) ==> no_older_than(committed, s),
    ensures
        rso_after_commit(rso_after_send(Some(rso), sent), committed) == Some(
            RequestSizeOnce::UseWindowSize,
        ),
{
}

/// The commit for a configure is taken into account once: handling the same commit again
/// changes nothing.
pub proof fn lemma_on_commit_once(
    rso: Option<RequestSizeOnce>,
    resize: Option<InteractiveResize>,
    q: Seq<(Serial, bool)>,
    flag: bool,
    serial: Serial,
)
    ensures
        rso_after_commit(rso_after_commit(rso, serial), serial) == rso_after_commit(rso, serial),
        resize_after_commit(resize_after_commit(resize, serial), serial) == resize_after_commit(
            resize,
            serial,
        ),
        still_waiting(still_waiting(q, serial), serial) == still_waiting(q, serial),
        windowed_fullscreen_after_commit(
            still_waiting(q, serial),
            serial,
            windowed_fullscreen_after_commit(q, serial, flag),
        ) == windowed_fullscreen_after_commit(q, serial, flag),
{
    let w = still_waiting(q, serial);
    broadcast use vstd::seq_lib::group_filter_ensures;
    assert forall|i: int| 0 <= i < w.len() implies !no_older_than(serial, #[trigger] w[i].0) by {
        assert(entry_waits::<bool>(serial)(w[i]));
    }
    lemma_nothing_covered(w, serial, windowed_fullscreen_after_commit(q, serial, flag));
    assert(w.filter(entry_waits::<bool>(serial)) =~= w) by {
        lemma_filter_all(w, entry_waits::<bool>(serial));
    }
}

/// Filtering keeps a sequence whose elements all pass.
proof fn lemma_filter_all<A>(s: Seq<A>, pred: spec_fn(A) -> bool)
    requires
        forall|i: int| 0 <= i < s.len() ==> pred(#[trigger] s[i]),
    ensures
        s.filter(pred) == s,
    decreases s.len(),
{
    reveal(Seq::filter);
    if s.len() > 0 {
        lemma_filter_all(s.drop_last(), pred);
        assert(s.drop_last().push(s.last()) =~= s);
    } else {
        assert(s =~= Seq::<A>::empty());
    }
}

/// A commit that covers none of the entries leaves the flag as it is.
proof fn lemma_nothing_covered(q: Seq<(Serial, bool)>, serial: Serial, flag: bool)
    requires
        forall|i: int| 0 <= i < q.len() ==> !no_older_than(serial, #[trigger] q[i].0),
    ensures
        windowed_fullscreen_after_commit(q, serial, flag) == flag,
    decreases q.len(),
{
    if q.len() > 0 {
        assert(!no_older_than(serial, q[q.len() - 1].0));
        let d = q.drop_last();
        assert forall|i: int| 0 <= i < d.len() implies !no_older_than(serial, #[trigger] d[i].0) by {
            assert(d[i] == q[i]);
        }
        lemma_nothing_covered(d, serial, flag);
    }
}

/// Asking for a size, sending it, and the client acknowledging it and committing a window of
/// that size, makes the expected size the size asked for.
pub proof fn lemma_request_size_round_trip(
    w0: Mapped,
    w1: Mapped,
    w2: Mapped,
    w3: Mapped,
    w4: Mapped,
    size: Size,
    animate: bool,
    transaction: Option<u64>,
    dropped: Option<u64>,
    serial: Serial,
    sent: Option<ToplevelState>,
    dropped_at_send: Option<u64>,
    found: bool,
)
    requires
        w0.wf(),
        !w0.pending_windowed_fullscreen_spec(),
        Mapped::request_size_post(w0, w1, size, false, animate, transaction, dropped),
        forall|i: int|
            0 <= i < w1.role_spec().pending_configures@.len() ==> (#[trigger] w1.role_spec().pending_configures@[i]).0
                != serial,
        Mapped::send_post(w1, w2, serial, sent, dropped_at_send),
        sent is Some,
        found == (exists|i: int|
            0 <= i < w2.role_spec().pending_configures@.len()
                && (#[trigger] w2.role_spec().pending_configures@[i]).0 == serial),
        Mapped::ack_post(w2.role_spec(), w3.role_spec(), serial, found),
        Mapped::same_flags(w2, w3),
        Mapped::same_bookkeeping(w2, w3),
        Mapped::client_commit_post(w3, w4, size),
    ensures
        w4.expected_size_spec() == Some(size),
{
    let pc1 = w1.role_spec().pending_configures@;
    let pc2 = w2.role_spec().pending_configures@;
    let n = pc1.len();
    assert(has_pending_changes(w1));
    let state = state_to_send(w1);
    assert(pc2 == pc1.push((serial, state)));
    assert(pc2[n as int].0 == serial);
    assert(found);
    let i = choose|i: int|
        0 <= i < pc2.len() && (#[trigger] pc2[i]).0 == serial && (forall|j: int|
            0 <= j < i ==> pc2[j].0 != serial) && w3.role_spec().last_acked == Some(pc2[i].1)
            && w3.role_spec().pending_configures@ == pc2.skip(i + 1);
    if i < n {
        assert(pc2[i] == pc1[i]);
        assert(false);
    }
    assert(i == n);
    assert(w3.role_spec().pending_configures@ =~= Seq::<(Serial, ToplevelState)>::empty());
    assert(w4.role_spec().current == state);
    assert(!state.fullscreen);
    assert(w4.rso_spec() is None);
    assert(w4.uncommitted_size_spec() is None);
}

/// The two resolved rules say the same.
pub open spec fn rules_equal(a: ResolvedWindowRules, b: ResolvedWindowRules) -> bool {
    &&& (a.open_on_output is Some <==> b.open_on_output is Some)
    &&& (a.open_on_output is Some ==> a.open_on_output->0@ == b.open_on_output->0@)
    &&& (a.open_on_workspace is Some <==> b.open_on_workspace is Some)
    &&& (a.open_on_workspace is Some ==> a.open_on_workspace->0@ == b.open_on_workspace->0@)
    &&& a.default_column_display == b.default_column_display
    &&& a.open_maximized == b.open_maximized
    &&& a.open_fullscreen == b.open_fullscreen
    &&& a.open_floating == b.open_floating
    &&& a.open_focused == b.open_focused
    &&& a.min_width == b.min_width
    &&& a.min_height == b.min_height
    &&& a.max_width == b.max_width
    &&& a.max_height == b.max_height
    &&& a.draw_border_with_background == b.draw_border_with_background
    &&& a.clip_to_geometry == b.clip_to_geometry
    &&& a.baba_is_float == b.baba_is_float
    &&& a.block_out_from == b.block_out_from
    &&& a.variable_refresh_rate == b.variable_refresh_rate
    &&& a.tiled_state == b.tiled_state
}

fn same_string(a: &Option<String>, b: &Option<String>) -> (r: bool)
    ensures
        r == ((a is Some <==> b is Some) && (a is Some ==> a->0@ == b->0@)),
{
    match (a, b) {
        (Some(x), Some(y)) => x.eq(y),
        (None, None) => true,
        _ => false,
    }
}

fn same_rules(a: &ResolvedWindowRules, b: &ResolvedWindowRules) -> (r: bool)
    ensures
        r == rules_equal(*a, *b),
{
    same_string(&a.open_on_output, &b.open_on_output) && same_string(
        &a.open_on_workspace,
        &b.open_on_workspace,
    ) && a.default_column_display == b.default_column_display && a.open_maximized
        == b.open_maximized && a.open_fullscreen == b.open_fullscreen
        && a.open_floating == b.open_floating && a.open_focused == b.open_focused && a.min_width
        == b.min_width && a.min_height == b.min_height && a.max_width == b.max_width
        && a.max_height == b.max_height && a.draw_border_with_background
        == b.draw_border_with_background && a.clip_to_geometry == b.clip_to_geometry
        && a.baba_is_float == b.baba_is_float && a.block_out_from == b.block_out_from
        && a.variable_refresh_rate == b.variable_refresh_rate && a.tiled_state == b.tiled_state
}

impl Mapped {
    pub fn rules(&self) -> (r: &ResolvedWindowRules)
        ensures
            *r == self.rules_spec(),
    {
        &self.rules
    }

    /// What window rules read of this window, with the application identifier and title
    /// that its surface has.
    pub fn window_info(&self, app_id: Option<String>, title: Option<String>) -> (r: WindowInfo)
        ensures
            r.app_id == app_id,
            r.title == title,
            r.is_focused == self.focused_spec(),
            r.is_urgent == self.urgent_spec(),
            r.is_pending_activated == self.role_spec().pending_state_spec().activated,
            r.is_active_in_column == self.active_in_column_spec(),
            r.is_floating == self.floating_spec(),
            r.is_window_cast_target == self.cast_target_spec(),
    {
        WindowInfo {
            app_id,
            title,
            is_focused: self.is_focused,
            is_urgent: self.is_urgent,
            is_pending_activated: self.role.pending_state().activated,
            is_active_in_column: self.is_active_in_column,
            is_floating: self.is_floating,
            is_window_cast_target: self.is_window_cast_target,
        }
    }

    /// Resolves the window rules again; returns whether they changed.
    pub fn recompute_window_rules(
        &mut self,
        rules: &Vec<WindowRule>,
        app_id: Option<String>,
        title: Option<String>,
        is_at_startup: bool,
    ) -> (r: bool)
        ensures
            !final(self).recompute_rules_spec(),
            r == !rules_equal(old(self).rules_spec(), final(self).rules_spec()),
            !r ==> final(self).rules_spec() == old(self).rules_spec(),
            r ==> exists|applies: Seq<bool>|
                applies.len() == rules@.len() && final(self).rules_spec() == super::resolve(
                    rules@,
                    applies,
                ),
            final(self).id_spec() == old(self).id_spec(),
            final(self).urgent_spec() == old(self).urgent_spec(),
            final(self).focused_spec() == old(self).focused_spec(),
            final(self).cast_target_spec() == old(self).cast_target_spec(),
            final(self).floating_spec() == old(self).floating_spec(),
            final(self).active_in_column_spec() == old(self).active_in_column_spec(),
            final(self).ignore_opacity_spec() == old(self).ignore_opacity_spec(),
            Self::same_role(old(self).role_spec(), final(self).role_spec()),
            Self::same_bookkeeping(*old(self), *final(self)),
    {
        self.need_to_recompute_rules = false;
        let info = self.window_info(app_id, title);
        let new_rules = ResolvedWindowRules::compute(rules, &info, is_at_startup);
        if same_rules(&new_rules, &self.rules) {
            return false;
        }
        self.rules = new_rules;
        true
    }

    /// Resolves the window rules again if a flag they read changed since the last time;
    /// returns whether they changed.
    pub fn recompute_window_rules_if_needed(
        &mut self,
        rules: &Vec<WindowRule>,
        app_id: Option<String>,
        title: Option<String>,
        is_at_startup: bool,
    ) -> (r: bool)
        ensures
            !old(self).recompute_rules_spec() ==> !r && final(self).rules_spec() == old(self).rules_spec(),
            !final(self).recompute_rules_spec(),
            final(self).id_spec() == old(self).id_spec(),
            Self::same_role(old(self).role_spec(), final(self).role_spec()),
            Self::same_bookkeeping(*old(self), *final(self)),
    {
        if !self.need_to_recompute_rules {
            return false;
        }
        self.recompute_window_rules(rules, app_id, title, is_at_startup)
    }

    /// Sets the tiled state of the next configure: as the rules force, else as the decoration
    /// protocols settled (`Some(true)` for server-side), else as `prefer_no_csd`.
    pub fn update_tiled_state(
        &mut self,
        prefer_no_csd: bool,
        xdg_server_side: Option<bool>,
        kde_server_side: Option<bool>,
    )
        ensures
            Self::role_with_pending(
                old(self).role_spec(),
                final(self).role_spec(),
                ToplevelState {
                    tiled: should_tile(
                        old(self).rules_spec().tiled_state,
                        xdg_server_side,
                        kde_server_side,
                        prefer_no_csd,
                    ),
                    ..old(self).role_spec().pending_state_spec()
                },
            ),
            Self::same_flags(*old(self), *final(self)),
            Self::same_bookkeeping(*old(self), *final(self)),
    {
        let force = self.rules.tiled_state;
        update_tiled_state(&mut self.role, prefer_no_csd, force, xdg_server_side, kde_server_side);
    }

    /// The window's minimum size: the surface's, raised by the rules.
    pub fn min_size(&self, surface_min_size: Size) -> (r: Size)
        ensures
            r == self.rules_spec().apply_min_size_spec(surface_min_size),
    {
        self.rules.apply_min_size(surface_min_size)
    }

    /// The window's maximum size: the surface's, lowered by the rules.
    pub fn max_size(&self, surface_max_size: Size) -> (r: Size)
        ensures
            r == self.rules_spec().apply_max_size_spec(surface_max_size),
    {
        self.rules.apply_max_size(surface_max_size)
    }
}

} // verus!
