use vstd::prelude::*;

use crate::backend::RenderResult;

verus! {

/// Where an output stands between redraw requests, renders and VBlanks.
#[derive(Debug, Clone, Copy, PartialEq, Eq, Structural)]
pub enum RedrawState {
    /// Nothing to do.
    Idle,
    /// A redraw is wanted; the next pass renders.
    Queued,
    /// A frame was submitted and waits for its VBlank; `redraw_needed` asks for another one
    /// right after.
    WaitingForVBlank { redraw_needed: bool },
    /// Nothing was submitted; a timer (by its token) stands in for the VBlank.
    WaitingForEstimatedVBlank(u64),
    /// As above, with a redraw wanted when the timer fires.
    WaitingForEstimatedVBlankAndQueued(u64),
}

/// The state after a redraw is asked for. A request is never lost: it is either queued or
/// remembered for after the pending VBlank.
pub open spec fn after_queue_redraw(s: RedrawState) -> RedrawState {
    match s {
        RedrawState::Idle => RedrawState::Queued,
        RedrawState::WaitingForVBlank { .. } => RedrawState::WaitingForVBlank { redraw_needed: true },
        RedrawState::WaitingForEstimatedVBlank(t) => RedrawState::WaitingForEstimatedVBlankAndQueued(t),
        _ => s,
    }
}

/// The state after a render from `Queued`: a submitted frame waits for its VBlank (and asks
/// for the next frame at once while animations go on); otherwise the estimated-VBlank timer
/// `timer`, if the backend armed one, stands in for the VBlank, else the output goes idle.
pub open spec fn after_render(result: RenderResult, animations_ongoing: bool, timer: Option<u64>) -> RedrawState {
    match result {
        RenderResult::Submitted => RedrawState::WaitingForVBlank { redraw_needed: animations_ongoing },
        _ => match timer {
            Some(t) => if animations_ongoing {
                RedrawState::WaitingForEstimatedVBlankAndQueued(t)
            } else {
                RedrawState::WaitingForEstimatedVBlank(t)
            },
            None => RedrawState::Idle,
        },
    }
}

/// The state after the VBlank (or the timer standing in for it).
pub open spec fn after_vblank(s: RedrawState) -> RedrawState {
    match s {
        RedrawState::WaitingForVBlank { redraw_needed } => if redraw_needed {
            RedrawState::Queued
        } else {
            RedrawState::Idle
        },
        RedrawState::WaitingForEstimatedVBlank(_) => RedrawState::Idle,
        RedrawState::WaitingForEstimatedVBlankAndQueued(_) => RedrawState::Queued,
        _ => s,
    }
}

/// A wanted redraw is pending in the state.
pub open spec fn redraw_pending(s: RedrawState) -> bool {
    match s {
        RedrawState::Queued => true,
        RedrawState::WaitingForVBlank { redraw_needed } => redraw_needed,
        RedrawState::WaitingForEstimatedVBlankAndQueued(_) => true,
        _ => false,
    }
}

/// The redraw bookkeeping of one output.
#[derive(Debug)]
pub struct OutputRedraw {
    pub state: RedrawState,
    /// Counts render attempts, wrapping; frame callbacks carry it.
    pub frame_callback_sequence: u32,
}

impl OutputRedraw {
    pub fn new() -> (r: Self)
        ensures
            r.state == RedrawState::Idle,
            r.frame_callback_sequence == 0,
    {
        OutputRedraw { state: RedrawState::Idle, frame_callback_sequence: 0 }
    }

    /// Asks for a redraw of the output.
    pub fn queue_redraw(&mut self)
        ensures
            final(self).state == after_queue_redraw(old(self).state),
            final(self).frame_callback_sequence == old(self).frame_callback_sequence,
    {
        self.state = match self.state {
            RedrawState::Idle => RedrawState::Queued,
            RedrawState::WaitingForVBlank { .. } => RedrawState::WaitingForVBlank { redraw_needed: true },
            RedrawState::WaitingForEstimatedVBlank(t) => RedrawState::WaitingForEstimatedVBlankAndQueued(t),
            s => s,
        };
    }

    /// Whether the output should render in this pass: only a queued output does, so that at
    /// most one render is in flight.
    pub fn should_render(&self) -> (r: bool)
        ensures
            r == (self.state == RedrawState::Queued),
    {
        self.state == RedrawState::Queued
    }

    /// Records a render attempt of a queued output with its result; every attempt moves the
    /// frame callback sequence on by one.
    pub fn rendered(&mut self, result: RenderResult, animations_ongoing: bool, timer: Option<u64>)
        requires
            old(self).state == RedrawState::Queued,
        ensures
            final(self).state == after_render(result, animations_ongoing, timer),
            final(self).frame_callback_sequence == (if old(self).frame_callback_sequence == u32::MAX {
                0
            } else {
                (old(self).frame_callback_sequence + 1) as u32
            }),
    {
        self.frame_callback_sequence = self.frame_callback_sequence.wrapping_add(1);
        self.state = match result {
            RenderResult::Submitted => RedrawState::WaitingForVBlank { redraw_needed: animations_ongoing },
            _ => match timer {
                Some(t) => if animations_ongoing {
                    RedrawState::WaitingForEstimatedVBlankAndQueued(t)
                } else {
                    RedrawState::WaitingForEstimatedVBlank(t)
                },
                None => RedrawState::Idle,
            },
        };
    }

    /// The VBlank came, or the timer that stands in for it fired.
    pub fn on_vblank(&mut self)
        ensures
            final(self).state == after_vblank(old(self).state),
            final(self).frame_callback_sequence == old(self).frame_callback_sequence,
    {
        self.state = match self.state {
            RedrawState::WaitingForVBlank { redraw_needed } => if redraw_needed {
                RedrawState::Queued
            } else {
                RedrawState::Idle
            },
            RedrawState::WaitingForEstimatedVBlank(_) => RedrawState::Idle,
            RedrawState::WaitingForEstimatedVBlankAndQueued(_) => RedrawState::Queued,
            s => s,
        };
    }
}

/// A redraw request is never lost: right after it one is pending, and a VBlank turns a
/// pending one into a queued render.
pub proof fn lemma_queued_redraw_is_kept(s: RedrawState)
    ensures
        redraw_pending(after_queue_redraw(s)),
        redraw_pending(s) && s != RedrawState::Queued ==> after_vblank(s) == RedrawState::Queued,
{
}

} // verus!
