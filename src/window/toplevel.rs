use vstd::prelude::*;

use crate::utils::Size;

verus! {

/// A configure serial. Serials wrap around, so they are compared with `is_no_older_than`.
#[derive(Debug, Clone, Copy, PartialEq, Eq, Structural)]
pub struct Serial(pub u32);

/// Whether serial `a` is the same as or came after serial `b`, reading the two as the closer
/// way round the wrap.
pub open spec fn no_older_than(a: Serial, b: Serial) -> bool {
    let d = if a.0 >= b.0 { a.0 - b.0 } else { b.0 - a.0 };
    if d < u32::MAX / 2 { b.0 <= a.0 } else { a.0 <= b.0 }
}

impl Serial {
    pub fn is_no_older_than(&self, other: &Serial) -> (r: bool)
        ensures
            r == no_older_than(*self, *other),
    {
        let d = if self.0 >= other.0 { self.0 - other.0 } else { other.0 - self.0 };
        if d < u32::MAX / 2 {
            other.0 <= self.0
        } else {
            self.0 <= other.0
        }
    }
}

/// The state of a toplevel window as it travels in a configure.
#[derive(Debug, Clone, Copy, PartialEq, Eq, Structural)]
pub struct ToplevelState {
    /// The size asked for; `None` or a zero component lets the client choose.
    pub size: Option<Size>,
    pub bounds: Option<Size>,
    pub fullscreen: bool,
    pub resizing: bool,
    pub activated: bool,
    pub tiled: bool,
}

impl ToplevelState {
    /// A state with nothing asked for.
    pub fn empty() -> (r: Self)
        ensures
            r.size is None,
            r.bounds is None,
            !r.fullscreen,
            !r.resizing,
            !r.activated,
            !r.tiled,
    {
        ToplevelState {
            size: None,
            bounds: None,
            fullscreen: false,
            resizing: false,
            activated: false,
            tiled: false,
        }
    }
}

/// The two states differ in their size at most.
pub open spec fn same_but_size(a: ToplevelState, b: ToplevelState) -> bool {
    a.bounds == b.bounds && a.fullscreen == b.fullscreen && a.resizing == b.resizing
        && a.activated == b.activated && a.tiled == b.tiled
}

/// The configure bookkeeping of a toplevel surface, as the compositor's protocol layer keeps
/// it: the state being prepared, the configures sent and not yet acknowledged, the last
/// acknowledged one, and the state the client has committed.
#[derive(Debug)]
pub struct ToplevelRole {
    /// Changes prepared for the next configure, if any.
    pub server_pending: Option<ToplevelState>,
    /// Configures sent and not yet acknowledged, oldest first.
    pub pending_configures: Vec<(Serial, ToplevelState)>,
    /// The state of the last acknowledged configure.
    pub last_acked: Option<ToplevelState>,
    /// The serial of the last acknowledged configure.
    pub configure_serial: Option<Serial>,
    /// The serial of the configure the current state was committed for.
    pub current_serial: Option<Serial>,
    /// The state the client has committed.
    pub current: ToplevelState,
}

impl ToplevelRole {
    /// The state the client has been told of last: the last sent configure, else the last
    /// acknowledged one, else the committed one.
    pub open spec fn current_server_state_spec(self) -> ToplevelState {
        if self.pending_configures@.len() > 0 {
            self.pending_configures@.last().1
        } else if self.last_acked is Some {
            self.last_acked->0
        } else {
            self.current
        }
    }

    /// The state the next configure carries.
    pub open spec fn pending_state_spec(self) -> ToplevelState {
        match self.server_pending {
            Some(s) => s,
            None => self.current_server_state_spec(),
        }
    }

    /// The last configure sent, with its serial: the last unacknowledged one, else the last
    /// acknowledged one.
    pub open spec fn last_sent_spec(self) -> Option<(Serial, ToplevelState)> {
        if self.pending_configures@.len() > 0 {
            Some(self.pending_configures@.last())
        } else {
            match (self.configure_serial, self.last_acked) {
                (Some(serial), Some(state)) => Some((serial, state)),
                _ => None,
            }
        }
    }

    /// A role whose initial configure, `serial` with `state`, has been acknowledged and
    /// committed.
    pub fn configured(serial: Serial, state: ToplevelState) -> (r: Self)
        ensures
            r.server_pending is None,
            r.pending_configures@.len() == 0,
            r.last_acked == Some(state),
            r.configure_serial == Some(serial),
            r.current_serial == Some(serial),
            r.current == state,
    {
        ToplevelRole {
            server_pending: None,
            pending_configures: Vec::new(),
            last_acked: Some(state),
            configure_serial: Some(serial),
            current_serial: Some(serial),
            current: state,
        }
    }

    pub fn current_server_state(&self) -> (r: ToplevelState)
        ensures
            r == self.current_server_state_spec(),
    {
        let n = self.pending_configures.len();
        if n > 0 {
            self.pending_configures[n - 1].1
        } else {
            match self.last_acked {
                Some(s) => s,
                None => self.current,
            }
        }
    }

    pub fn pending_state(&self) -> (r: ToplevelState)
        ensures
            r == self.pending_state_spec(),
    {
        match self.server_pending {
            Some(s) => s,
            None => self.current_server_state(),
        }
    }

    pub fn last_sent(&self) -> (r: Option<(Serial, ToplevelState)>)
        ensures
            r == self.last_sent_spec(),
    {
        let n = self.pending_configures.len();
        if n > 0 {
            Some(self.pending_configures[n - 1])
        } else {
            match (self.configure_serial, self.last_acked) {
                (Some(serial), Some(state)) => Some((serial, state)),
                _ => None,
            }
        }
    }

    /// Replaces the prepared state.
    pub fn set_pending_state(&mut self, state: ToplevelState)
        ensures
            final(self).server_pending == Some(state),
            final(self).pending_configures@ == old(self).pending_configures@,
            final(self).last_acked == old(self).last_acked,
            final(self).configure_serial == old(self).configure_serial,
            final(self).current_serial == old(self).current_serial,
            final(self).current == old(self).current,
    {
        self.server_pending = Some(state);
    }

    /// Sends the prepared state (or, with none prepared, the last one again) under `serial`.
    pub fn send_configure(&mut self, serial: Serial) -> (r: ToplevelState)
        ensures
            r == old(self).pending_state_spec(),
            final(self).server_pending is None,
            final(self).pending_configures@ == old(self).pending_configures@.push((serial, r)),
            final(self).last_acked == old(self).last_acked,
            final(self).configure_serial == old(self).configure_serial,
            final(self).current_serial == old(self).current_serial,
            final(self).current == old(self).current,
    {
        let state = self.pending_state();
        self.server_pending = None;
        self.pending_configures.push((serial, state));
        state
    }

    /// The client acknowledges the configure `serial`: it and every configure sent before it
    /// leave the unacknowledged list. Returns false, changing nothing, when no such configure
    /// is waiting.
    pub fn ack_configure(&mut self, serial: Serial) -> (r: bool)
        ensures
            r == (exists|i: int|
                0 <= i < old(self).pending_configures@.len()
                    && (#[trigger] old(self).pending_configures@[i]).0 == serial),
            !r ==> final(self).pending_configures@ == old(self).pending_configures@
                && final(self).last_acked == old(self).last_acked
                && final(self).configure_serial == old(self).configure_serial,
            r ==> exists|i: int|
                0 <= i < old(self).pending_configures@.len()
                    && (#[trigger] old(self).pending_configures@[i]).0 == serial
                    && (forall|j: int| 0 <= j < i ==> old(self).pending_configures@[j].0 != serial)
                    && final(self).last_acked == Some(old(self).pending_configures@[i].1)
                    && final(self).pending_configures@ == old(self).pending_configures@.skip(i + 1),
            r ==> final(self).configure_serial == Some(serial),
            final(self).server_pending == old(self).server_pending,
            final(self).current_serial == old(self).current_serial,
            final(self).current == old(self).current,
    {
        let n = self.pending_configures.len();
        let mut i: usize = 0;
        while i < n
            invariant
                n == self.pending_configures@.len(),
                self == old(self),
                i <= n,
                forall|j: int| 0 <= j < i ==> self.pending_configures@[j].0 != serial,
            decreases n - i,
        {
            if self.pending_configures[i].0 == serial {
                let state = self.pending_configures[i].1;
                let rest = self.pending_configures.split_off(i + 1);
                self.pending_configures = rest;
                self.last_acked = Some(state);
                self.configure_serial = Some(serial);
                return true;
            }
            i = i + 1;
        }
        false
    }

    /// The client commits: the last acknowledged state becomes the current one.
    pub fn commit(&mut self)
        ensures
            final(self).current == (match old(self).last_acked {
                Some(s) => s,
                None => old(self).current,
            }),
            final(self).current_serial == (if old(self).last_acked is Some {
                old(self).configure_serial
            } else {
                old(self).current_serial
            }),
            final(self).server_pending == old(self).server_pending,
            final(self).pending_configures@ == old(self).pending_configures@,
            final(self).last_acked == old(self).last_acked,
            final(self).configure_serial == old(self).configure_serial,
    {
        if let Some(s) = self.last_acked {
            self.current = s;
            self.current_serial = self.configure_serial;
        }
    }
}

} // verus!
