use vstd::prelude::*;

use super::ResolvedWindowRules;

verus! {

/// Where a new window stands before it is mapped.
#[derive(Debug)]
pub enum InitialConfigureState {
    /// The initial configure has not been sent. The client may already have asked for
    /// fullscreen, on a given output (by its identifier) or on any.
    NotConfigured { wants_fullscreen: Option<Option<u64>> },
    /// The initial configure was sent with the window rules resolved then; the window will be
    /// placed by them once it commits.
    Configured {
        rules: ResolvedWindowRules,
        is_full_width: bool,
        /// The output the window opens on, by its identifier.
        output: Option<u64>,
        workspace_name: Option<String>,
    },
}

/// A toplevel window that is not mapped yet.
#[derive(Debug)]
pub struct Unmapped {
    pub state: InitialConfigureState,
}

impl Unmapped {
    pub fn new() -> (r: Self)
        ensures
            r.state matches InitialConfigureState::NotConfigured { wants_fullscreen: None },
    {
        Unmapped { state: InitialConfigureState::NotConfigured { wants_fullscreen: None } }
    }

    /// Whether the initial configure is still to be sent.
    pub fn needs_initial_configure(&self) -> (r: bool)
        ensures
            r == (self.state is NotConfigured),
    {
        match self.state {
            InitialConfigureState::NotConfigured { .. } => true,
            InitialConfigureState::Configured { .. } => false,
        }
    }
}

} // verus!
