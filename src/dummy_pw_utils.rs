use vstd::prelude::*;

verus! {

/// Screencasting through PipeWire, in a build without it.
#[derive(Debug)]
pub struct PipeWire;

/// A screencast, in a build without PipeWire.
#[derive(Debug)]
pub struct Cast;

/// Why PipeWire could not be started.
#[derive(Debug, Clone, Copy, PartialEq, Eq, Structural)]
pub enum PipeWireError {
    /// The build does not include screencast support.
    Disabled,
}

impl PipeWire {
    /// Always fails: this build has no screencast support.
    pub fn new() -> (r: Result<Self, PipeWireError>)
        ensures
            r == Err::<PipeWire, PipeWireError>(PipeWireError::Disabled),
    {
        Err(PipeWireError::Disabled)
    }
}

} // verus!
