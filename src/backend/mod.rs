use vstd::prelude::*;

use crate::utils::id::IdCounter;

verus! {

/// The outcome of one attempt to render an output.
#[derive(Debug, Clone, Copy, PartialEq, Eq, Structural)]
pub enum RenderResult {
    /// A frame was submitted to the backend for presentation.
    Submitted,
    /// Nothing changed on screen, so nothing was submitted.
    NoDamage,
    /// The render was skipped, usually after an error.
    Skipped,
}

/// The unique identifier of an output.
#[derive(Debug, Clone, Copy, PartialEq, Eq, Hash, Structural)]
pub struct OutputId(u64);

impl OutputId {
    pub closed spec fn value(self) -> u64 {
        self.0
    }

    /// The next identifier that `counter` hands out.
    pub fn next(counter: &mut IdCounter) -> (r: OutputId)
        ensures
            r.value() == old(counter).peek(),
            final(counter).peek() == (if r.value() == u64::MAX {
                0
            } else {
                (r.value() + 1) as u64
            }),
    {
        OutputId(counter.next())
    }

    pub fn get(self) -> (r: u64)
        ensures
            r == self.value(),
    {
        self.0
    }
}

} // verus!
