use vstd::prelude::*;

verus! {

/// Hands out increasing identifiers, starting at one.
pub struct IdCounter {
    value: u64,
}

impl IdCounter {
    /// The value that the next call of `next` returns.
    pub closed spec fn peek(self) -> u64 {
        self.value
    }

    pub fn new() -> (r: Self)
        ensures
            r.peek() == 1,
    {
        IdCounter { value: 1 }
    }

    /// Returns the current value and moves the counter on, wrapping at the end of `u64`.
    pub fn next(&mut self) -> (r: u64)
        ensures
            r == old(self).peek(),
            final(self).peek() == (if r == u64::MAX { 0 } else { (r + 1) as u64 }),
    {
        let r = self.value;
        self.value = self.value.wrapping_add(1);
        r
    }
}

impl Default for IdCounter {
    fn default() -> (r: Self)
        ensures
            r.peek() == 1,
    {
        Self::new()
    }
}

} // verus!
