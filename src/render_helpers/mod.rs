use vstd::prelude::*;

verus! {

/// What a frame is rendered for.
#[derive(Debug, Clone, Copy, PartialEq, Eq, Structural)]
pub enum RenderTarget {
    /// To be shown on an output.
    Output,
    /// For a screencast.
    Screencast,
    /// For any other screen capture.
    ScreenCapture,
}

/// What a window rule hides a window from.
#[derive(Debug, Clone, Copy, PartialEq, Eq, Structural)]
pub enum BlockOutFrom {
    /// Screencasts only.
    Screencast,
    /// Every screen capture, screencasts included.
    ScreenCapture,
}

impl RenderTarget {
    /// Whether a window hidden from `block_out_from` is drawn blocked out for this target.
    pub fn should_block_out(self, block_out_from: Option<BlockOutFrom>) -> (r: bool)
        ensures
            r == (match block_out_from {
                None => false,
                Some(BlockOutFrom::Screencast) => self == RenderTarget::Screencast,
                Some(BlockOutFrom::ScreenCapture) => self != RenderTarget::Output,
            }),
    {
        match block_out_from {
            None => false,
            Some(BlockOutFrom::Screencast) => self == RenderTarget::Screencast,
            Some(BlockOutFrom::ScreenCapture) => self != RenderTarget::Output,
        }
    }
}

/// Render elements split into those of the window itself and those of its popups.
#[derive(Debug)]
pub struct SplitElements<E> {
    pub normal: Vec<E>,
    pub popups: Vec<E>,
}

impl<E> SplitElements<E> {
    pub fn new() -> (r: Self)
        ensures
            r.normal@.len() == 0,
            r.popups@.len() == 0,
    {
        SplitElements { normal: Vec::new(), popups: Vec::new() }
    }

    /// All elements, popups first, as they are drawn front to back.
    pub fn iter(&self) -> (r: Vec<&E>)
        ensures
            r@.len() == self.popups@.len() + self.normal@.len(),
            forall|i: int| 0 <= i < self.popups@.len() ==> *r@[i] == self.popups@[i],
            forall|i: int|
                0 <= i < self.normal@.len() ==> *r@[self.popups@.len() + i] == self.normal@[i],
    {
        let mut r: Vec<&E> = Vec::new();
        let mut i: usize = 0;
        while i < self.popups.len()
            invariant
                i <= self.popups@.len(),
                r@.len() == i,
                forall|j: int| 0 <= j < i ==> *r@[j] == self.popups@[j],
            decreases self.popups@.len() - i,
        {
            r.push(&self.popups[i]);
            i = i + 1;
        }
        let mut k: usize = 0;
        while k < self.normal.len()
            invariant
                k <= self.normal@.len(),
                r@.len() == self.popups@.len() + k,
                forall|j: int| 0 <= j < self.popups@.len() ==> *r@[j] == self.popups@[j],
                forall|j: int| 0 <= j < k ==> *r@[self.popups@.len() + j] == self.normal@[j],
            decreases self.normal@.len() - k,
        {
            r.push(&self.normal[k]);
            k = k + 1;
        }
        r
    }

    /// All elements in one vector, popups first.
    pub fn into_vec(self) -> (r: Vec<E>)
        ensures
            r@ == self.popups@ + self.normal@,
    {
        let SplitElements { mut normal, mut popups } = self;
        popups.append(&mut normal);
        popups
    }

    /// Adds the elements of `other` after those of each kind.
    pub fn extend(&mut self, other: SplitElements<E>)
        ensures
            final(self).popups@ == old(self).popups@ + other.popups@,
            final(self).normal@ == old(self).normal@ + other.normal@,
    {
        let SplitElements { mut normal, mut popups } = other;
        self.popups.append(&mut popups);
        self.normal.append(&mut normal);
    }
}

impl<E> Default for SplitElements<E> {
    fn default() -> (r: Self)
        ensures
            r.normal@.len() == 0,
            r.popups@.len() == 0,
    {
        Self::new()
    }
}

} // verus!
