//! Window extents in physical pixels.

use vstd::prelude::*;

verus! {

/// The extent of a window's drawable area, in physical pixels.
#[derive(Clone, Copy, Debug, PartialEq, Eq, Structural)]
pub struct Size {
    pub width: u32,
    pub height: u32,
}

impl Size {
    /// An extent covers no pixel when either dimension is zero.
    pub open spec fn is_empty_spec(self) -> bool {
        self.width == 0 || self.height == 0
    }

    pub fn new(width: u32, height: u32) -> (size: Size)
        ensures
            size == (Size { width, height }),
    {
        Size { width, height }
    }

    /// Tells whether either dimension is zero.
    #[verifier::when_used_as_spec(is_empty_spec)]
    pub fn is_empty(self) -> (empty: bool)
        ensures
            empty == self.is_empty_spec(),
    {
        self.width == 0 || self.height == 0
    }
}

} // verus!
