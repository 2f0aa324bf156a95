//! The colour that a frame is cleared to.

use vstd::prelude::*;
use crate::geometry::Size;

verus! {

/// The colour that a frame is cleared to, kept as the quantities it is
/// computed from. Blue and alpha are always at full intensity.
#[derive(Clone, Copy, Debug, PartialEq, Eq, Structural)]
pub enum ClearColor {
    /// Opaque black: the colour before the cursor has moved.
    Black,
    /// Red is `x` divided by `width` and green is `y` divided by `height`,
    /// where `x` and `y` are the binary64 bit patterns of a cursor position
    /// and `width` and `height` the window's extent when the cursor was there.
    Cursor { x: u64, y: u64, width: u32, height: u32 },
}

impl ClearColor {
    /// Both divisors of a cursor colour are positive.
    pub open spec fn well_formed(self) -> bool {
        self matches ClearColor::Cursor { width, height, .. } ==> width > 0 && height > 0
    }

    /// The colour that a cursor at bit patterns (`x`, `y`) gives a window of
    /// extent `size`.
    pub open spec fn at_cursor(x: u64, y: u64, size: Size) -> ClearColor {
        ClearColor::Cursor { x, y, width: size.width, height: size.height }
    }
}

} // verus!
