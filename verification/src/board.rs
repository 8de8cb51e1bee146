use vstd::prelude::*;

use crate::item::Item;

verus! {

/// Rectangle dimensions, immutable for the lifetime of a game. The playable
/// area is the 1-based range `[1, width] x [1, height]`; row and column 0 are
/// conceptually the border.
#[derive(Clone, Copy, PartialEq, Eq, Structural, Debug)]
pub struct Board {
    pub width: u32,
    pub height: u32,
}

impl Board {
    /// Dimensions are positive and leave room for a coordinate one past the
    /// edge, which is how a boundary violation is represented.
    pub open spec fn wf(self) -> bool {
        &&& 1 <= self.width < u32::MAX
        &&& 1 <= self.height < u32::MAX
    }

    /// `it` lies inside the playable area.
    pub open spec fn contains_spec(self, it: Item) -> bool {
        &&& 1 <= it.x <= self.width
        &&& 1 <= it.y <= self.height
    }

    pub fn new(width: u32, height: u32) -> (b: Board)
        requires
            1 <= width < u32::MAX,
            1 <= height < u32::MAX,
        ensures
            b == (Board { width, height }),
            b.wf(),
    {
        Board { width, height }
    }

    /// The sole collision rule against the boundary.
    pub fn contains(&self, it: &Item) -> (r: bool)
        ensures
            r == self.contains_spec(*it),
    {
        1 <= it.x && it.x <= self.width && 1 <= it.y && it.y <= self.height
    }
}

} // verus!
