//! Integer coordinates in the galaxy grid and in a quadrant's sector grid.

use vstd::prelude::*;

verus! {

/// A position within the 8x8 galaxy (quadrant coordinates).
/// Values range 1-8. (1,1) is upper-left, (8,8) is lower-right.
/// X increases left-to-right, Y increases top-to-bottom.
#[derive(Debug, Clone, Copy, PartialEq, Eq, Hash, Structural)]
pub struct QuadrantPosition {
    pub x: i32,
    pub y: i32,
}

impl QuadrantPosition {
    /// Both coordinates lie on the 8x8 galaxy grid.
    pub open spec fn wf(self) -> bool {
        1 <= self.x <= 8 && 1 <= self.y <= 8
    }

    /// Row-major index of this quadrant in a 64-entry table.
    pub open spec fn idx(self) -> int {
        (self.y - 1) * 8 + (self.x - 1)
    }

    /// Row-major index, computed.
    pub fn index(&self) -> (r: usize)
        requires
            self.wf(),
        ensures
            r == self.idx(),
            r < 64,
    {
        ((self.y - 1) * 8 + (self.x - 1)) as usize
    }
}

/// A position within an 8x8 sector grid.
/// Values range 1-8. (1,1) is upper-left, (8,8) is lower-right.
/// X increases left-to-right, Y increases top-to-bottom.
#[derive(Debug, Clone, Copy, PartialEq, Eq, Hash, Structural)]
pub struct SectorPosition {
    pub x: i32,
    pub y: i32,
}

impl SectorPosition {
    /// Both coordinates lie on the 8x8 sector grid.
    pub open spec fn wf(self) -> bool {
        1 <= self.x <= 8 && 1 <= self.y <= 8
    }

    /// Row-major index of this sector in a 64-entry grid.
    pub open spec fn idx(self) -> int {
        (self.y - 1) * 8 + (self.x - 1)
    }

    /// Row-major index, computed.
    pub fn index(&self) -> (r: usize)
        requires
            self.wf(),
        ensures
            r == self.idx(),
            r < 64,
    {
        ((self.y - 1) * 8 + (self.x - 1)) as usize
    }
}

/// Row-major indexing is injective on well-formed sector positions.
pub proof fn lemma_sector_idx_injective(p: SectorPosition, q: SectorPosition)
    requires
        p.wf(),
        q.wf(),
        p.idx() == q.idx(),
    ensures
        p == q,
{
}

} // verus!
