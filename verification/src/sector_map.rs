//! The live 8x8 occupancy grid of the currently-visited quadrant.

use vstd::prelude::*;

use crate::constants::{KLINGON_SHIELD_LIMIT, SectorContent};
use crate::klingon::Klingon;
use crate::position::SectorPosition;

verus! {

/// Number of cells of `s` that hold `c`.
pub open spec fn count_cells(s: Seq<SectorContent>, c: SectorContent) -> int
    decreases s.len(),
{
    if s.len() == 0 {
        0
    } else {
        count_cells(s.drop_last(), c) + if s.last() == c {
            1int
        } else {
            0int
        }
    }
}

/// Updating one cell changes a content count only by what leaves and what
/// arrives at that cell.
pub proof fn lemma_count_cells_update(
    s: Seq<SectorContent>,
    i: int,
    v: SectorContent,
    c: SectorContent,
)
    requires
        0 <= i < s.len(),
    ensures
        count_cells(s.update(i, v), c) == count_cells(s, c) - (if s[i] == c {
            1int
        } else {
            0int
        }) + (if v == c {
            1int
        } else {
            0int
        }),
    decreases s.len(),
{
    let t = s.update(i, v);
    if i == s.len() - 1 {
        assert(t.drop_last() =~= s.drop_last());
    } else {
        assert(t.drop_last() =~= s.drop_last().update(i, v));
        lemma_count_cells_update(s.drop_last(), i, v, c);
    }
}

/// The characters of row `y` of the grid, columns 1 through `x`, as the
/// short-range scan renders them.
pub open spec fn row_chars_upto(grid: Seq<SectorContent>, y: int, x: int) -> Seq<char>
    decreases x,
{
    if x <= 0 {
        Seq::empty()
    } else {
        row_chars_upto(grid, y, x - 1) + grid[(y - 1) * 8 + (x - 1)].spec_symbol()
    }
}

/// The 24 characters of row `y` of the grid.
pub open spec fn row_chars(grid: Seq<SectorContent>, y: int) -> Seq<char> {
    row_chars_upto(grid, y, 8)
}

/// Each rendered cell is three characters wide.
pub proof fn lemma_row_chars_upto_len(grid: Seq<SectorContent>, y: int, x: int)
    requires
        0 <= x,
    ensures
        row_chars_upto(grid, y, x).len() == 3 * x,
    decreases x,
{
    reveal_strlit("   ");
    reveal_strlit("<*>");
    reveal_strlit("+++");
    reveal_strlit(">!<");
    reveal_strlit(" * ");
    if x > 0 {
        lemma_row_chars_upto_len(grid, y, x - 1);
    }
}

/// The 8x8 sector grid for the current quadrant.
/// Regenerated every time the Enterprise enters a quadrant.
#[derive(Debug)]
pub struct SectorMap {
    /// 64 cells in row-major order: the cell at 1-based position (x, y)
    /// is `grid[(y - 1) * 8 + (x - 1)]`.
    pub grid: Vec<SectorContent>,
    /// Active Klingons in this quadrant (up to 3), in placement order.
    pub klingons: Vec<Klingon>,
    /// Position of the starbase in this quadrant, if any.
    pub starbase: Option<SectorPosition>,
}

impl SectorMap {
    /// The Klingon list and the grid agree: every listed Klingon sits on a
    /// distinct Klingon cell, and every Klingon cell belongs to a listed
    /// Klingon.
    pub open spec fn klingons_consistent(self) -> bool {
        &&& forall|i: int|
            0 <= i < self.klingons@.len() ==> (#[trigger] self.klingons@[i]).sector.wf()
                && self.grid@[self.klingons@[i].sector.idx()] == SectorContent::Klingon
        &&& forall|i: int, j: int|
            0 <= i < j < self.klingons@.len() ==> (#[trigger] self.klingons@[i]).sector != (
            #[trigger] self.klingons@[j]).sector
        &&& forall|c: int|
            0 <= c < 64 && self.grid@[c] == SectorContent::Klingon ==> exists|i: int|
                0 <= i < self.klingons@.len() && (#[trigger] self.klingons@[i]).sector.idx() == c
    }

    /// Every listed Klingon is alive and within the representable shield
    /// range.
    pub open spec fn klingons_alive(self) -> bool {
        forall|i: int|
            0 <= i < self.klingons@.len() ==> 0 < (#[trigger] self.klingons@[i]).shields
                <= KLINGON_SHIELD_LIMIT
    }

    /// The starbase record and the grid agree: the starbase, if any, sits
    /// on the unique Starbase cell.
    pub open spec fn starbase_consistent(self) -> bool {
        match self.starbase {
            Some(base) => base.wf() && self.grid@[base.idx()] == SectorContent::Starbase
                && forall|c: int|
                0 <= c < 64 && self.grid@[c] == SectorContent::Starbase ==> c == base.idx(),
            None => forall|c: int| 0 <= c < 64 ==> self.grid@[c] != SectorContent::Starbase,
        }
    }

    /// Structural well-formedness of the sector view.
    pub open spec fn consistent(self) -> bool {
        &&& self.grid@.len() == 64
        &&& self.klingons_consistent()
        &&& self.starbase_consistent()
    }

    /// An all-empty sector view.
    pub fn new() -> (r: SectorMap)
        ensures
            r.grid@.len() == 64,
            forall|c: int| 0 <= c < 64 ==> r.grid@[c] == SectorContent::Empty,
            r.klingons@.len() == 0,
            r.starbase is None,
            r.consistent(),
            r.klingons_alive(),
    {
        let mut grid: Vec<SectorContent> = Vec::new();
        let mut i: usize = 0;
        while i < 64
            invariant
                i <= 64,
                grid@.len() == i,
                forall|c: int| 0 <= c < i ==> grid@[c] == SectorContent::Empty,
            decreases 64 - i,
        {
            grid.push(SectorContent::Empty);
            i = i + 1;
        }
        SectorMap { grid, klingons: Vec::new(), starbase: None }
    }

    /// Get the content at a 1-based sector position.
    pub fn get(&self, pos: SectorPosition) -> (r: SectorContent)
        requires
            self.grid@.len() == 64,
            pos.wf(),
        ensures
            r == self.grid@[pos.idx()],
    {
        self.grid[pos.index()]
    }

    /// Set the content at a 1-based sector position.
    pub fn set(&mut self, pos: SectorPosition, content: SectorContent)
        requires
            old(self).grid@.len() == 64,
            pos.wf(),
        ensures
            final(self).grid@ == old(self).grid@.update(pos.idx(), content),
            final(self).klingons == old(self).klingons,
            final(self).starbase == old(self).starbase,
    {
        let i = pos.index();
        self.grid.set(i, content);
    }

    /// Check if a 1-based sector position is empty.
    pub fn is_empty(&self, pos: SectorPosition) -> (r: bool)
        requires
            self.grid@.len() == 64,
            pos.wf(),
        ensures
            r == (self.grid@[pos.idx()] == SectorContent::Empty),
    {
        matches!(self.get(pos), SectorContent::Empty)
    }

    /// Index in the Klingon list of the Klingon at `pos`, if any.
    pub fn find_klingon(&self, pos: SectorPosition) -> (r: Option<usize>)
        ensures
            match r {
                Some(i) => i < self.klingons@.len() && self.klingons@[i as int].sector == pos,
                None => forall|i: int|
                    0 <= i < self.klingons@.len() ==> (#[trigger] self.klingons@[i]).sector
                        != pos,
            },
    {
        let mut i: usize = 0;
        while i < self.klingons.len()
            invariant
                i <= self.klingons@.len(),
                forall|j: int|
                    0 <= j < i ==> (#[trigger] self.klingons@[j]).sector != pos,
            decreases self.klingons@.len() - i,
        {
            if self.klingons[i].sector == pos {
                return Some(i);
            }
            i = i + 1;
        }
        None
    }

    /// Render a row of the sector grid as a 24-character string.
    /// `y` is 1-based (1-8).
    pub fn render_row(&self, y: i32) -> (r: String)
        requires
            self.grid@.len() == 64,
            1 <= y <= 8,
        ensures
            r@ == row_chars(self.grid@, y as int),
            r@.len() == 24,
    {
        let mut s = String::new();
        let mut x: i32 = 1;
        while x <= 8
            invariant
                1 <= x <= 9,
                self.grid@.len() == 64,
                1 <= y <= 8,
                s@ == row_chars_upto(self.grid@, y as int, x - 1),
            decreases 9 - x,
        {
            let pos = SectorPosition { x, y };
            let sym = self.get(pos).symbol();
            s.append(sym);
            x = x + 1;
        }
        proof {
            lemma_row_chars_upto_len(self.grid@, y as int, 8);
        }
        s
    }
}

} // verus!
