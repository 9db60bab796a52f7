//! A hostile raider inside the current quadrant.

use vstd::prelude::*;

use crate::constants::KLINGON_INITIAL_SHIELDS;
use crate::position::SectorPosition;

verus! {

/// A Klingon warship within a quadrant's sector grid.
/// Up to 3 per quadrant.
#[derive(Debug, Clone, Copy, PartialEq, Eq, Structural)]
pub struct Klingon {
    pub sector: SectorPosition,
    pub shields: i64,
}

impl Klingon {
    /// A fresh Klingon at `sector`, with the fixed initial shield pool.
    pub fn new(sector: SectorPosition) -> (r: Klingon)
        ensures
            r.sector == sector,
            r.shields == KLINGON_INITIAL_SHIELDS,
    {
        Klingon { sector, shields: KLINGON_INITIAL_SHIELDS }
    }

    /// A Klingon is alive exactly while its shield pool is positive.
    pub open spec fn spec_is_alive(&self) -> bool {
        self.shields > 0
    }

    /// A Klingon is alive exactly while its shield pool is positive.
    #[verifier::when_used_as_spec(spec_is_alive)]
    pub fn is_alive(&self) -> (r: bool)
        ensures
            r == self.spec_is_alive(),
    {
        self.shields > 0
    }
}

} // verus!
