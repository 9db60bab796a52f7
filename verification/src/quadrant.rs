//! Persistent per-quadrant record of entity counts.

use vstd::prelude::*;

verus! {

/// Total Klingon count over a table of quadrant records.
pub open spec fn sum_klingons(s: Seq<QuadrantData>) -> int
    decreases s.len(),
{
    if s.len() == 0 {
        0
    } else {
        sum_klingons(s.drop_last()) + s.last().klingons
    }
}

/// Total starbase count over a table of quadrant records.
pub open spec fn sum_starbases(s: Seq<QuadrantData>) -> int
    decreases s.len(),
{
    if s.len() == 0 {
        0
    } else {
        sum_starbases(s.drop_last()) + s.last().starbases
    }
}

/// Changing one record moves both totals by exactly the difference at that
/// record.
pub proof fn lemma_sums_update(s: Seq<QuadrantData>, i: int, v: QuadrantData)
    requires
        0 <= i < s.len(),
    ensures
        sum_klingons(s.update(i, v)) == sum_klingons(s) - s[i].klingons + v.klingons,
        sum_starbases(s.update(i, v)) == sum_starbases(s) - s[i].starbases + v.starbases,
    decreases s.len(),
{
    let t = s.update(i, v);
    if i == s.len() - 1 {
        assert(t.drop_last() =~= s.drop_last());
    } else {
        assert(t.drop_last() =~= s.drop_last().update(i, v));
        lemma_sums_update(s.drop_last(), i, v);
    }
}

/// Appending a record adds its counts to the totals.
pub proof fn lemma_sums_push(s: Seq<QuadrantData>, v: QuadrantData)
    ensures
        sum_klingons(s.push(v)) == sum_klingons(s) + v.klingons,
        sum_starbases(s.push(v)) == sum_starbases(s) + v.starbases,
{
    assert(s.push(v).drop_last() =~= s);
}

/// Totals over well-formed records are non-negative and bounded.
pub proof fn lemma_sums_bounds(s: Seq<QuadrantData>)
    requires
        forall|i: int| 0 <= i < s.len() ==> (#[trigger] s[i]).wf(),
    ensures
        0 <= sum_klingons(s) <= 3 * s.len(),
        0 <= sum_starbases(s) <= s.len(),
    decreases s.len(),
{
    if s.len() > 0 {
        lemma_sums_bounds(s.drop_last());
    }
}

/// Persistent data about a single quadrant in the galaxy.
/// Stores only counts — sector positions are not preserved between visits.
#[derive(Debug, Clone, Copy, PartialEq, Eq, Structural)]
pub struct QuadrantData {
    pub klingons: i32,
    pub starbases: i32,
    pub stars: i32,
}

impl QuadrantData {
    /// Counts as galaxy generation produces them: at most 3 Klingons,
    /// at most one starbase, at most 8 stars per quadrant.
    pub open spec fn wf(self) -> bool {
        0 <= self.klingons <= 3 && 0 <= self.starbases <= 1 && 0 <= self.stars <= 8
    }

    /// The 3-digit encoded value: klingons*100 + starbases*10 + stars.
    pub fn encoded(&self) -> (r: i32)
        requires
            0 <= self.klingons <= 1000,
            0 <= self.starbases <= 1000,
            0 <= self.stars <= 1000,
        ensures
            r == self.klingons * 100 + self.starbases * 10 + self.stars,
    {
        self.klingons * 100 + self.starbases * 10 + self.stars
    }
}

} // verus!
