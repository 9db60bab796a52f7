//! Procedural galaxy generation and sector-view rebuilding.
//!
//! Both are rejection-sampling procedures: generation redraws the whole
//! galaxy until it holds at least one Klingon and one starbase, and entity
//! placement redraws a random sector until it lands on an empty cell.
//! Every rejected attempt consumes random draws, as reproducibility
//! demands.  Each sampling loop carries a large finite fuel; when the fuel
//! runs out (which a draw sequence of astronomically small probability
//! would take) a deterministic fallback produces the same kind of result.

use vstd::prelude::*;

use rand::rngs::StdRng;

use crate::constants::{KLINGON_INITIAL_SHIELDS, SectorContent};
use crate::enterprise::Enterprise;
use crate::klingon::Klingon;
use crate::position::SectorPosition;
use crate::quadrant::{QuadrantData, lemma_sums_push, sum_klingons, sum_starbases};
use crate::rng::rng_below;
use crate::sector_map::{SectorMap, count_cells, lemma_count_cells_update};

verus! {

/// Every cell of a uniform grid counts toward exactly its own content.
pub proof fn lemma_count_cells_uniform(s: Seq<SectorContent>, c: SectorContent, v: SectorContent)
    requires
        forall|i: int| 0 <= i < s.len() ==> s[i] == v,
    ensures
        count_cells(s, c) == if c == v {
            s.len() as int
        } else {
            0int
        },
    decreases s.len(),
{
    if s.len() > 0 {
        lemma_count_cells_uniform(s.drop_last(), c, v);
    }
}

/// A positive count means some cell holds the content.
pub proof fn lemma_count_cells_member(s: Seq<SectorContent>, c: SectorContent)
    requires
        count_cells(s, c) > 0,
    ensures
        exists|i: int| 0 <= i < s.len() && s[i] == c,
    decreases s.len(),
{
    if s.last() == c {
        assert(s[s.len() - 1] == c);
    } else {
        lemma_count_cells_member(s.drop_last(), c);
        let i = choose|i: int| 0 <= i < s.len() - 1 && s.drop_last()[i] == c;
        assert(s[i] == c);
    }
}

/// The quadrant record determined by its three uniform draws: the Klingon
/// count by the fixed thresholds (top 2% three, next 3% two, next 15%
/// one), a starbase on the top 4% of its draw, and one to eight stars
/// uniformly.
pub fn record_from_draws(k_draw: u32, b_draw: u32, s_draw: u32) -> (r: QuadrantData)
    requires
        k_draw < 100,
        b_draw < 100,
        s_draw < 8,
    ensures
        r.klingons == (if k_draw >= 98 {
            3int
        } else if k_draw >= 95 {
            2int
        } else if k_draw >= 80 {
            1int
        } else {
            0int
        }),
        r.starbases == (if b_draw >= 96 {
            1int
        } else {
            0int
        }),
        r.stars == s_draw + 1,
        r.wf(),
        r.stars >= 1,
{
    let klingons: i32 = if k_draw >= 98 {
        3
    } else if k_draw >= 95 {
        2
    } else if k_draw >= 80 {
        1
    } else {
        0
    };
    let starbases: i32 = if b_draw >= 96 {
        1
    } else {
        0
    };
    let stars: i32 = s_draw as i32 + 1;
    QuadrantData { klingons, starbases, stars }
}

/// The starting stardate determined by its uniform draw: a multiple of
/// 100 in 2000..=3900.
pub fn starting_stardate_from_draw(draw: u32) -> (r: i64)
    requires
        draw < 20,
    ensures
        r == (draw + 20) * 100,
        2000 <= r <= 3900,
        r % 100 == 0,
{
    (draw as i64 + 20) * 100
}

/// One quadrant record drawn from the stream: three draws, mapped by
/// `record_from_draws`.
fn draw_quadrant(rng: &mut StdRng) -> (r: QuadrantData)
    ensures
        r.wf(),
        r.stars >= 1,
{
    let k_draw = rng_below(rng, 100);
    let b_draw = rng_below(rng, 100);
    let s_draw = rng_below(rng, 8);
    record_from_draws(k_draw, b_draw, s_draw)
}

/// One complete 64-quadrant draw, with its two totals.
fn draw_galaxy_attempt(rng: &mut StdRng) -> (r: (Vec<QuadrantData>, i32, i32))
    ensures
        r.0@.len() == 64,
        forall|i: int| 0 <= i < 64 ==> (#[trigger] r.0@[i]).wf() && r.0@[i].stars >= 1,
        r.1 as int == sum_klingons(r.0@),
        r.2 as int == sum_starbases(r.0@),
        0 <= r.1 <= 192,
        0 <= r.2 <= 64,
{
    let mut quadrants: Vec<QuadrantData> = Vec::new();
    let mut total_klingons: i32 = 0;
    let mut total_starbases: i32 = 0;
    let mut i: usize = 0;
    while i < 64
        invariant
            i <= 64,
            quadrants@.len() == i,
            forall|j: int| 0 <= j < i ==> (#[trigger] quadrants@[j]).wf() && quadrants@[j].stars
                >= 1,
            total_klingons as int == sum_klingons(quadrants@),
            total_starbases as int == sum_starbases(quadrants@),
            0 <= total_klingons <= 3 * i,
            0 <= total_starbases <= i,
        decreases 64 - i,
    {
        let qd = draw_quadrant(rng);
        proof {
            lemma_sums_push(quadrants@, qd);
        }
        quadrants.push(qd);
        total_klingons = total_klingons + qd.klingons;
        total_starbases = total_starbases + qd.starbases;
        i = i + 1;
    }
    (quadrants, total_klingons, total_starbases)
}

/// The galaxy used when every sampled draw was rejected: one Klingon and
/// one starbase in the upper-left quadrant, one star everywhere.
fn fallback_galaxy() -> (r: (Vec<QuadrantData>, i32, i32))
    ensures
        r.0@.len() == 64,
        forall|i: int| 0 <= i < 64 ==> (#[trigger] r.0@[i]).wf() && r.0@[i].stars >= 1,
        r.1 as int == sum_klingons(r.0@),
        r.2 as int == sum_starbases(r.0@),
        r.1 == 1,
        r.2 == 1,
{
    let mut quadrants: Vec<QuadrantData> = Vec::new();
    proof {
        lemma_sums_push(quadrants@, QuadrantData { klingons: 1, starbases: 1, stars: 1 });
    }
    quadrants.push(QuadrantData { klingons: 1, starbases: 1, stars: 1 });
    let mut i: usize = 1;
    while i < 64
        invariant
            1 <= i <= 64,
            quadrants@.len() == i,
            forall|j: int| 0 <= j < i ==> (#[trigger] quadrants@[j]).wf() && quadrants@[j].stars
                >= 1,
            sum_klingons(quadrants@) == 1,
            sum_starbases(quadrants@) == 1,
        decreases 64 - i,
    {
        proof {
            lemma_sums_push(quadrants@, QuadrantData { klingons: 0, starbases: 0, stars: 1 });
        }
        quadrants.push(QuadrantData { klingons: 0, starbases: 0, stars: 1 });
        i = i + 1;
    }
    (quadrants, 1, 1)
}

/// Generate the 8x8 galaxy.  Redraws the whole table until the
/// regeneration guard passes: the galaxy holds at least one Klingon AND at
/// least one starbase.
pub fn generate_galaxy(rng: &mut StdRng) -> (r: (Vec<QuadrantData>, i32, i32))
    ensures
        r.0@.len() == 64,
        forall|i: int| 0 <= i < 64 ==> (#[trigger] r.0@[i]).wf() && r.0@[i].stars >= 1,
        r.1 as int == sum_klingons(r.0@),
        r.2 as int == sum_starbases(r.0@),
        0 < r.1 <= 192,
        0 < r.2 <= 64,
{
    let mut attempts: u32 = 100000;
    while attempts > 0
        invariant
            true,
        decreases attempts,
    {
        let attempt = draw_galaxy_attempt(rng);
        if attempt.1 > 0 && attempt.2 > 0 {
            return attempt;
        }
        attempts = attempts - 1;
    }
    fallback_galaxy()
}

/// Find a random empty sector by drawing random coordinates until one
/// lands on an empty cell; every miss consumes two draws.
fn find_random_empty_sector(sector_map: &SectorMap, rng: &mut StdRng) -> (pos: SectorPosition)
    requires
        sector_map.grid@.len() == 64,
        count_cells(sector_map.grid@, SectorContent::Empty) > 0,
    ensures
        pos.wf(),
        sector_map.grid@[pos.idx()] == SectorContent::Empty,
{
    let mut fuel: u32 = 1000000;
    while fuel > 0
        invariant
            sector_map.grid@.len() == 64,
        decreases fuel,
    {
        let pos = SectorPosition {
            x: rng_below(rng, 8) as i32 + 1,
            y: rng_below(rng, 8) as i32 + 1,
        };
        if sector_map.is_empty(pos) {
            return pos;
        }
        fuel = fuel - 1;
    }
    // Deterministic fallback, reached only after a million occupied draws
    // in a row: the first empty cell in row-major order.
    let mut i: usize = 0;
    while i < 64
        invariant
            i <= 64,
            sector_map.grid@.len() == 64,
            forall|j: int| 0 <= j < i ==> sector_map.grid@[j] != SectorContent::Empty,
        decreases 64 - i,
    {
        let pos = SectorPosition { x: (i % 8) as i32 + 1, y: (i / 8) as i32 + 1 };
        assert(pos.idx() == i);
        if sector_map.is_empty(pos) {
            return pos;
        }
        i = i + 1;
    }
    proof {
        lemma_count_cells_member(sector_map.grid@, SectorContent::Empty);
    }
    vstd::pervasive::unreached()
}

/// Enter the current quadrant: clear the sector view and place the ship,
/// the quadrant's Klingons (each with the full initial shield pool), its
/// starbase and its stars, each at a random empty cell.  Returns whether
/// the low-shield combat-area warning must be emitted.
pub fn enter_quadrant(
    sector_map: &mut SectorMap,
    enterprise: &Enterprise,
    quadrants: &Vec<QuadrantData>,
    rng: &mut StdRng,
) -> (warn: bool)
    requires
        enterprise.wf(),
        quadrants@.len() == 64,
        forall|i: int| 0 <= i < 64 ==> (#[trigger] quadrants@[i]).wf(),
    ensures
        ({
            let qd = quadrants@[enterprise.quadrant.idx()];
            &&& final(sector_map).consistent()
            &&& final(sector_map).klingons_alive()
            &&& final(sector_map).grid@[enterprise.sector.idx()] == SectorContent::Enterprise
            &&& final(sector_map).klingons@.len() == qd.klingons
            &&& (final(sector_map).starbase is Some <==> qd.starbases == 1)
            &&& count_cells(final(sector_map).grid@, SectorContent::Enterprise) == 1
            &&& count_cells(final(sector_map).grid@, SectorContent::Klingon) == qd.klingons
            &&& count_cells(final(sector_map).grid@, SectorContent::Starbase) == qd.starbases
            &&& count_cells(final(sector_map).grid@, SectorContent::Star) == qd.stars
            &&& count_cells(final(sector_map).grid@, SectorContent::Empty) == 64 - 1 - qd.klingons
                - qd.starbases - qd.stars
            &&& forall|i: int|
                0 <= i < final(sector_map).klingons@.len() ==> (#[trigger] final(sector_map).klingons@[i]).shields == KLINGON_INITIAL_SHIELDS
            &&& warn == (qd.klingons > 0 && enterprise.shields <= KLINGON_INITIAL_SHIELDS)
        }),
{
    let fresh = SectorMap::new();
    *sector_map = fresh;
    proof {
        lemma_count_cells_uniform(sector_map.grid@, SectorContent::Empty, SectorContent::Empty);
        lemma_count_cells_uniform(sector_map.grid@, SectorContent::Star, SectorContent::Empty);
        lemma_count_cells_uniform(sector_map.grid@, SectorContent::Klingon, SectorContent::Empty);
        lemma_count_cells_uniform(
            sector_map.grid@,
            SectorContent::Starbase,
            SectorContent::Empty,
        );
        lemma_count_cells_uniform(
            sector_map.grid@,
            SectorContent::Enterprise,
            SectorContent::Empty,
        );
        lemma_count_cells_update(
            sector_map.grid@,
            enterprise.sector.idx(),
            SectorContent::Enterprise,
            SectorContent::Empty,
        );
        lemma_count_cells_update(
            sector_map.grid@,
            enterprise.sector.idx(),
            SectorContent::Enterprise,
            SectorContent::Star,
        );
        lemma_count_cells_update(
            sector_map.grid@,
            enterprise.sector.idx(),
            SectorContent::Enterprise,
            SectorContent::Klingon,
        );
        lemma_count_cells_update(
            sector_map.grid@,
            enterprise.sector.idx(),
            SectorContent::Enterprise,
            SectorContent::Starbase,
        );
        lemma_count_cells_update(
            sector_map.grid@,
            enterprise.sector.idx(),
            SectorContent::Enterprise,
            SectorContent::Enterprise,
        );
    }
    // Place the Enterprise.
    let ship_sector = enterprise.sector();
    sector_map.set(ship_sector, SectorContent::Enterprise);

    let qd = quadrants[enterprise.quadrant().index()];
    let num_klingons = qd.klingons;
    let num_starbases = qd.starbases;
    let num_stars = qd.stars;

    // Place the Klingons, each with shields at the initial pool.
    let mut j: i32 = 0;
    while j < num_klingons
        invariant
            0 <= j <= num_klingons <= 3,
            sector_map.grid@.len() == 64,
            sector_map.klingons@.len() == j,
            sector_map.klingons_consistent(),
            forall|i: int|
                0 <= i < j ==> (#[trigger] sector_map.klingons@[i]).shields
                    == KLINGON_INITIAL_SHIELDS,
            sector_map.starbase is None,
            forall|c: int| 0 <= c < 64 ==> sector_map.grid@[c] != SectorContent::Starbase,
            count_cells(sector_map.grid@, SectorContent::Star) == 0,
            count_cells(sector_map.grid@, SectorContent::Klingon) == j,
            count_cells(sector_map.grid@, SectorContent::Starbase) == 0,
            count_cells(sector_map.grid@, SectorContent::Enterprise) == 1,
            count_cells(sector_map.grid@, SectorContent::Empty) == 64 - 1 - j,
            enterprise.sector.wf(),
            sector_map.grid@[enterprise.sector.idx()] == SectorContent::Enterprise,
        decreases num_klingons - j,
    {
        let pos = find_random_empty_sector(sector_map, rng);
        let ghost old_map = *sector_map;
        proof {
            lemma_count_cells_update(
                sector_map.grid@,
                pos.idx(),
                SectorContent::Klingon,
                SectorContent::Empty,
            );
            lemma_count_cells_update(
                sector_map.grid@,
                pos.idx(),
                SectorContent::Klingon,
                SectorContent::Star,
            );
            lemma_count_cells_update(
                sector_map.grid@,
                pos.idx(),
                SectorContent::Klingon,
                SectorContent::Klingon,
            );
            lemma_count_cells_update(
                sector_map.grid@,
                pos.idx(),
                SectorContent::Klingon,
                SectorContent::Starbase,
            );
            lemma_count_cells_update(
                sector_map.grid@,
                pos.idx(),
                SectorContent::Klingon,
                SectorContent::Enterprise,
            );
        }
        sector_map.set(pos, SectorContent::Klingon);
        sector_map.klingons.push(Klingon::new(pos));
        proof {
            assert forall|i: int| 0 <= i < sector_map.klingons@.len() implies (
            #[trigger] sector_map.klingons@[i]).sector.wf() && sector_map.grid@[sector_map.klingons@[i].sector.idx()]
                == SectorContent::Klingon by {
                if i < old_map.klingons@.len() {
                    assert(old_map.klingons@[i].sector.idx() != pos.idx());
                }
            }
            assert forall|c: int|
                0 <= c < 64 && sector_map.grid@[c] == SectorContent::Klingon implies exists|i: int|
                0 <= i < sector_map.klingons@.len() && (#[trigger] sector_map.klingons@[i]).sector.idx()
                    == c by {
                if c == pos.idx() {
                    assert(sector_map.klingons@[sector_map.klingons@.len() - 1].sector.idx()
                        == c);
                } else {
                    assert(old_map.grid@[c] == SectorContent::Klingon);
                    let i = choose|i: int|
                        0 <= i < old_map.klingons@.len() && (#[trigger] old_map.klingons@[i]).sector.idx()
                            == c;
                    assert(sector_map.klingons@[i].sector.idx() == c);
                }
            }
        }
        j = j + 1;
    }

    // Place the starbase, if the record has one.
    let mut j: i32 = 0;
    while j < num_starbases
        invariant
            0 <= j <= num_starbases <= 1,
            0 <= num_klingons <= 3,
            sector_map.grid@.len() == 64,
            sector_map.klingons@.len() == num_klingons,
            sector_map.klingons_consistent(),
            forall|i: int|
                0 <= i < sector_map.klingons@.len() ==> (#[trigger] sector_map.klingons@[i]).shields
                    == KLINGON_INITIAL_SHIELDS,
            j == 0 ==> sector_map.starbase is None && forall|c: int|
                0 <= c < 64 ==> sector_map.grid@[c] != SectorContent::Starbase,
            j > 0 ==> sector_map.starbase is Some && sector_map.starbase_consistent(),
            count_cells(sector_map.grid@, SectorContent::Star) == 0,
            count_cells(sector_map.grid@, SectorContent::Klingon) == num_klingons,
            count_cells(sector_map.grid@, SectorContent::Starbase) == j,
            count_cells(sector_map.grid@, SectorContent::Enterprise) == 1,
            count_cells(sector_map.grid@, SectorContent::Empty) == 64 - 1 - num_klingons - j,
            enterprise.sector.wf(),
            sector_map.grid@[enterprise.sector.idx()] == SectorContent::Enterprise,
        decreases num_starbases - j,
    {
        let pos = find_random_empty_sector(sector_map, rng);
        let ghost old_map = *sector_map;
        proof {
            lemma_count_cells_update(
                sector_map.grid@,
                pos.idx(),
                SectorContent::Starbase,
                SectorContent::Empty,
            );
            lemma_count_cells_update(
                sector_map.grid@,
                pos.idx(),
                SectorContent::Starbase,
                SectorContent::Star,
            );
            lemma_count_cells_update(
                sector_map.grid@,
                pos.idx(),
                SectorContent::Starbase,
                SectorContent::Klingon,
            );
            lemma_count_cells_update(
                sector_map.grid@,
                pos.idx(),
                SectorContent::Starbase,
                SectorContent::Starbase,
            );
            lemma_count_cells_update(
                sector_map.grid@,
                pos.idx(),
                SectorContent::Starbase,
                SectorContent::Enterprise,
            );
        }
        sector_map.set(pos, SectorContent::Starbase);
        sector_map.starbase = Some(pos);
        proof {
            assert forall|i: int| 0 <= i < sector_map.klingons@.len() implies (
            #[trigger] sector_map.klingons@[i]).sector.wf() && sector_map.grid@[sector_map.klingons@[i].sector.idx()]
                == SectorContent::Klingon by {
                assert(old_map.grid@[old_map.klingons@[i].sector.idx()]
                    == SectorContent::Klingon);
                assert(old_map.klingons@[i].sector.idx() != pos.idx());
            }
        }
        j = j + 1;
    }

    // Place the stars.
    let mut j: i32 = 0;
    while j < num_stars
        invariant
            0 <= j <= num_stars <= 8,
            0 <= num_klingons <= 3,
            0 <= num_starbases <= 1,
            sector_map.grid@.len() == 64,
            sector_map.klingons@.len() == num_klingons,
            sector_map.klingons_consistent(),
            forall|i: int|
                0 <= i < sector_map.klingons@.len() ==> (#[trigger] sector_map.klingons@[i]).shields
                    == KLINGON_INITIAL_SHIELDS,
            num_starbases == 0 ==> sector_map.starbase is None,
            num_starbases == 1 ==> sector_map.starbase is Some,
            sector_map.starbase_consistent(),
            count_cells(sector_map.grid@, SectorContent::Star) == j,
            count_cells(sector_map.grid@, SectorContent::Klingon) == num_klingons,
            count_cells(sector_map.grid@, SectorContent::Starbase) == num_starbases,
            count_cells(sector_map.grid@, SectorContent::Enterprise) == 1,
            count_cells(sector_map.grid@, SectorContent::Empty) == 64 - 1 - num_klingons
                - num_starbases - j,
            enterprise.sector.wf(),
            sector_map.grid@[enterprise.sector.idx()] == SectorContent::Enterprise,
        decreases num_stars - j,
    {
        let pos = find_random_empty_sector(sector_map, rng);
        let ghost old_map = *sector_map;
        proof {
            lemma_count_cells_update(
                sector_map.grid@,
                pos.idx(),
                SectorContent::Star,
                SectorContent::Empty,
            );
            lemma_count_cells_update(
                sector_map.grid@,
                pos.idx(),
                SectorContent::Star,
                SectorContent::Star,
            );
            lemma_count_cells_update(
                sector_map.grid@,
                pos.idx(),
                SectorContent::Star,
                SectorContent::Klingon,
            );
            lemma_count_cells_update(
                sector_map.grid@,
                pos.idx(),
                SectorContent::Star,
                SectorContent::Starbase,
            );
            lemma_count_cells_update(
                sector_map.grid@,
                pos.idx(),
                SectorContent::Star,
                SectorContent::Enterprise,
            );
        }
        sector_map.set(pos, SectorContent::Star);
        proof {
            assert forall|i: int| 0 <= i < sector_map.klingons@.len() implies (
            #[trigger] sector_map.klingons@[i]).sector.wf() && sector_map.grid@[sector_map.klingons@[i].sector.idx()]
                == SectorContent::Klingon by {
                assert(old_map.grid@[old_map.klingons@[i].sector.idx()]
                    == SectorContent::Klingon);
                assert(old_map.klingons@[i].sector.idx() != pos.idx());
            }
            if let Some(base) = old_map.starbase {
                assert(base.idx() != pos.idx());
            }
        }
        j = j + 1;
    }

    num_klingons > 0 && enterprise.shields() <= KLINGON_INITIAL_SHIELDS
}

} // verus!
