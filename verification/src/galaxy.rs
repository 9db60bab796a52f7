//! The top-level game state: the quadrant table, the ship, the current
//! sector view, the scan memory, the running totals, the clock and the
//! single random stream.
//!
//! The three parallel representations of the enemy and starbase counts —
//! the sector grid, the per-quadrant records and the global totals — are
//! kept consistent by the well-formedness predicate `wf`, which the atomic
//! update operations (`destroy_klingon`, `destroy_starbase`,
//! `enter_quadrant`) establish and preserve.

use vstd::prelude::*;

use rand::rngs::StdRng;

use crate::constants::{
    Condition, Device, INITIAL_ENERGY, INITIAL_SHIELDS, INITIAL_TORPEDOES, MISSION_DURATION,
    NUM_DEVICES, RESOURCE_LIMIT, SectorContent,
};
use crate::enterprise::{Enterprise, sat_high};
use crate::events::GameError;
use crate::generation;
use crate::position::{QuadrantPosition, SectorPosition, lemma_sector_idx_injective};
use crate::quadrant::{QuadrantData, lemma_sums_update, sum_klingons, sum_starbases};
use crate::rng::{rng_below, seed_rng};
use crate::sector_map::{SectorMap, count_cells, lemma_count_cells_update};

verus! {

/// The three parallel representations of the enemy and starbase counts
/// agree in every well-formed state: each global total equals the sum of
/// its per-quadrant record counts, and the sector view shows exactly what
/// the current quadrant's record counts.  Every operation of the engine
/// that promises `wf` therefore keeps the three representations
/// consistent at all times.
pub proof fn lemma_counts_consistent(g: Galaxy)
    requires
        g.wf(),
    ensures
        g.total_klingons as int == sum_klingons(g.quadrants@),
        g.total_starbases as int == sum_starbases(g.quadrants@),
        g.sector_map.klingons@.len() == g.current_quadrant().klingons,
        g.sector_map.starbase is Some <==> g.current_quadrant().starbases == 1,
        count_cells(g.sector_map.grid@, SectorContent::Star) == g.current_quadrant().stars,
{
}

/// Top-level game state container.
#[derive(Debug)]
pub struct Galaxy {
    pub stardate: i64,
    pub starting_stardate: i64,
    pub mission_duration: i64,
    /// 64 quadrant records in row-major order: the record of the quadrant
    /// at 1-based position (x, y) is `quadrants[(y - 1) * 8 + (x - 1)]`.
    pub quadrants: Vec<QuadrantData>,
    /// Computer's knowledge of the galaxy, same layout.  None = unscanned.
    pub computer_memory: Vec<Option<QuadrantData>>,
    pub total_klingons: i32,
    pub initial_klingons: i32,
    pub total_starbases: i32,
    pub enterprise: Enterprise,
    pub sector_map: SectorMap,
    /// The single random stream behind every stochastic decision.
    pub rng: StdRng,
}

impl Galaxy {
    /// The record of the quadrant the ship currently occupies.
    pub open spec fn current_quadrant(self) -> QuadrantData {
        self.quadrants@[self.enterprise.quadrant.idx()]
    }

    /// The quadrant table and the two global totals agree: each total is
    /// the sum of its per-quadrant counts.
    pub open spec fn wf_counts(self) -> bool {
        &&& self.quadrants@.len() == 64
        &&& forall|i: int| 0 <= i < 64 ==> (#[trigger] self.quadrants@[i]).wf()
        &&& self.computer_memory@.len() == 64
        &&& self.total_klingons as int == sum_klingons(self.quadrants@)
        &&& self.total_starbases as int == sum_starbases(self.quadrants@)
        &&& 0 <= self.initial_klingons <= 192
    }

    /// The sector view and the current quadrant's record agree: as many
    /// listed Klingons as the record counts, a starbase exactly when the
    /// record has one, as many star cells as the record counts, and the
    /// ship on its own cell.
    pub open spec fn wf_view(self) -> bool {
        &&& self.sector_map.consistent()
        &&& self.sector_map.klingons@.len() == self.current_quadrant().klingons
        &&& (self.sector_map.starbase is Some <==> self.current_quadrant().starbases == 1)
        &&& count_cells(self.sector_map.grid@, SectorContent::Star)
            == self.current_quadrant().stars
        &&& self.sector_map.grid@[self.enterprise.sector.idx()] == SectorContent::Enterprise
    }

    /// The clock fields are ordered and representable.
    pub open spec fn wf_time(self) -> bool {
        &&& 0 <= self.starting_stardate <= self.stardate <= RESOURCE_LIMIT
        &&& 0 <= self.mission_duration <= 1000000
    }

    /// The cross-cutting invariant of the whole aggregate.
    pub open spec fn wf(self) -> bool {
        &&& self.wf_counts()
        &&& self.enterprise.wf()
        &&& self.wf_view()
        &&& self.sector_map.klingons_alive()
        &&& self.wf_time()
    }

    /// Create and initialize a new game from the player's seed number.
    /// The generated galaxy always holds at least one Klingon and at least
    /// one starbase.
    pub fn new(seed: u64) -> (r: Galaxy)
        ensures
            r.wf(),
            r.total_klingons > 0,
            r.total_starbases > 0,
            r.initial_klingons == r.total_klingons,
            r.enterprise.energy == INITIAL_ENERGY,
            r.enterprise.torpedoes == INITIAL_TORPEDOES,
            r.enterprise.shields == INITIAL_SHIELDS,
            r.stardate == r.starting_stardate,
            2000 <= r.starting_stardate <= 3900,
            r.starting_stardate % 100 == 0,
            r.mission_duration == MISSION_DURATION,
            r.enterprise.devices@.len() == NUM_DEVICES,
            forall|i: int| 0 <= i < NUM_DEVICES ==> #[trigger] r.enterprise.devices@[i] == 0,
            forall|i: int| 0 <= i < 64 ==> (#[trigger] r.quadrants@[i]).stars >= 1,
    {
        let mut rng = seed_rng(seed);

        // Starting stardate: a multiple of 100 in 2000..=3900, drawn
        // uniformly.
        let stardate_draw = rng_below(&mut rng, 20);
        let starting_stardate: i64 = generation::starting_stardate_from_draw(stardate_draw);

        // Generate the galaxy, with the regeneration guard.
        let drawn = generation::generate_galaxy(&mut rng);
        let quadrants = drawn.0;
        let total_klingons = drawn.1;
        let total_starbases = drawn.2;

        // Random starting position.
        let quadrant = QuadrantPosition {
            x: rng_below(&mut rng, 8) as i32 + 1,
            y: rng_below(&mut rng, 8) as i32 + 1,
        };
        let sector = SectorPosition {
            x: rng_below(&mut rng, 8) as i32 + 1,
            y: rng_below(&mut rng, 8) as i32 + 1,
        };

        let mut computer_memory: Vec<Option<QuadrantData>> = Vec::new();
        let mut i: usize = 0;
        while i < 64
            invariant
                i <= 64,
                computer_memory@.len() == i,
            decreases 64 - i,
        {
            computer_memory.push(None);
            i = i + 1;
        }

        let enterprise = Enterprise::new(quadrant, sector);
        let mut sector_map = SectorMap::new();

        // Enter the starting quadrant (populates the sector view).
        let _warn = generation::enter_quadrant(
            &mut sector_map,
            &enterprise,
            &quadrants,
            &mut rng,
        );

        let mut galaxy = Galaxy {
            stardate: starting_stardate,
            starting_stardate,
            mission_duration: MISSION_DURATION,
            quadrants,
            computer_memory,
            total_klingons,
            initial_klingons: total_klingons,
            total_starbases,
            enterprise,
            sector_map,
            rng,
        };

        // Record the starting quadrant to computer memory.
        let qx = galaxy.enterprise.quadrant.x;
        let qy = galaxy.enterprise.quadrant.y;
        galaxy.record_quadrant_to_memory(qx, qy);

        galaxy
    }

    // ========== Accessor Methods ==========

    /// Get current stardate
    pub fn stardate(&self) -> (r: i64)
        ensures
            r == self.stardate,
    {
        self.stardate
    }

    /// Get starting stardate
    pub fn starting_stardate(&self) -> (r: i64)
        ensures
            r == self.starting_stardate,
    {
        self.starting_stardate
    }

    /// Get mission duration
    pub fn mission_duration(&self) -> (r: i64)
        ensures
            r == self.mission_duration,
    {
        self.mission_duration
    }

    /// Get total Klingons remaining
    pub fn total_klingons(&self) -> (r: i32)
        ensures
            r == self.total_klingons,
    {
        self.total_klingons
    }

    /// Get initial Klingon count
    pub fn initial_klingons(&self) -> (r: i32)
        ensures
            r == self.initial_klingons,
    {
        self.initial_klingons
    }

    /// Get total starbases
    pub fn total_starbases(&self) -> (r: i32)
        ensures
            r == self.total_starbases,
    {
        self.total_starbases
    }

    /// Get reference to Enterprise
    pub fn enterprise(&self) -> (r: &Enterprise)
        ensures
            r == self.enterprise,
    {
        &self.enterprise
    }

    /// Get mutable reference to Enterprise
    pub fn enterprise_mut(&mut self) -> (r: &mut Enterprise)
        ensures
            *r == old(self).enterprise,
            *final(self) == (Galaxy { enterprise: *final(r), ..*old(self) }),
    {
        &mut self.enterprise
    }

    /// Get reference to sector map
    pub fn sector_map(&self) -> (r: &SectorMap)
        ensures
            r == self.sector_map,
    {
        &self.sector_map
    }

    /// Get mutable reference to sector map
    pub fn sector_map_mut(&mut self) -> (r: &mut SectorMap)
        ensures
            *r == old(self).sector_map,
            *final(self) == (Galaxy { sector_map: *final(r), ..*old(self) }),
    {
        &mut self.sector_map
    }

    /// Get reference to quadrants table
    pub fn quadrants(&self) -> (r: &Vec<QuadrantData>)
        ensures
            r == self.quadrants,
    {
        &self.quadrants
    }

    /// Get mutable reference to the random stream
    pub fn rng_mut(&mut self) -> (r: &mut StdRng)
        ensures
            *final(self) == (Galaxy { rng: *final(r), ..*old(self) }),
    {
        &mut self.rng
    }

    /// Get reference to computer memory
    pub fn computer_memory(&self) -> (r: &Vec<Option<QuadrantData>>)
        ensures
            r == self.computer_memory,
    {
        &self.computer_memory
    }

    /// Get mutable reference to computer memory
    pub fn computer_memory_mut(&mut self) -> (r: &mut Vec<Option<QuadrantData>>)
        ensures
            *r == old(self).computer_memory,
            *final(self) == (Galaxy { computer_memory: *final(r), ..*old(self) }),
    {
        &mut self.computer_memory
    }

    /// Advance stardate by delta, clamped at the representable ceiling.
    pub fn advance_time(&mut self, delta: i64)
        requires
            0 <= delta <= RESOURCE_LIMIT,
            -RESOURCE_LIMIT <= old(self).stardate <= RESOURCE_LIMIT,
        ensures
            final(self).stardate == sat_high(old(self).stardate + delta, RESOURCE_LIMIT as int),
            *final(self) == (Galaxy { stardate: final(self).stardate, ..*old(self) }),
    {
        let v: i64 = if self.stardate + delta > RESOURCE_LIMIT {
            RESOURCE_LIMIT
        } else {
            self.stardate + delta
        };
        self.stardate = v;
    }

    /// Decrement the global Klingon total alone; `destroy_klingon` is the
    /// atomic operation that also updates the grid and the record.
    pub fn decrement_klingons(&mut self)
        requires
            old(self).total_klingons > i32::MIN,
        ensures
            *final(self) == (Galaxy {
                total_klingons: (old(self).total_klingons - 1) as i32,
                ..*old(self)
            }),
    {
        self.total_klingons = self.total_klingons - 1;
    }

    /// Decrement the global starbase total alone; `destroy_starbase` is
    /// the atomic operation that also updates the grid and the record.
    pub fn decrement_starbases(&mut self)
        requires
            old(self).total_starbases > i32::MIN,
        ensures
            *final(self) == (Galaxy {
                total_starbases: (old(self).total_starbases - 1) as i32,
                ..*old(self)
            }),
    {
        self.total_starbases = self.total_starbases - 1;
    }

    /// Decrement the current quadrant's Klingon count alone.
    pub fn decrement_quadrant_klingons(&mut self)
        requires
            old(self).quadrants@.len() == 64,
            old(self).enterprise.quadrant.wf(),
            old(self).current_quadrant().klingons > i32::MIN,
        ensures
            final(self).quadrants@ == old(self).quadrants@.update(
                old(self).enterprise.quadrant.idx(),
                (QuadrantData {
                    klingons: (old(self).current_quadrant().klingons - 1) as i32,
                    ..old(self).current_quadrant()
                }),
            ),
            *final(self) == (Galaxy { quadrants: final(self).quadrants, ..*old(self) }),
    {
        let qi = self.enterprise.quadrant.index();
        let qd = self.quadrants[qi];
        self.quadrants.set(qi, QuadrantData { klingons: qd.klingons - 1, ..qd });
    }

    /// Decrement the current quadrant's starbase count alone.
    pub fn decrement_quadrant_starbases(&mut self)
        requires
            old(self).quadrants@.len() == 64,
            old(self).enterprise.quadrant.wf(),
            old(self).current_quadrant().starbases > i32::MIN,
        ensures
            final(self).quadrants@ == old(self).quadrants@.update(
                old(self).enterprise.quadrant.idx(),
                (QuadrantData {
                    starbases: (old(self).current_quadrant().starbases - 1) as i32,
                    ..old(self).current_quadrant()
                }),
            ),
            *final(self) == (Galaxy { quadrants: final(self).quadrants, ..*old(self) }),
    {
        let qi = self.enterprise.quadrant.index();
        let qd = self.quadrants[qi];
        self.quadrants.set(qi, QuadrantData { starbases: qd.starbases - 1, ..qd });
    }

    // Raw single-field setters: each changes one field and claims nothing
    // about the cross-cutting invariant.

    pub fn set_total_klingons(&mut self, count: i32)
        ensures
            *final(self) == (Galaxy { total_klingons: count, ..*old(self) }),
    {
        self.total_klingons = count;
    }

    pub fn set_initial_klingons(&mut self, count: i32)
        ensures
            *final(self) == (Galaxy { initial_klingons: count, ..*old(self) }),
    {
        self.initial_klingons = count;
    }

    pub fn set_total_starbases(&mut self, count: i32)
        ensures
            *final(self) == (Galaxy { total_starbases: count, ..*old(self) }),
    {
        self.total_starbases = count;
    }

    pub fn set_stardate(&mut self, stardate: i64)
        ensures
            *final(self) == (Galaxy { stardate, ..*old(self) }),
    {
        self.stardate = stardate;
    }

    pub fn set_starting_stardate(&mut self, stardate: i64)
        ensures
            *final(self) == (Galaxy { starting_stardate: stardate, ..*old(self) }),
    {
        self.starting_stardate = stardate;
    }

    // ========== Atomic Update Methods ==========

    /// Atomically destroy the Klingon at `pos`: one operation removes it
    /// from the sector grid and the Klingon list, decrements the current
    /// quadrant's record and decrements the global total, so no
    /// intermediate state with only part of the bookkeeping updated is
    /// observable.
    pub fn destroy_klingon(&mut self, pos: SectorPosition) -> (r: Result<(), GameError>)
        requires
            old(self).wf_counts(),
            old(self).enterprise.wf(),
            old(self).wf_view(),
            pos.wf(),
            old(self).sector_map.grid@[pos.idx()] == SectorContent::Klingon,
        ensures
            r is Ok,
            final(self).wf_counts(),
            final(self).wf_view(),
            final(self).sector_map.grid@ == old(self).sector_map.grid@.update(
                pos.idx(),
                SectorContent::Empty,
            ),
            final(self).total_klingons == old(self).total_klingons - 1,
            final(self).quadrants@ == old(self).quadrants@.update(
                old(self).enterprise.quadrant.idx(),
                (QuadrantData {
                    klingons: (old(self).current_quadrant().klingons - 1) as i32,
                    ..old(self).current_quadrant()
                }),
            ),
            exists|j: int|
                0 <= j < old(self).sector_map.klingons@.len() && (#[trigger] old(
                    self,
                ).sector_map.klingons@[j]).sector == pos && final(self).sector_map.klingons@
                    == old(self).sector_map.klingons@.remove(j),
            final(self).sector_map.starbase == old(self).sector_map.starbase,
            final(self).enterprise == old(self).enterprise,
            final(self).stardate == old(self).stardate,
            final(self).starting_stardate == old(self).starting_stardate,
            final(self).mission_duration == old(self).mission_duration,
            final(self).total_starbases == old(self).total_starbases,
            final(self).initial_klingons == old(self).initial_klingons,
            final(self).computer_memory == old(self).computer_memory,
            old(self).sector_map.klingons_alive() ==> final(self).sector_map.klingons_alive(),
    {
        let ghost old_self = *old(self);
        let j_opt = self.sector_map.find_klingon(pos);
        let j = match j_opt {
            Some(j) => j,
            None => {
                proof {
                    let i = choose|i: int|
                        0 <= i < self.sector_map.klingons@.len() && (
                        #[trigger] self.sector_map.klingons@[i]).sector.idx() == pos.idx();
                    lemma_sector_idx_injective(self.sector_map.klingons@[i].sector, pos);
                }
                vstd::pervasive::unreached()
            },
        };

        // Remove from the sector grid.
        proof {
            lemma_count_cells_update(
                self.sector_map.grid@,
                pos.idx(),
                SectorContent::Empty,
                SectorContent::Star,
            );
        }
        self.sector_map.set(pos, SectorContent::Empty);

        // Remove from the Klingon list.
        let _removed = self.sector_map.klingons.remove(j);

        // Decrement the global count.
        proof {
            crate::quadrant::lemma_sums_bounds(self.quadrants@);
        }
        self.total_klingons = self.total_klingons - 1;

        // Decrement the quadrant record's count.
        let qi = self.enterprise.quadrant.index();
        let qd = self.quadrants[qi];
        proof {
            lemma_sums_update(
                self.quadrants@,
                qi as int,
                QuadrantData { klingons: (qd.klingons - 1) as i32, ..qd },
            );
        }
        self.quadrants.set(qi, QuadrantData { klingons: qd.klingons - 1, ..qd });

        proof {
            let oldm = old_self.sector_map;
            let newm = self.sector_map;
            assert forall|i: int| 0 <= i < newm.klingons@.len() implies (
            #[trigger] newm.klingons@[i]).sector.wf() && newm.grid@[newm.klingons@[i].sector.idx()]
                == SectorContent::Klingon by {
                let oi: int = if i < j {
                    i
                } else {
                    i + 1
                };
                assert(newm.klingons@[i] == oldm.klingons@[oi]);
                assert(oldm.klingons@[oi].sector != pos);
                if oldm.klingons@[oi].sector.idx() == pos.idx() {
                    lemma_sector_idx_injective(oldm.klingons@[oi].sector, pos);
                }
            }
            assert forall|c: int|
                0 <= c < 64 && newm.grid@[c] == SectorContent::Klingon implies exists|i: int|
                0 <= i < newm.klingons@.len() && (#[trigger] newm.klingons@[i]).sector.idx()
                    == c by {
                assert(c != pos.idx());
                assert(oldm.grid@[c] == SectorContent::Klingon);
                let oi = choose|oi: int|
                    0 <= oi < oldm.klingons@.len() && (#[trigger] oldm.klingons@[oi]).sector.idx()
                        == c;
                assert(oldm.klingons@[j as int].sector.idx() == pos.idx());
                let ni: int = if oi < j {
                    oi
                } else {
                    oi - 1
                };
                assert(newm.klingons@[ni].sector.idx() == c);
            }
            match newm.starbase {
                Some(base) => {
                    assert(newm.grid@[base.idx()] == SectorContent::Starbase);
                },
                None => {},
            }
        }
        Ok(())
    }

    /// Atomically destroy the starbase at `pos`: one operation removes it
    /// from the sector grid and the starbase slot, zeroes the current
    /// quadrant's record and decrements the global total.
    pub fn destroy_starbase(&mut self, pos: SectorPosition)
        requires
            old(self).wf_counts(),
            old(self).enterprise.wf(),
            old(self).wf_view(),
            pos.wf(),
            old(self).sector_map.starbase == Some(pos),
        ensures
            final(self).wf_counts(),
            final(self).wf_view(),
            final(self).sector_map.grid@ == old(self).sector_map.grid@.update(
                pos.idx(),
                SectorContent::Empty,
            ),
            final(self).sector_map.starbase is None,
            final(self).total_starbases == old(self).total_starbases - 1,
            final(self).quadrants@ == old(self).quadrants@.update(
                old(self).enterprise.quadrant.idx(),
                (QuadrantData { starbases: 0, ..old(self).current_quadrant() }),
            ),
            final(self).sector_map.klingons == old(self).sector_map.klingons,
            final(self).enterprise == old(self).enterprise,
            final(self).stardate == old(self).stardate,
            final(self).starting_stardate == old(self).starting_stardate,
            final(self).mission_duration == old(self).mission_duration,
            final(self).total_klingons == old(self).total_klingons,
            final(self).initial_klingons == old(self).initial_klingons,
            final(self).computer_memory == old(self).computer_memory,
            old(self).sector_map.klingons_alive() ==> final(self).sector_map.klingons_alive(),
    {
        let ghost old_self = *old(self);

        // Remove from the sector grid and the starbase slot.
        proof {
            lemma_count_cells_update(
                self.sector_map.grid@,
                pos.idx(),
                SectorContent::Empty,
                SectorContent::Star,
            );
        }
        self.sector_map.set(pos, SectorContent::Empty);
        self.sector_map.starbase = None;

        // Decrement the global count.
        proof {
            crate::quadrant::lemma_sums_bounds(old_self.quadrants@);
        }
        self.total_starbases = self.total_starbases - 1;

        // Zero the quadrant record's count (it held exactly this base).
        let qi = self.enterprise.quadrant.index();
        let qd = self.quadrants[qi];
        proof {
            lemma_sums_update(self.quadrants@, qi as int, QuadrantData { starbases: 0, ..qd });
        }
        self.quadrants.set(qi, QuadrantData { starbases: 0, ..qd });

        proof {
            let oldm = old_self.sector_map;
            let newm = self.sector_map;
            assert forall|i: int| 0 <= i < newm.klingons@.len() implies (
            #[trigger] newm.klingons@[i]).sector.wf() && newm.grid@[newm.klingons@[i].sector.idx()]
                == SectorContent::Klingon by {
                assert(oldm.grid@[oldm.klingons@[i].sector.idx()] == SectorContent::Klingon);
            }
            assert forall|c: int|
                0 <= c < 64 && newm.grid@[c] == SectorContent::Klingon implies exists|i: int|
                0 <= i < newm.klingons@.len() && (#[trigger] newm.klingons@[i]).sector.idx()
                    == c by {
                assert(oldm.grid@[c] == SectorContent::Klingon);
            }
        }
    }

    // ========== End Atomic Update Methods ==========

    /// Enter the current quadrant: clear the sector view and place all
    /// entities.  Called on game start and on every quadrant transition.
    /// Returns whether the low-shield combat-area warning must be emitted.
    pub fn enter_quadrant(&mut self) -> (warn: bool)
        requires
            old(self).wf_counts(),
            old(self).enterprise.wf(),
        ensures
            final(self).wf_counts(),
            final(self).enterprise == old(self).enterprise,
            final(self).wf_view(),
            final(self).sector_map.klingons_alive(),
            count_cells(final(self).sector_map.grid@, SectorContent::Enterprise) == 1,
            count_cells(final(self).sector_map.grid@, SectorContent::Klingon) == final(self).current_quadrant().klingons,
            count_cells(final(self).sector_map.grid@, SectorContent::Starbase) == final(self).current_quadrant().starbases,
            count_cells(final(self).sector_map.grid@, SectorContent::Empty) == 64 - 1 - final(self).current_quadrant().klingons - final(self).current_quadrant().starbases - final(self).current_quadrant().stars,
            *final(self) == (Galaxy {
                sector_map: final(self).sector_map,
                rng: final(self).rng,
                ..*old(self)
            }),
            warn == (final(self).current_quadrant().klingons > 0
                && final(self).enterprise.shields <= crate::constants::KLINGON_INITIAL_SHIELDS),
    {
        generation::enter_quadrant(
            &mut self.sector_map,
            &self.enterprise,
            &self.quadrants,
            &mut self.rng,
        )
    }

    /// Check if the Enterprise is adjacent to a starbase and dock if so.
    /// Returns true if docked.
    pub fn check_docking(&mut self) -> (r: bool)
        requires
            old(self).enterprise.sector.wf(),
            old(self).sector_map.starbase is Some ==> old(self).sector_map.starbase->0.wf(),
        ensures
            r == old(self).enterprise.spec_adjacent_to_starbase(old(self).sector_map.starbase),
            r ==> final(self).enterprise == (Enterprise {
                energy: INITIAL_ENERGY,
                torpedoes: INITIAL_TORPEDOES,
                shields: INITIAL_SHIELDS,
                ..old(self).enterprise
            }),
            !r ==> final(self).enterprise == old(self).enterprise,
            *final(self) == (Galaxy { enterprise: final(self).enterprise, ..*old(self) }),
            old(self).wf() ==> final(self).wf(),
    {
        let starbase = self.sector_map.starbase;
        self.enterprise.check_docking(starbase)
    }

    /// Record a quadrant's data into computer memory.
    /// Does nothing if the Computer device is damaged or the coordinates
    /// are out of range.
    pub fn record_quadrant_to_memory(&mut self, x: i32, y: i32)
        requires
            old(self).quadrants@.len() == 64,
            old(self).computer_memory@.len() == 64,
            old(self).enterprise.devices@.len() == NUM_DEVICES,
        ensures
            final(self).computer_memory@ == if !old(self).enterprise.spec_is_damaged(
                Device::Computer,
            ) && 1 <= x <= 8 && 1 <= y <= 8 {
                old(self).computer_memory@.update(
                    (y - 1) * 8 + (x - 1),
                    Some(old(self).quadrants@[(y - 1) * 8 + (x - 1)]),
                )
            } else {
                old(self).computer_memory@
            },
            *final(self) == (Galaxy { computer_memory: final(self).computer_memory, ..*old(self) }),
    {
        if self.enterprise.is_damaged(Device::Computer) {
            return ;
        }
        if x >= 1 && x <= 8 && y >= 1 && y <= 8 {
            let i = ((y - 1) * 8 + (x - 1)) as usize;
            let qd = self.quadrants[i];
            self.computer_memory.set(i, Some(qd));
        }
    }

    /// The ship's condition code: Docked beats Red beats Yellow beats
    /// Green; Yellow means energy below a tenth of the initial reserve.
    pub open spec fn spec_condition(self) -> Condition {
        if self.enterprise.spec_adjacent_to_starbase(self.sector_map.starbase) {
            Condition::Docked
        } else if self.sector_map.klingons@.len() > 0 {
            Condition::Red
        } else if self.enterprise.energy < INITIAL_ENERGY / 10 {
            Condition::Yellow
        } else {
            Condition::Green
        }
    }

    /// Evaluate the ship's condition code.
    pub fn evaluate_condition(&self) -> (r: Condition)
        requires
            self.enterprise.sector.wf(),
            self.sector_map.starbase is Some ==> self.sector_map.starbase->0.wf(),
        ensures
            r == self.spec_condition(),
    {
        if self.enterprise.is_adjacent_to_starbase(self.sector_map.starbase) {
            return Condition::Docked;
        }
        if self.sector_map.klingons.len() > 0 {
            Condition::Red
        } else if self.enterprise.energy < INITIAL_ENERGY / 10 {
            Condition::Yellow
        } else {
            Condition::Green
        }
    }

    /// Check if all Klingons have been destroyed.
    pub fn all_klingons_destroyed(&self) -> (r: bool)
        ensures
            r == (self.total_klingons == 0),
    {
        self.total_klingons == 0
    }

    /// Check if time has expired: the stardate is past the starting
    /// stardate plus the mission duration.
    pub fn is_time_expired(&self) -> (r: bool)
        requires
            -RESOURCE_LIMIT <= self.starting_stardate <= RESOURCE_LIMIT,
            0 <= self.mission_duration <= RESOURCE_LIMIT,
        ensures
            r == (self.stardate > self.starting_stardate + self.mission_duration),
    {
        self.stardate > self.starting_stardate + self.mission_duration
    }

    /// The victory efficiency rating: initial Klingons per elapsed
    /// stardate, times 1000, truncated; saturates when no time elapsed.
    pub open spec fn spec_efficiency_rating(self) -> int {
        let elapsed = self.stardate - self.starting_stardate;
        if elapsed <= 0 {
            i32::MAX as int
        } else {
            let v = (self.initial_klingons as int) * 1000 / elapsed;
            if v > i32::MAX as int {
                i32::MAX as int
            } else {
                v
            }
        }
    }

    /// Calculate the efficiency rating.
    pub fn efficiency_rating(&self) -> (r: i32)
        requires
            -RESOURCE_LIMIT <= self.stardate <= RESOURCE_LIMIT,
            -RESOURCE_LIMIT <= self.starting_stardate <= RESOURCE_LIMIT,
            0 <= self.initial_klingons,
        ensures
            r as int == self.spec_efficiency_rating(),
    {
        let elapsed: i64 = self.stardate - self.starting_stardate;
        if elapsed <= 0 {
            return i32::MAX;
        }
        let v: i64 = (self.initial_klingons as i64) * 1000 / elapsed;
        if v > i32::MAX as i64 {
            i32::MAX
        } else {
            v as i32
        }
    }
}

} // verus!
