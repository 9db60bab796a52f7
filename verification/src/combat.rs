//! Combat resolution: the directed-fire weapon (phasers), enemy
//! counter-fire, shield control, and the dead-in-space contingency.
//!
//! Ordering is part of the design: when phasers are fired, enemy
//! counter-fire resolves before the phaser damage is applied, and Klingons
//! whose shields cross to zero or below are removed — from the grid, the
//! record and the totals at once — only after every hit of the volley has
//! been computed.

use vstd::prelude::*;

use crate::constants::{Device, KLINGON_SHIELD_LIMIT, NUM_DEVICES, RESOURCE_LIMIT, SectorContent};
use crate::enterprise::{Enterprise, ShieldControlError, sat_low};
use crate::events::{GameError, GameEvent, lemma_contains_append, lemma_sum_hits_push, sum_enterprise_hits};
use crate::galaxy::Galaxy;
use crate::geometry::{is_sqrt_floor, isqrt, lemma_sqrt_floor_bounds, sq_dist};
use crate::klingon::Klingon;
use crate::navigation::calculate_direction;
use crate::position::{SectorPosition, lemma_sector_idx_injective};
use crate::quadrant::QuadrantData;
use crate::rng::rng_below;

verus! {

/// Bounds of a product of two bounded non-negative integers.
proof fn lemma_mul_bounds(a: int, b: int, amax: int, bmax: int)
    requires
        0 <= a <= amax,
        0 <= b <= bmax,
    ensures
        0 <= a * b <= amax * bmax,
{
    assert(0 <= a * b <= amax * bmax) by (nonlinear_arith)
        requires
            0 <= a <= amax,
            0 <= b <= bmax,
    ;
}

/// Euclidean distance between two sector positions, in milli-units: the
/// floor of `1000 * sqrt(sq_dist)`.
pub fn calculate_distance(from: SectorPosition, to: SectorPosition) -> (r: i64)
    requires
        from.wf(),
        to.wf(),
    ensures
        is_sqrt_floor(1000000 * sq_dist(from, to), r as int),
        from == to ==> r == 0,
        from != to ==> 1000 <= r <= 9899,
{
    let dx: i64 = (to.x as i64) - (from.x as i64);
    let dy: i64 = (to.y as i64) - (from.y as i64);
    proof {
        assert(0 <= dx * dx <= 49 && 0 <= dy * dy <= 49) by (nonlinear_arith)
            requires
                -7 <= dx <= 7,
                -7 <= dy <= 7,
        ;
    }
    let dsq: i64 = dx * dx + dy * dy;
    let n: u64 = (1000000 * dsq) as u64;
    let r = isqrt(n);
    proof {
        lemma_sqrt_floor_bounds(n as int, r as int, 0, 9900);
        if dsq > 0 {
            lemma_sqrt_floor_bounds(n as int, r as int, 1000, 9900);
        } else {
            lemma_sqrt_floor_bounds(n as int, r as int, 0, 1);
        }
        crate::geometry::lemma_sq_dist_nonneg(from, to);
    }
    r as i64
}

/// One counter-fire hit: the firing Klingon's shield pool, scaled by the
/// random milli-factor (uniform below 2000, i.e. in [0, 2)), divided by
/// the milli-unit distance to the ship.
fn counter_hit(k_shields: i64, factor: u32, dist: i64) -> (r: i64)
    requires
        0 < k_shields <= KLINGON_SHIELD_LIMIT,
        factor < 2000,
        1000 <= dist <= 9899,
    ensures
        r as int == (k_shields * factor) / (dist as int),
        0 <= r <= 2 * k_shields,
        r <= RESOURCE_LIMIT,
    {
    proof {
        lemma_mul_bounds(k_shields as int, factor as int, KLINGON_SHIELD_LIMIT as int, 2000);
    }
    let prod: i128 = (k_shields as i128) * (factor as i128);
    let h: i128 = prod / (dist as i128);
    proof {
        assert(0 <= prod / (dist as i128) <= 2 * k_shields) by (nonlinear_arith)
            requires
                prod == (k_shields as i128) * (factor as i128),
                0 < k_shields,
                0 <= factor < 2000,
                1000 <= dist,
        ;
    }
    h as i64
}

/// One phaser hit: the delivered energy split evenly over `n` targets,
/// scaled by the random milli-factor, divided by the milli-unit distance
/// to the target.
fn phaser_hit(pe: i64, n: usize, factor: u32, dist: i64) -> (r: i64)
    requires
        0 <= pe <= 2 * RESOURCE_LIMIT,
        1 <= n <= 64,
        factor < 2000,
        1000 <= dist <= 9899,
    ensures
        r as int == (pe * factor) / ((n * dist) as int),
        0 <= r <= 2 * pe,
{
    proof {
        lemma_mul_bounds(n as int, dist as int, 64, 9899);
        lemma_mul_bounds(pe as int, factor as int, 2 * RESOURCE_LIMIT as int, 2000);
        assert((n as i128) * (dist as i128) >= 1000) by (nonlinear_arith)
            requires
                1 <= n,
                1000 <= dist,
        ;
    }
    let denom: i128 = (n as i128) * (dist as i128);
    let prod: i128 = (pe as i128) * (factor as i128);
    let h: i128 = prod / denom;
    proof {
        assert(0 <= prod / denom <= 2 * pe) by (nonlinear_arith)
            requires
                prod == (pe as i128) * (factor as i128),
                denom == (n as i128) * (dist as i128),
                0 <= pe,
                0 <= factor < 2000,
                1 <= n,
                1000 <= dist,
        ;
        assert(denom == (n * dist) as int) by (nonlinear_arith)
            requires
                denom == (n as i128) * (dist as i128),
                1 <= n <= 64,
                0 <= dist,
        ;
    }
    h as i64
}

/// Energy actually delivered by the phasers: the committed units, degraded
/// to a uniform random fraction of them (`draw` per mille) when the
/// targeting computer is damaged.
fn calculate_phaser_energy(units: i64, computer_damaged: bool, draw: u32) -> (r: i64)
    requires
        0 <= units <= 2 * RESOURCE_LIMIT,
        draw < 1000,
    ensures
        !computer_damaged ==> r == units,
        computer_damaged ==> r as int == (units * draw) / 1000,
        0 <= r <= units,
{
    if computer_damaged {
        proof {
            lemma_mul_bounds(units as int, draw as int, 2 * RESOURCE_LIMIT as int, 1000);
        }
        let prod: i128 = (units as i128) * (draw as i128);
        let h: i128 = prod / 1000;
        proof {
            assert(0 <= prod / 1000 <= units) by (nonlinear_arith)
                requires
                    prod == (units as i128) * (draw as i128),
                    0 <= units,
                    0 <= draw < 1000,
            ;
        }
        h as i64
    } else {
        units
    }
}

/// Klingons attack the Enterprise.  Every live Klingon, in placement
/// order, hits the ship for its shield pool scaled by a fresh random
/// factor in [0, 2) and divided by its distance — unless a starbase
/// adjacent to the ship protects it, in which case nothing is fired.
/// Returns the events and whether the ship was destroyed (shields driven
/// below zero).
pub fn klingons_fire(galaxy: &mut Galaxy) -> (r: (Vec<GameEvent>, bool))
    requires
        old(galaxy).wf(),
    ensures
        final(galaxy).wf(),
        final(galaxy).sector_map == old(galaxy).sector_map,
        final(galaxy).quadrants == old(galaxy).quadrants,
        final(galaxy).total_klingons == old(galaxy).total_klingons,
        final(galaxy).total_starbases == old(galaxy).total_starbases,
        final(galaxy).initial_klingons == old(galaxy).initial_klingons,
        final(galaxy).stardate == old(galaxy).stardate,
        final(galaxy).starting_stardate == old(galaxy).starting_stardate,
        final(galaxy).mission_duration == old(galaxy).mission_duration,
        final(galaxy).computer_memory == old(galaxy).computer_memory,
        final(galaxy).enterprise == (Enterprise {
            shields: final(galaxy).enterprise.shields,
            ..old(galaxy).enterprise
        }),
        final(galaxy).enterprise.shields <= old(galaxy).enterprise.shields,
        old(galaxy).enterprise.spec_adjacent_to_starbase(old(galaxy).sector_map.starbase) ==> {
            &&& final(galaxy).enterprise.shields == old(galaxy).enterprise.shields
            &&& final(galaxy).rng == old(galaxy).rng
            &&& r.0@ =~= seq![GameEvent::StarbaseProtects]
            &&& r.1 == false
        },
        !old(galaxy).enterprise.spec_adjacent_to_starbase(old(galaxy).sector_map.starbase) ==> {
            &&& r.0@.len() == old(galaxy).sector_map.klingons@.len()
            &&& forall|i: int|
                0 <= i < r.0@.len() ==> (#[trigger] r.0@[i] matches GameEvent::EnterpriseHit {
                    sector,
                    hit,
                    shields_left,
                } && sector == old(galaxy).sector_map.klingons@[i].sector && 0 <= hit <= 2
                    * old(galaxy).sector_map.klingons@[i].shields)
            &&& final(galaxy).enterprise.shields as int == sat_low(
                old(galaxy).enterprise.shields - sum_enterprise_hits(r.0@),
            )
            &&& r.1 == (final(galaxy).enterprise.shields < 0)
        },
{
    let mut events: Vec<GameEvent> = Vec::new();

    // Docking protection: an adjacent starbase absorbs all counter-fire.
    let starbase = galaxy.sector_map.starbase;
    if galaxy.enterprise.is_adjacent_to_starbase(starbase) {
        events.push(GameEvent::StarbaseProtects);
        return (events, false);
    }

    let e_pos = galaxy.enterprise.sector();
    let n = galaxy.sector_map.klingons.len();
    let ghost old_galaxy = *old(galaxy);
    let mut i: usize = 0;
    while i < n
        invariant
            old_galaxy == *old(galaxy),
            old_galaxy.wf(),
            galaxy.wf(),
            i <= n,
            n == galaxy.sector_map.klingons@.len(),
            e_pos == old_galaxy.enterprise.sector,
            galaxy.sector_map == old_galaxy.sector_map,
            galaxy.quadrants == old_galaxy.quadrants,
            galaxy.total_klingons == old_galaxy.total_klingons,
            galaxy.total_starbases == old_galaxy.total_starbases,
            galaxy.initial_klingons == old_galaxy.initial_klingons,
            galaxy.stardate == old_galaxy.stardate,
            galaxy.starting_stardate == old_galaxy.starting_stardate,
            galaxy.mission_duration == old_galaxy.mission_duration,
            galaxy.computer_memory == old_galaxy.computer_memory,
            galaxy.enterprise == (Enterprise {
                shields: galaxy.enterprise.shields,
                ..old_galaxy.enterprise
            }),
            events@.len() == i,
            forall|j: int|
                0 <= j < i ==> (#[trigger] events@[j] matches GameEvent::EnterpriseHit {
                    sector,
                    hit,
                    shields_left,
                } && sector == old_galaxy.sector_map.klingons@[j].sector && 0 <= hit <= 2
                    * old_galaxy.sector_map.klingons@[j].shields),
            galaxy.enterprise.shields as int == sat_low(
                old_galaxy.enterprise.shields - sum_enterprise_hits(events@),
            ),
            galaxy.enterprise.shields <= old_galaxy.enterprise.shields,
        decreases n - i,
    {
        let k = galaxy.sector_map.klingons[i];
        proof {
            assert(galaxy.sector_map.grid@[k.sector.idx()] == SectorContent::Klingon);
            assert(galaxy.sector_map.grid@[old_galaxy.enterprise.sector.idx()]
                == SectorContent::Enterprise);
            assert(k.sector != e_pos);
        }
        let distance = calculate_distance(e_pos, k.sector);
        let factor = rng_below(&mut galaxy.rng, 2000);
        let hit = counter_hit(k.shields, factor, distance);
        galaxy.enterprise.subtract_shields(hit);
        let shields_left = galaxy.enterprise.shields;
        proof {
            lemma_sum_hits_push(
                events@,
                GameEvent::EnterpriseHit { sector: k.sector, hit, shields_left },
            );
        }
        events.push(GameEvent::EnterpriseHit { sector: k.sector, hit, shields_left });
        i = i + 1;
    }

    let destroyed = galaxy.enterprise.shields < 0;
    (events, destroyed)
}

/// Transfer energy between shields and the main reserve so that the
/// shields hold exactly `units`.  A successful transfer preserves the sum
/// of energy and shields exactly.
pub fn shield_control(galaxy: &mut Galaxy, units: i64) -> (r: Result<(), GameError>)
    requires
        old(galaxy).enterprise.wf_resources(),
        old(galaxy).enterprise.devices@.len() == NUM_DEVICES,
    ensures
        final(galaxy).enterprise.wf_resources(),
        *final(galaxy) == (Galaxy { enterprise: final(galaxy).enterprise, ..*old(galaxy) }),
        old(galaxy).enterprise.spec_is_damaged(Device::ShieldControl) <==> r == Err::<
            (),
            GameError,
        >(GameError::DeviceDamaged(Device::ShieldControl)),
        r == Err::<(), GameError>(GameError::InvalidInput) <==> (!old(galaxy).enterprise.spec_is_damaged(Device::ShieldControl) && units <= 0),
        r matches Err(GameError::InsufficientResources { required, available }) ==> (required
            == units && available == old(galaxy).enterprise.energy + old(galaxy).enterprise.shields && units > available),
        (!old(galaxy).enterprise.spec_is_damaged(Device::ShieldControl) && units > 0 && units
            > old(galaxy).enterprise.energy + old(galaxy).enterprise.shields) <==> r matches Err(
            GameError::InsufficientResources { .. },
        ),
        r is Ok <==> (!old(galaxy).enterprise.spec_is_damaged(Device::ShieldControl) && units > 0
            && units <= old(galaxy).enterprise.energy + old(galaxy).enterprise.shields),
        r is Err ==> final(galaxy).enterprise == old(galaxy).enterprise,
        r is Ok ==> {
            &&& final(galaxy).enterprise.shields == units
            &&& final(galaxy).enterprise.energy + final(galaxy).enterprise.shields == old(galaxy).enterprise.energy + old(galaxy).enterprise.shields
            &&& final(galaxy).enterprise == (Enterprise {
                energy: final(galaxy).enterprise.energy,
                shields: units,
                ..old(galaxy).enterprise
            })
        },
        old(galaxy).wf() ==> final(galaxy).wf(),
{
    if galaxy.enterprise.is_damaged(Device::ShieldControl) {
        return Err(GameError::DeviceDamaged(Device::ShieldControl));
    }
    let total = galaxy.enterprise.energy + galaxy.enterprise.shields;
    if units <= 0 {
        return Err(GameError::InvalidInput);
    }
    match galaxy.enterprise.shield_control(units) {
        Ok(()) => Ok(()),
        Err(ShieldControlError::InsufficientEnergy) => Err(
            GameError::InsufficientResources { required: units, available: total },
        ),
        Err(_) => Err(GameError::InvalidInput),
    }
}

/// The dead-in-space contingency: with no energy and shields below one
/// unit, every live Klingon in the quadrant fires on the ship, volley
/// after volley, until the ship is destroyed — or, when no Klingon is
/// here to fire, the ship survives (and its captain is demoted).
/// Returns the events and whether the ship survived.
pub fn dead_in_space_loop(galaxy: &mut Galaxy) -> (r: (Vec<GameEvent>, bool))
    requires
        old(galaxy).wf(),
    ensures
        final(galaxy).wf(),
        r.1 == (old(galaxy).sector_map.klingons@.len() == 0),
        r.1 ==> *final(galaxy) == *old(galaxy),
        final(galaxy).enterprise.shields <= old(galaxy).enterprise.shields,
        final(galaxy).sector_map == old(galaxy).sector_map,
        final(galaxy).quadrants == old(galaxy).quadrants,
        final(galaxy).total_klingons == old(galaxy).total_klingons,
        final(galaxy).total_starbases == old(galaxy).total_starbases,
        final(galaxy).enterprise == (Enterprise {
            shields: final(galaxy).enterprise.shields,
            ..old(galaxy).enterprise
        }),
        final(galaxy).stardate == old(galaxy).stardate,
        final(galaxy).starting_stardate == old(galaxy).starting_stardate,
        final(galaxy).mission_duration == old(galaxy).mission_duration,
        final(galaxy).computer_memory == old(galaxy).computer_memory,
        final(galaxy).initial_klingons == old(galaxy).initial_klingons,
{
    let mut events: Vec<GameEvent> = Vec::new();
    if galaxy.sector_map.klingons.len() == 0 {
        return (events, true);
    }
    let ghost old_galaxy = *old(galaxy);
    let mut fuel: u32 = 1000000;
    while fuel > 0
        invariant
            old_galaxy == *old(galaxy),
            old_galaxy.sector_map.klingons@.len() > 0,
            galaxy.wf(),
            galaxy.sector_map == old_galaxy.sector_map,
            galaxy.quadrants == old_galaxy.quadrants,
            galaxy.total_klingons == old_galaxy.total_klingons,
            galaxy.total_starbases == old_galaxy.total_starbases,
            galaxy.initial_klingons == old_galaxy.initial_klingons,
            galaxy.stardate == old_galaxy.stardate,
            galaxy.starting_stardate == old_galaxy.starting_stardate,
            galaxy.mission_duration == old_galaxy.mission_duration,
            galaxy.computer_memory == old_galaxy.computer_memory,
            galaxy.enterprise == (Enterprise {
                shields: galaxy.enterprise.shields,
                ..old_galaxy.enterprise
            }),
            galaxy.enterprise.shields <= old_galaxy.enterprise.shields,
        decreases fuel,
    {
        let volley = klingons_fire(galaxy);
        let mut volley_events = volley.0;
        events.append(&mut volley_events);
        if volley.1 {
            return (events, false);
        }
        fuel = fuel - 1;
    }
    (events, false)
}


/// Index of the first Klingon in the list whose shields have crossed to
/// zero or below, if any.
fn find_dead(klingons: &Vec<Klingon>) -> (r: Option<usize>)
    ensures
        match r {
            Some(d) => d < klingons@.len() && klingons@[d as int].shields <= 0,
            None => forall|i: int|
                0 <= i < klingons@.len() ==> (#[trigger] klingons@[i]).shields > 0,
        },
{
    let mut i: usize = 0;
    while i < klingons.len()
        invariant
            i <= klingons@.len(),
            forall|j: int| 0 <= j < i ==> (#[trigger] klingons@[j]).shields > 0,
        decreases klingons@.len() - i,
    {
        if klingons[i].shields <= 0 {
            return Some(i);
        }
        i = i + 1;
    }
    None
}

/// Fire the directed-fire weapon.  Preconditions are rejected with a
/// distinct reason each; on success the committed energy is deducted
/// exactly, enemy counter-fire resolves BEFORE the phaser damage is
/// applied, the delivered energy (degraded by a random fraction when the
/// computer is damaged) is split evenly across the live Klingons and
/// scaled per target by a random factor in [0, 2) over the distance, and
/// the Klingons whose shields crossed to zero or below are removed from
/// the grid, the record and the totals atomically, after the whole volley.
pub fn fire_phasers(galaxy: &mut Galaxy, units: i64) -> (r: Result<Vec<GameEvent>, GameError>)
    requires
        old(galaxy).wf(),
    ensures
        final(galaxy).wf(),
        r == Err::<Vec<GameEvent>, GameError>(GameError::NoEnemies) <==> old(galaxy).sector_map.klingons@.len() == 0,
        r == Err::<Vec<GameEvent>, GameError>(GameError::DeviceDamaged(Device::PhaserControl))
            <==> (old(galaxy).sector_map.klingons@.len() > 0 && old(galaxy).enterprise.spec_is_damaged(Device::PhaserControl)),
        r == Err::<Vec<GameEvent>, GameError>(GameError::InvalidInput) <==> (old(galaxy).sector_map.klingons@.len() > 0 && !old(galaxy).enterprise.spec_is_damaged(
            Device::PhaserControl,
        ) && units <= 0),
        r matches Err(GameError::InsufficientResources { required, available }) ==> (required
            == units && available == old(galaxy).enterprise.energy),
        (old(galaxy).sector_map.klingons@.len() > 0 && !old(galaxy).enterprise.spec_is_damaged(
            Device::PhaserControl,
        ) && units > 0 && units > old(galaxy).enterprise.energy) <==> r matches Err(
            GameError::InsufficientResources { .. },
        ),
        r is Err <==> (old(galaxy).sector_map.klingons@.len() == 0 || old(galaxy).enterprise.spec_is_damaged(Device::PhaserControl) || units <= 0 || units > old(galaxy).enterprise.energy),
        r is Err ==> *final(galaxy) == *old(galaxy),
        r matches Ok(events) ==> ({
            let n0 = old(galaxy).sector_map.klingons@.len() as int;
            let adj = old(galaxy).enterprise.spec_adjacent_to_starbase(
                old(galaxy).sector_map.starbase,
            );
            let base = if adj {
                1int
            } else {
                n0
            };
            &&& events@.len() >= base
            &&& (adj ==> events@[0] == GameEvent::StarbaseProtects)
            &&& (!adj ==> forall|i: int|
                0 <= i < n0 ==> (#[trigger] events@[i] matches GameEvent::EnterpriseHit {
                    sector,
                    ..
                } && sector == old(galaxy).sector_map.klingons@[i].sector))
            &&& ((final(galaxy).enterprise.shields >= 0 || adj) ==> (events@.len() >= base + n0
                && forall|i: int|
                0 <= i < n0 ==> (#[trigger] events@[base + i] matches GameEvent::KlingonHit {
                    sector,
                    ..
                } && sector == old(galaxy).sector_map.klingons@[i].sector)))
        }),
        r is Ok ==> {
            &&& final(galaxy).enterprise == (Enterprise {
                energy: (old(galaxy).enterprise.energy - units) as i64,
                shields: final(galaxy).enterprise.shields,
                ..old(galaxy).enterprise
            })
            &&& final(galaxy).enterprise.shields <= old(galaxy).enterprise.shields
            &&& final(galaxy).sector_map.starbase == old(galaxy).sector_map.starbase
            &&& final(galaxy).total_starbases == old(galaxy).total_starbases
            &&& final(galaxy).stardate == old(galaxy).stardate
            &&& final(galaxy).starting_stardate == old(galaxy).starting_stardate
            &&& final(galaxy).mission_duration == old(galaxy).mission_duration
            &&& final(galaxy).computer_memory == old(galaxy).computer_memory
            &&& final(galaxy).initial_klingons == old(galaxy).initial_klingons
            &&& final(galaxy).total_klingons - old(galaxy).total_klingons == final(galaxy).sector_map.klingons@.len() - old(galaxy).sector_map.klingons@.len()
            &&& final(galaxy).sector_map.klingons@.len() <= old(galaxy).sector_map.klingons@.len()
            &&& forall|i: int|
                0 <= i < final(galaxy).sector_map.klingons@.len() ==> exists|j: int|
                    0 <= j < old(galaxy).sector_map.klingons@.len() && (#[trigger] final(galaxy).sector_map.klingons@[i]).sector == (#[trigger] old(galaxy).sector_map.klingons@[j]).sector && final(galaxy).sector_map.klingons@[i].shields
                        <= old(galaxy).sector_map.klingons@[j].shields
            &&& ((final(galaxy).enterprise.shields < 0 && old(galaxy).enterprise.shields >= 0
                && !old(galaxy).enterprise.spec_adjacent_to_starbase(
                old(galaxy).sector_map.starbase,
            )) ==> final(galaxy).sector_map == old(galaxy).sector_map && final(galaxy).total_klingons == old(galaxy).total_klingons)
        },
{
    // Preconditions, each rejected with its own reason.
    if galaxy.sector_map.klingons.len() == 0 {
        return Err(GameError::NoEnemies);
    }
    if galaxy.enterprise.is_damaged(Device::PhaserControl) {
        return Err(GameError::DeviceDamaged(Device::PhaserControl));
    }
    let computer_damaged = galaxy.enterprise.is_damaged(Device::Computer);
    if units <= 0 {
        return Err(GameError::InvalidInput);
    }
    let available = galaxy.enterprise.energy;
    if units > available {
        return Err(GameError::InsufficientResources { required: units, available });
    }

    // Energy deduction, before anything is resolved.
    let consumed = galaxy.enterprise.consume_energy(units);
    proof {
        assert(consumed is Ok);
    }

    // Critical ordering: the Klingons fire BEFORE the phaser damage.
    let ghost n0 = galaxy.sector_map.klingons@.len() as int;
    let ghost adj = galaxy.enterprise.spec_adjacent_to_starbase(galaxy.sector_map.starbase);
    let ghost base: int = if adj {
        1int
    } else {
        n0
    };
    let volley = klingons_fire(galaxy);
    let mut events = volley.0;
    let ghost ev0 = events@;
    if volley.1 {
        // The ship was destroyed by the counter-fire; no phaser damage.
        proof {
            assert forall|i: int| 0 <= i < galaxy.sector_map.klingons@.len() implies exists|
                j: int,
            |
                0 <= j < old(galaxy).sector_map.klingons@.len() && (
                #[trigger] galaxy.sector_map.klingons@[i]).sector == (#[trigger] old(galaxy).sector_map.klingons@[j]).sector && galaxy.sector_map.klingons@[i].shields <= old(galaxy).sector_map.klingons@[j].shields by {
                assert(galaxy.sector_map.klingons@[i].sector == old(galaxy).sector_map.klingons@[i].sector && galaxy.sector_map.klingons@[i].shields <= old(galaxy).sector_map.klingons@[i].shields);
            }
        }
        return Ok(events);
    }

    // Delivered energy, degraded when the computer is damaged; the
    // degradation fraction is drawn only when that decision exists.
    let pe = if computer_damaged {
        let draw = rng_below(&mut galaxy.rng, 1000);
        calculate_phaser_energy(units, true, draw)
    } else {
        units
    };

    // Apply the whole volley; no Klingon is removed mid-loop.
    let e_pos = galaxy.enterprise.sector();
    let n = galaxy.sector_map.klingons.len();
    let ghost g1 = *galaxy;
    let mut i: usize = 0;
    while i < n
        invariant
            g1.wf(),
            i <= n,
            1 <= n,
            n == g1.sector_map.klingons@.len(),
            galaxy.sector_map.klingons@.len() == n,
            e_pos == g1.enterprise.sector,
            0 <= pe <= 2 * RESOURCE_LIMIT,
            galaxy.sector_map.grid == g1.sector_map.grid,
            galaxy.sector_map.starbase == g1.sector_map.starbase,
            galaxy.quadrants == g1.quadrants,
            galaxy.total_klingons == g1.total_klingons,
            galaxy.total_starbases == g1.total_starbases,
            galaxy.initial_klingons == g1.initial_klingons,
            galaxy.stardate == g1.stardate,
            galaxy.starting_stardate == g1.starting_stardate,
            galaxy.mission_duration == g1.mission_duration,
            galaxy.computer_memory == g1.computer_memory,
            galaxy.enterprise == g1.enterprise,
            forall|j: int|
                0 <= j < n ==> (#[trigger] galaxy.sector_map.klingons@[j]).sector
                    == g1.sector_map.klingons@[j].sector,
            forall|j: int|
                0 <= j < n ==> (#[trigger] galaxy.sector_map.klingons@[j]).shields
                    <= g1.sector_map.klingons@[j].shields,
            forall|j: int|
                i <= j < n ==> #[trigger] galaxy.sector_map.klingons@[j]
                    == g1.sector_map.klingons@[j],
            base == (if adj {
                1int
            } else {
                n as int
            }),
            ev0.len() == base,
            events@.len() == base + i,
            forall|j: int| 0 <= j < base ==> #[trigger] events@[j] == ev0[j],
            forall|j: int|
                0 <= j < i ==> (#[trigger] events@[base + j] matches GameEvent::KlingonHit {
                    sector,
                    ..
                } && sector == g1.sector_map.klingons@[j].sector),
        decreases n - i,
    {
        let k = galaxy.sector_map.klingons[i];
        proof {
            assert(galaxy.sector_map.grid@[k.sector.idx()] == SectorContent::Klingon);
            assert(galaxy.sector_map.grid@[g1.enterprise.sector.idx()]
                == SectorContent::Enterprise);
        }
        let distance = calculate_distance(e_pos, k.sector);
        let factor = rng_below(&mut galaxy.rng, 2000);
        let hit = phaser_hit(pe, n, factor, distance);
        let new_shields = k.shields - hit;
        galaxy.sector_map.klingons.set(i, Klingon { sector: k.sector, shields: new_shields });
        let remaining: i64 = if new_shields > 0 {
            new_shields
        } else {
            0
        };
        events.push(GameEvent::KlingonHit { sector: k.sector, hit, remaining });
        i = i + 1;
    }

    proof {
        assert forall|i: int| 0 <= i < galaxy.sector_map.klingons@.len() implies ((
        #[trigger] galaxy.sector_map.klingons@[i]).sector.wf()
            && galaxy.sector_map.grid@[galaxy.sector_map.klingons@[i].sector.idx()]
            == SectorContent::Klingon) by {
            assert(galaxy.sector_map.klingons@[i].sector == g1.sector_map.klingons@[i].sector);
            assert(g1.sector_map.klingons@[i].sector.wf());
        }
        assert forall|i: int, j: int|
            0 <= i < j < galaxy.sector_map.klingons@.len() implies (
        #[trigger] galaxy.sector_map.klingons@[i]).sector != (
        #[trigger] galaxy.sector_map.klingons@[j]).sector by {
            assert(g1.sector_map.klingons@[i].sector != g1.sector_map.klingons@[j].sector);
        }
        assert forall|c: int|
            0 <= c < 64 && galaxy.sector_map.grid@[c] == SectorContent::Klingon implies exists|
                i: int,
            |
                0 <= i < galaxy.sector_map.klingons@.len() && (
                #[trigger] galaxy.sector_map.klingons@[i]).sector.idx() == c by {
            let w = choose|w: int|
                0 <= w < g1.sector_map.klingons@.len() && (
                #[trigger] g1.sector_map.klingons@[w]).sector.idx() == c;
            assert(galaxy.sector_map.klingons@[w].sector.idx() == c);
        }
        assert forall|i: int| 0 <= i < galaxy.sector_map.klingons@.len() implies (
        #[trigger] galaxy.sector_map.klingons@[i]).shields <= KLINGON_SHIELD_LIMIT by {
            assert(g1.sector_map.klingons@[i].shields <= KLINGON_SHIELD_LIMIT);
        }
        assert forall|i: int| 0 <= i < galaxy.sector_map.klingons@.len() implies exists|j: int|
            0 <= j < g1.sector_map.klingons@.len() && (
            #[trigger] galaxy.sector_map.klingons@[i]).sector == (
            #[trigger] g1.sector_map.klingons@[j]).sector && galaxy.sector_map.klingons@[i].shields
                <= g1.sector_map.klingons@[j].shields by {
            assert(galaxy.sector_map.klingons@[i].sector == g1.sector_map.klingons@[i].sector
                && galaxy.sector_map.klingons@[i].shields <= g1.sector_map.klingons@[i].shields);
        }
    }

    // Cleanup: atomically remove every Klingon whose shields crossed to
    // zero or below, only now that the whole volley is resolved.
    let ghost e2 = events@;
    loop
        invariant_except_break
            galaxy.wf_counts(),
            galaxy.enterprise.wf(),
            galaxy.wf_view(),
            galaxy.wf_time(),
            galaxy.enterprise == g1.enterprise,
            galaxy.sector_map.starbase == g1.sector_map.starbase,
            galaxy.total_starbases == g1.total_starbases,
            galaxy.stardate == g1.stardate,
            galaxy.starting_stardate == g1.starting_stardate,
            galaxy.mission_duration == g1.mission_duration,
            galaxy.computer_memory == g1.computer_memory,
            galaxy.initial_klingons == g1.initial_klingons,
            galaxy.total_klingons - g1.total_klingons == galaxy.sector_map.klingons@.len()
                - g1.sector_map.klingons@.len(),
            galaxy.sector_map.klingons@.len() <= g1.sector_map.klingons@.len(),
            forall|i: int|
                0 <= i < galaxy.sector_map.klingons@.len() ==> (
                #[trigger] galaxy.sector_map.klingons@[i]).shields <= KLINGON_SHIELD_LIMIT,
        invariant
            events@.len() >= e2.len(),
            forall|j: int| 0 <= j < e2.len() ==> #[trigger] events@[j] == e2[j],
            forall|i: int|
                0 <= i < galaxy.sector_map.klingons@.len() ==> exists|j: int|
                    0 <= j < g1.sector_map.klingons@.len() && (
                    #[trigger] galaxy.sector_map.klingons@[i]).sector == (
                    #[trigger] g1.sector_map.klingons@[j]).sector
                        && galaxy.sector_map.klingons@[i].shields
                        <= g1.sector_map.klingons@[j].shields,
        ensures
            galaxy.wf_counts(),
            galaxy.enterprise.wf(),
            galaxy.wf_view(),
            galaxy.wf_time(),
            galaxy.sector_map.klingons_alive(),
            galaxy.enterprise == g1.enterprise,
            galaxy.sector_map.starbase == g1.sector_map.starbase,
            galaxy.total_starbases == g1.total_starbases,
            galaxy.stardate == g1.stardate,
            galaxy.starting_stardate == g1.starting_stardate,
            galaxy.mission_duration == g1.mission_duration,
            galaxy.computer_memory == g1.computer_memory,
            galaxy.initial_klingons == g1.initial_klingons,
            galaxy.total_klingons - g1.total_klingons == galaxy.sector_map.klingons@.len()
                - g1.sector_map.klingons@.len(),
            galaxy.sector_map.klingons@.len() <= g1.sector_map.klingons@.len(),
        decreases galaxy.sector_map.klingons@.len(),
    {
        let ghost before = *galaxy;
        let d_opt = find_dead(&galaxy.sector_map.klingons);
        match d_opt {
            None => {
                break ;
            },
            Some(d) => {
                let pos = galaxy.sector_map.klingons[d].sector;
                events.push(GameEvent::KlingonDestroyed { sector: pos });
                let destroyed = galaxy.destroy_klingon(pos);
                proof {
                    assert(destroyed is Ok);
                    let jr = choose|jr: int|
                        0 <= jr < before.sector_map.klingons@.len() && (#[trigger] before.sector_map.klingons@[jr]).sector
                            == pos && galaxy.sector_map.klingons@
                            == before.sector_map.klingons@.remove(jr);
                    assert forall|i: int|
                        0 <= i < galaxy.sector_map.klingons@.len() implies (
                    #[trigger] galaxy.sector_map.klingons@[i]).shields <= KLINGON_SHIELD_LIMIT by {
                        if i < jr {
                            assert(galaxy.sector_map.klingons@[i]
                                == before.sector_map.klingons@[i]);
                        } else {
                            assert(galaxy.sector_map.klingons@[i]
                                == before.sector_map.klingons@[i + 1]);
                        }
                    }
                    assert forall|i: int|
                        0 <= i < galaxy.sector_map.klingons@.len() implies exists|j: int|
                        0 <= j < g1.sector_map.klingons@.len() && (
                        #[trigger] galaxy.sector_map.klingons@[i]).sector == (
                        #[trigger] g1.sector_map.klingons@[j]).sector
                            && galaxy.sector_map.klingons@[i].shields
                            <= g1.sector_map.klingons@[j].shields by {
                        let oi: int = if i < jr {
                            i
                        } else {
                            i + 1
                        };
                        assert(galaxy.sector_map.klingons@[i]
                            == before.sector_map.klingons@[oi]);
                        let j0 = choose|j0: int|
                            0 <= j0 < g1.sector_map.klingons@.len() && (
                            #[trigger] before.sector_map.klingons@[oi]).sector == (
                            #[trigger] g1.sector_map.klingons@[j0]).sector
                                && before.sector_map.klingons@[oi].shields
                                <= g1.sector_map.klingons@[j0].shields;
                        assert(galaxy.sector_map.klingons@[i].sector
                            == g1.sector_map.klingons@[j0].sector
                            && galaxy.sector_map.klingons@[i].shields
                            <= g1.sector_map.klingons@[j0].shields);
                    }
                }
            },
        }
    }

    Ok(events)
}



/// The step at which a torpedo fired from milli-position (x0, y0) along
/// (dx, dy) resolves, counting from step `k`: the first step that leaves
/// the quadrant's [0.5, 8.5) milli-bounds or lands on an occupied cell.
pub open spec fn torpedo_stop_from(
    grid: Seq<SectorContent>,
    x0: int,
    y0: int,
    dx: int,
    dy: int,
    k: int,
) -> int
    decreases 20 - k,
{
    if k >= 20 {
        20
    } else if !(500 <= x0 + k * dx < 8500 && 500 <= y0 + k * dy < 8500) {
        k
    } else if grid[crate::navigation::milli_cell(x0 + k * dx, y0 + k * dy)]
        != SectorContent::Empty {
        k
    } else {
        torpedo_stop_from(grid, x0, y0, dx, dy, k + 1)
    }
}

/// The step at which the torpedo resolves, counting from its first step.
pub open spec fn torpedo_stop(grid: Seq<SectorContent>, x0: int, y0: int, dx: int, dy: int) -> int {
    torpedo_stop_from(grid, x0, y0, dx, dy, 1)
}

/// What a resolved torpedo does to the state, phrased against the state
/// `g0` it was fired in (after the torpedo itself was expended) and the
/// state `g1` after resolution: a miss or a star leaves everything as it
/// was; a Klingon or the starbase at the stop cell is removed from the
/// grid, the quadrant record and the global total at once.
pub open spec fn torpedo_outcome_ok(g0: Galaxy, g1: Galaxy, course_milli: int) -> bool {
    let x0 = g0.enterprise.sector.x * 1000;
    let y0 = g0.enterprise.sector.y * 1000;
    let d = crate::navigation::spec_direction(course_milli);
    let stop = torpedo_stop(g0.sector_map.grid@, x0, y0, d.0, d.1);
    let sx = x0 + stop * d.0;
    let sy = y0 + stop * d.1;
    let c = crate::navigation::milli_cell(sx, sy);
    let qi = g0.enterprise.quadrant.idx();
    if !(500 <= sx < 8500 && 500 <= sy < 8500) {
        g1.sector_map.grid@ == g0.sector_map.grid@ && g1.sector_map.starbase
            == g0.sector_map.starbase && g1.total_klingons == g0.total_klingons
            && g1.total_starbases == g0.total_starbases && g1.quadrants == g0.quadrants
    } else {
        match g0.sector_map.grid@[c] {
            SectorContent::Klingon => g1.sector_map.grid@ == g0.sector_map.grid@.update(
                c,
                SectorContent::Empty,
            ) && g1.total_klingons == g0.total_klingons - 1 && g1.quadrants@
                == g0.quadrants@.update(
                qi,
                (QuadrantData {
                    klingons: (g0.quadrants@[qi].klingons - 1) as i32,
                    ..g0.quadrants@[qi]
                }),
            ) && g1.sector_map.starbase == g0.sector_map.starbase && g1.total_starbases
                == g0.total_starbases,
            SectorContent::Starbase => g1.sector_map.grid@ == g0.sector_map.grid@.update(
                c,
                SectorContent::Empty,
            ) && g1.sector_map.starbase is None && g1.total_starbases == g0.total_starbases - 1
                && g1.quadrants@ == g0.quadrants@.update(
                qi,
                (QuadrantData { starbases: 0, ..g0.quadrants@[qi] }),
            ) && g1.total_klingons == g0.total_klingons,
            SectorContent::Star => g1.sector_map.grid@ == g0.sector_map.grid@
                && g1.sector_map.starbase == g0.sector_map.starbase && g1.total_klingons
                == g0.total_klingons && g1.total_starbases == g0.total_starbases && g1.quadrants
                == g0.quadrants,
            SectorContent::Enterprise => g1.sector_map.grid@ == g0.sector_map.grid@
                && g1.sector_map.starbase == g0.sector_map.starbase && g1.total_klingons
                == g0.total_klingons && g1.total_starbases == g0.total_starbases && g1.quadrants
                == g0.quadrants,
            SectorContent::Empty => true,
        }
    }
}


/// The report a resolved torpedo owes: a miss is reported as such, and a
/// destruction or absorption at the stop cell is reported with the sector
/// it happened in.
pub open spec fn torpedo_events_reported(
    g0: Galaxy,
    events: Seq<GameEvent>,
    course_milli: int,
) -> bool {
    let x0 = g0.enterprise.sector.x * 1000;
    let y0 = g0.enterprise.sector.y * 1000;
    let d = crate::navigation::spec_direction(course_milli);
    let stop = torpedo_stop(g0.sector_map.grid@, x0, y0, d.0, d.1);
    let sx = x0 + stop * d.0;
    let sy = y0 + stop * d.1;
    let c = crate::navigation::milli_cell(sx, sy);
    let spos = SectorPosition { x: ((sx + 500) / 1000) as i32, y: ((sy + 500) / 1000) as i32 };
    if !(500 <= sx < 8500 && 500 <= sy < 8500) {
        events.contains(GameEvent::TorpedoMissed)
    } else {
        match g0.sector_map.grid@[c] {
            SectorContent::Klingon => events.contains(
                GameEvent::KlingonDestroyed { sector: spos },
            ),
            SectorContent::Star => events.contains(GameEvent::StarAbsorbsTorpedo),
            SectorContent::Starbase => events.contains(
                GameEvent::StarbaseDestroyed { sector: spos },
            ),
            _ => true,
        }
    }
}

/// Fire the area weapon (one photon torpedo).  Exactly one torpedo is
/// consumed before resolution regardless of the outcome.  The torpedo
/// travels sector by sector along the course vector from the ship's
/// position; the first occupied cell resolves it: a Klingon or a starbase
/// there is destroyed atomically, a star absorbs it, and leaving the
/// quadrant is a miss.  The surviving Klingons then return fire.
pub fn fire_torpedoes(galaxy: &mut Galaxy, course_milli: i64) -> (r: Result<
    Vec<GameEvent>,
    GameError,
>)
    requires
        old(galaxy).wf(),
    ensures
        final(galaxy).wf(),
        r == Err::<Vec<GameEvent>, GameError>(GameError::DeviceDamaged(Device::PhotonTubes))
            <==> old(galaxy).enterprise.spec_is_damaged(Device::PhotonTubes),
        r matches Err(GameError::InsufficientResources { required, available }) ==> (required == 1
            && available == old(galaxy).enterprise.torpedoes as i64),
        (!old(galaxy).enterprise.spec_is_damaged(Device::PhotonTubes) && old(galaxy).enterprise.torpedoes <= 0) <==> r matches Err(GameError::InsufficientResources { .. }),
        r == Err::<Vec<GameEvent>, GameError>(GameError::InvalidInput) <==> (!old(galaxy).enterprise.spec_is_damaged(Device::PhotonTubes) && old(galaxy).enterprise.torpedoes > 0
            && !(1000 <= course_milli < 9000)),
        r is Err <==> (old(galaxy).enterprise.spec_is_damaged(Device::PhotonTubes) || old(galaxy).enterprise.torpedoes <= 0 || !(1000 <= course_milli < 9000)),
        r is Err ==> *final(galaxy) == *old(galaxy),
        r is Ok ==> {
            &&& final(galaxy).enterprise.torpedoes == old(galaxy).enterprise.torpedoes - 1
            &&& final(galaxy).enterprise == (Enterprise {
                torpedoes: final(galaxy).enterprise.torpedoes,
                shields: final(galaxy).enterprise.shields,
                ..old(galaxy).enterprise
            })
            &&& final(galaxy).enterprise.shields <= old(galaxy).enterprise.shields
            &&& final(galaxy).total_klingons - old(galaxy).total_klingons == final(galaxy).sector_map.klingons@.len() - old(galaxy).sector_map.klingons@.len()
            &&& old(galaxy).total_klingons - 1 <= final(galaxy).total_klingons <= old(galaxy).total_klingons
            &&& old(galaxy).total_starbases - 1 <= final(galaxy).total_starbases <= old(galaxy).total_starbases
            &&& final(galaxy).stardate == old(galaxy).stardate
            &&& final(galaxy).starting_stardate == old(galaxy).starting_stardate
            &&& final(galaxy).mission_duration == old(galaxy).mission_duration
            &&& final(galaxy).computer_memory == old(galaxy).computer_memory
            &&& final(galaxy).initial_klingons == old(galaxy).initial_klingons
            &&& torpedo_outcome_ok(*old(galaxy), *final(galaxy), course_milli as int)
        },
        r matches Ok(events) ==> torpedo_events_reported(
            *old(galaxy),
            events@,
            course_milli as int,
        ),
{
    // Preconditions.
    if galaxy.enterprise.is_damaged(Device::PhotonTubes) {
        return Err(GameError::DeviceDamaged(Device::PhotonTubes));
    }
    if galaxy.enterprise.torpedoes <= 0 {
        let available = galaxy.enterprise.torpedoes as i64;
        return Err(GameError::InsufficientResources { required: 1, available });
    }
    if !(1000 <= course_milli && course_milli < 9000) {
        return Err(GameError::InvalidInput);
    }

    // Exactly one torpedo is consumed, before resolution.
    let consumed = galaxy.enterprise.consume_torpedo();
    proof {
        assert(consumed is Ok);
    }

    let mut events: Vec<GameEvent> = Vec::new();
    let dir = calculate_direction(course_milli);
    let dx = dir.0;
    let dy = dir.1;

    let start = galaxy.enterprise.sector();
    let x0: i64 = (start.x as i64) * 1000;
    let y0: i64 = (start.y as i64) * 1000;
    let mut x: i64 = x0;
    let mut y: i64 = y0;

    let ghost g1 = *galaxy;
    let mut steps: i64 = 0;
    loop
        invariant_except_break
            *galaxy == g1,
            g1.wf(),
            start == g1.enterprise.sector,
            x0 == start.x * 1000,
            y0 == start.y * 1000,
            1000 <= x0 <= 8000,
            1000 <= y0 <= 8000,
            500 <= x < 8500,
            500 <= y < 8500,
            -1000 <= dx <= 1000,
            -1000 <= dy <= 1000,
            dx == 1000 || dx == -1000 || dy == 1000 || dy == -1000,
            dx as int == crate::navigation::spec_direction(course_milli as int).0,
            dy as int == crate::navigation::spec_direction(course_milli as int).1,
            0 <= steps <= 16,
            x == x0 + steps * dx,
            y == y0 + steps * dy,
            torpedo_stop(g1.sector_map.grid@, x0 as int, y0 as int, dx as int, dy as int)
                == torpedo_stop_from(
                g1.sector_map.grid@,
                x0 as int,
                y0 as int,
                dx as int,
                dy as int,
                steps + 1,
            ),
        ensures
            galaxy.wf(),
            torpedo_outcome_ok(g1, *galaxy, course_milli as int),
            torpedo_events_reported(g1, events@, course_milli as int),
            galaxy.enterprise == g1.enterprise,
            galaxy.stardate == g1.stardate,
            galaxy.starting_stardate == g1.starting_stardate,
            galaxy.mission_duration == g1.mission_duration,
            galaxy.computer_memory == g1.computer_memory,
            galaxy.initial_klingons == g1.initial_klingons,
            galaxy.total_klingons - g1.total_klingons == galaxy.sector_map.klingons@.len()
                - g1.sector_map.klingons@.len(),
            g1.total_klingons - 1 <= galaxy.total_klingons <= g1.total_klingons,
            g1.total_starbases - 1 <= galaxy.total_starbases <= g1.total_starbases,
        decreases 20 - steps,
    {
        x = x + dx;
        y = y + dy;
        proof {
            assert(x == x0 + (steps + 1) * dx && y == y0 + (steps + 1) * dy) by (nonlinear_arith)
                requires
                    x == x0 + steps * dx + dx,
                    y == y0 + steps * dy + dy,
            ;
        }

        // Leaving the quadrant is a miss.
        if x < 500 || x >= 8500 || y < 500 || y >= 8500 {
            proof {
                assert(torpedo_stop_from(
                    g1.sector_map.grid@,
                    x0 as int,
                    y0 as int,
                    dx as int,
                    dy as int,
                    steps + 1,
                ) == steps + 1);
            }
            events.push(GameEvent::TorpedoMissed);
            proof {
                assert(events@[events@.len() - 1] == GameEvent::TorpedoMissed);
            }
            break ;
        }

        // Report the torpedo's track position.
        events.push(GameEvent::TorpedoTrack { x: (x / 1000) as i32, y: (y / 1000) as i32 });

        // Test the occupancy grid at the rounded coordinate.
        let check = SectorPosition { x: ((x + 500) / 1000) as i32, y: ((y + 500) / 1000) as i32 };
        let content = galaxy.sector_map.get(check);
        match content {
            SectorContent::Empty => {
                proof {
                    assert(check.idx() == crate::navigation::milli_cell(x as int, y as int));
                    assert(steps + 1 <= 16) by (nonlinear_arith)
                        requires
                            x == x0 + (steps + 1) * dx,
                            y == y0 + (steps + 1) * dy,
                            500 <= x < 8500,
                            500 <= y < 8500,
                            1000 <= x0 <= 8000,
                            1000 <= y0 <= 8000,
                            0 <= steps,
                            dx == 1000 || dx == -1000 || dy == 1000 || dy == -1000,
                    ;
                }
                steps = steps + 1;
            },
            SectorContent::Klingon => {
                proof {
                    assert(check.idx() == crate::navigation::milli_cell(x as int, y as int));
                    assert(torpedo_stop_from(
                        g1.sector_map.grid@,
                        x0 as int,
                        y0 as int,
                        dx as int,
                        dy as int,
                        steps + 1,
                    ) == steps + 1);
                    
                }
                events.push(GameEvent::KlingonDestroyed { sector: check });
                proof {
                    assert(events@[events@.len() - 1] == GameEvent::KlingonDestroyed {
                        sector: check,
                    });
                }
                let destroyed = galaxy.destroy_klingon(check);
                proof {
                    assert(destroyed is Ok);
                }
                break ;
            },
            SectorContent::Star => {
                proof {
                    assert(check.idx() == crate::navigation::milli_cell(x as int, y as int));
                    assert(torpedo_stop_from(
                        g1.sector_map.grid@,
                        x0 as int,
                        y0 as int,
                        dx as int,
                        dy as int,
                        steps + 1,
                    ) == steps + 1);
                    
                }
                events.push(GameEvent::StarAbsorbsTorpedo);
                proof {
                    assert(events@[events@.len() - 1] == GameEvent::StarAbsorbsTorpedo);
                }
                break ;
            },
            SectorContent::Starbase => {
                proof {
                    assert(check.idx() == crate::navigation::milli_cell(x as int, y as int));
                    assert(torpedo_stop_from(
                        g1.sector_map.grid@,
                        x0 as int,
                        y0 as int,
                        dx as int,
                        dy as int,
                        steps + 1,
                    ) == steps + 1);
                    
                    match g1.sector_map.starbase {
                        Some(base) => {
                            lemma_sector_idx_injective(check, base);
                        },
                        None => {},
                    }
                }
                events.push(GameEvent::StarbaseDestroyed { sector: check });
                proof {
                    assert(events@[events@.len() - 1] == GameEvent::StarbaseDestroyed {
                        sector: check,
                    });
                }
                galaxy.destroy_starbase(check);
                break ;
            },
            SectorContent::Enterprise => {
                proof {
                    assert(check.idx() == crate::navigation::milli_cell(x as int, y as int));
                    assert(torpedo_stop_from(
                        g1.sector_map.grid@,
                        x0 as int,
                        y0 as int,
                        dx as int,
                        dy as int,
                        steps + 1,
                    ) == steps + 1);
                    
                }
                break ;
            },
        }
    }

    // The surviving Klingons return fire.
    let ghost events_before = events@;
    let volley = klingons_fire(galaxy);
    let mut volley_events = volley.0;
    let ghost volley_seq = volley_events@;
    events.append(&mut volley_events);
    proof {
        let gx0 = g1.enterprise.sector.x * 1000;
        let gy0 = g1.enterprise.sector.y * 1000;
        let d = crate::navigation::spec_direction(course_milli as int);
        let stop = torpedo_stop(g1.sector_map.grid@, gx0, gy0, d.0, d.1);
        let sx = gx0 + stop * d.0;
        let sy = gy0 + stop * d.1;
        let c = crate::navigation::milli_cell(sx, sy);
        let spos = SectorPosition {
            x: ((sx + 500) / 1000) as i32,
            y: ((sy + 500) / 1000) as i32,
        };
        if !(500 <= sx < 8500 && 500 <= sy < 8500) {
            lemma_contains_append(events_before, volley_seq, GameEvent::TorpedoMissed);
        } else {
            match g1.sector_map.grid@[c] {
                SectorContent::Klingon => {
                    lemma_contains_append(
                        events_before,
                        volley_seq,
                        GameEvent::KlingonDestroyed { sector: spos },
                    );
                },
                SectorContent::Star => {
                    lemma_contains_append(
                        events_before,
                        volley_seq,
                        GameEvent::StarAbsorbsTorpedo,
                    );
                },
                SectorContent::Starbase => {
                    lemma_contains_append(
                        events_before,
                        volley_seq,
                        GameEvent::StarbaseDestroyed { sector: spos },
                    );
                },
                _ => {},
            }
        }
    }
    Ok(events)
}

} // verus!
