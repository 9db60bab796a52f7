//! Navigation: course interpolation, warp movement with collision
//! detection and quadrant-boundary crossing, device auto-repair and the
//! random damage event.

use vstd::prelude::*;

use crate::constants::{Device, NUM_DEVICES, RESOURCE_LIMIT, SectorContent};
use crate::enterprise::{Enterprise, sat_high, sat_low};
use crate::events::{GameEvent, GameError};
use crate::galaxy::Galaxy;
use crate::position::{QuadrantPosition, SectorPosition};
use crate::rng::rng_below;
use crate::combat::{dead_in_space_loop, klingons_fire};
use crate::sector_map::lemma_count_cells_update;

verus! {

/// X component, in milli-units, of the reference unit vector of integer
/// heading `r` (1 through 9; heading 9 repeats heading 1 to close the
/// interpolation range).
pub open spec fn course_vector_x(r: int) -> int {
    if r == 1 {
        1000
    } else if r == 2 {
        1000
    } else if r == 3 {
        0
    } else if r == 4 {
        -1000
    } else if r == 5 {
        -1000
    } else if r == 6 {
        -1000
    } else if r == 7 {
        0
    } else if r == 8 {
        1000
    } else {
        1000
    }
}

/// Y component, in milli-units, of the reference unit vector of integer
/// heading `r`.
pub open spec fn course_vector_y(r: int) -> int {
    if r == 1 {
        0
    } else if r == 2 {
        -1000
    } else if r == 3 {
        -1000
    } else if r == 4 {
        -1000
    } else if r == 5 {
        0
    } else if r == 6 {
        1000
    } else if r == 7 {
        1000
    } else if r == 8 {
        1000
    } else {
        0
    }
}

/// The direction vector of a continuous course, linearly interpolated
/// between the two bracketing integer headings.
pub open spec fn spec_direction(course: int) -> (int, int) {
    let r = course / 1000;
    let frac = course % 1000;
    (
        course_vector_x(r) + (course_vector_x(r + 1) - course_vector_x(r)) * frac / 1000,
        course_vector_y(r) + (course_vector_y(r + 1) - course_vector_y(r)) * frac / 1000,
    )
}

/// Calculate the direction vector for a course in milli-units of
/// [1.0, 9.0).  Uses linear interpolation between adjacent integer course
/// vectors; one of the two components is always a full step of 1000.
pub fn calculate_direction(course_milli: i64) -> (r: (i64, i64))
    requires
        1000 <= course_milli < 9000,
    ensures
        r.0 as int == spec_direction(course_milli as int).0,
        r.1 as int == spec_direction(course_milli as int).1,
        -1000 <= r.0 <= 1000,
        -1000 <= r.1 <= 1000,
        r.0 == 1000 || r.0 == -1000 || r.1 == 1000 || r.1 == -1000,
{
    let h: i64 = course_milli / 1000;
    let frac: i64 = course_milli % 1000;
    let vx: i64 = course_vec_x(h);
    let vy: i64 = course_vec_y(h);
    let wx: i64 = course_vec_x(h + 1);
    let wy: i64 = course_vec_y(h + 1);
    proof {
        let fi = frac as int;
        vstd::arithmetic::div_mod::lemma_div_multiples_vanish(fi, 1000);
        vstd::arithmetic::div_mod::lemma_div_multiples_vanish(-fi, 1000);
        vstd::arithmetic::div_mod::lemma_div_multiples_vanish(0, 1000);
        if wx - vx == 1000 {
            assert((wx - vx) * fi == 1000 * fi) by (nonlinear_arith)
                requires
                    wx - vx == 1000,
            ;
        } else if wx - vx == -1000 {
            assert((wx - vx) * fi == 1000 * (-fi)) by (nonlinear_arith)
                requires
                    wx - vx == -1000,
            ;
        } else {
            assert((wx - vx) * fi == 1000 * 0) by (nonlinear_arith)
                requires
                    wx - vx == 0,
            ;
        }
        if wy - vy == 1000 {
            assert((wy - vy) * fi == 1000 * fi) by (nonlinear_arith)
                requires
                    wy - vy == 1000,
            ;
        } else if wy - vy == -1000 {
            assert((wy - vy) * fi == 1000 * (-fi)) by (nonlinear_arith)
                requires
                    wy - vy == -1000,
            ;
        } else {
            assert((wy - vy) * fi == 1000 * 0) by (nonlinear_arith)
                requires
                    wy - vy == 0,
            ;
        }
    }
    let dx: i64 = vx + (wx - vx) * frac / 1000;
    let dy: i64 = vy + (wy - vy) * frac / 1000;
    (dx, dy)
}

/// X component of the reference vector of heading `r`, computed.
fn course_vec_x(r: i64) -> (v: i64)
    requires
        1 <= r <= 9,
    ensures
        v as int == course_vector_x(r as int),
{
    if r == 1 {
        1000
    } else if r == 2 {
        1000
    } else if r == 3 {
        0
    } else if r == 4 {
        -1000
    } else if r == 5 {
        -1000
    } else if r == 6 {
        -1000
    } else if r == 7 {
        0
    } else {
        1000
    }
}

/// Y component of the reference vector of heading `r`, computed.
fn course_vec_y(r: i64) -> (v: i64)
    requires
        1 <= r <= 9,
    ensures
        v as int == course_vector_y(r as int),
{
    if r == 1 {
        0
    } else if r == 2 {
        -1000
    } else if r == 3 {
        -1000
    } else if r == 4 {
        -1000
    } else if r == 5 {
        0
    } else if r == 9 {
        0
    } else {
        1000
    }
}

/// Floor division by a positive divisor, computed by shifting the
/// numerator into the non-negative range.
fn floor_div(a: i64, b: i64) -> (r: i64)
    requires
        0 < b <= 1000000,
        -1000000000 <= a <= 1000000000,
    ensures
        r as int == (a as int) / (b as int),
{
    let shifted: i64 = a + 1000000000 * b;
    let q: i64 = shifted / b;
    proof {
        let ai = a as int;
        let bi = b as int;
        let si = shifted as int;
        vstd::arithmetic::div_mod::lemma_fundamental_div_mod(si, bi);
        assert(ai == bi * (si / bi - 1000000000) + si % bi) by (nonlinear_arith)
            requires
                si == bi * (si / bi) + si % bi,
                si == ai + 1000000000 * bi,
        ;
        vstd::arithmetic::div_mod::lemma_fundamental_div_mod_converse(
            ai,
            bi,
            si / bi - 1000000000,
            si % bi,
        );
    }
    q - 1000000000
}

/// The quadrant and sector reached after a boundary crossing, computed in
/// absolute galactic milli-coordinates: the absolute position is split
/// into quadrant and sector, the sector-zero correction rolls a zero
/// sector back into the previous quadrant at sector 8, and both
/// coordinates clamp at the galaxy edges.
pub open spec fn spec_crossing(
    quad_x: int,
    quad_y: int,
    sect_x: int,
    sect_y: int,
    dx: int,
    dy: int,
    n: int,
) -> (int, int, int, int) {
    let abs_x = (quad_x * 8 + sect_x) * 1000 + dx * n;
    let abs_y = (quad_y * 8 + sect_y) * 1000 + dy * n;
    let qx0 = abs_x / 8000;
    let qy0 = abs_y / 8000;
    let sx0 = (abs_x - qx0 * 8000 + 500) / 1000;
    let sy0 = (abs_y - qy0 * 8000 + 500) / 1000;
    let qx1 = if sx0 == 0 {
        qx0 - 1
    } else {
        qx0
    };
    let sx1 = if sx0 == 0 {
        8int
    } else {
        sx0
    };
    let qy1 = if sy0 == 0 {
        qy0 - 1
    } else {
        qy0
    };
    let sy1 = if sy0 == 0 {
        8int
    } else {
        sy0
    };
    let qx2 = if qx1 < 1 {
        1int
    } else if qx1 > 8 {
        8int
    } else {
        qx1
    };
    let qy2 = if qy1 < 1 {
        1int
    } else if qy1 > 8 {
        8int
    } else {
        qy1
    };
    let sx2 = if sx1 < 1 {
        1int
    } else if sx1 > 8 {
        8int
    } else {
        sx1
    };
    let sy2 = if sy1 < 1 {
        1int
    } else if sy1 > 8 {
        8int
    } else {
        sy1
    };
    (qx2, qy2, sx2, sy2)
}

/// Calculate the new quadrant and sector position after a quadrant
/// boundary crossing.
pub fn calculate_quadrant_crossing(
    quad_x: i32,
    quad_y: i32,
    sect_x: i32,
    sect_y: i32,
    dx: i64,
    dy: i64,
    n: i64,
) -> (r: (QuadrantPosition, SectorPosition))
    requires
        1 <= quad_x <= 8,
        1 <= quad_y <= 8,
        1 <= sect_x <= 8,
        1 <= sect_y <= 8,
        -1000 <= dx <= 1000,
        -1000 <= dy <= 1000,
        0 <= n <= 64,
    ensures
        ({
            let c = spec_crossing(
                quad_x as int,
                quad_y as int,
                sect_x as int,
                sect_y as int,
                dx as int,
                dy as int,
                n as int,
            );
            r.0.x == c.0 && r.0.y == c.1 && r.1.x == c.2 && r.1.y == c.3
        }),
        r.0.wf(),
        r.1.wf(),
{
    proof {
        assert(-64000 <= dx * n <= 64000 && -64000 <= dy * n <= 64000) by (nonlinear_arith)
            requires
                -1000 <= dx <= 1000,
                -1000 <= dy <= 1000,
                0 <= n <= 64,
        ;
    }
    let abs_x: i64 = ((quad_x as i64) * 8 + (sect_x as i64)) * 1000 + dx * n;
    let abs_y: i64 = ((quad_y as i64) * 8 + (sect_y as i64)) * 1000 + dy * n;

    let mut new_quad_x: i64 = floor_div(abs_x, 8000);
    let mut new_quad_y: i64 = floor_div(abs_y, 8000);
    let mut new_sect_x: i64 = floor_div(abs_x - new_quad_x * 8000 + 500, 1000);
    let mut new_sect_y: i64 = floor_div(abs_y - new_quad_y * 8000 + 500, 1000);

    // Sector-zero correction.
    if new_sect_x == 0 {
        new_quad_x = new_quad_x - 1;
        new_sect_x = 8;
    }
    if new_sect_y == 0 {
        new_quad_y = new_quad_y - 1;
        new_sect_y = 8;
    }

    // Clamp quadrant to galaxy boundaries (1-8).
    if new_quad_x < 1 {
        new_quad_x = 1;
    }
    if new_quad_x > 8 {
        new_quad_x = 8;
    }
    if new_quad_y < 1 {
        new_quad_y = 1;
    }
    if new_quad_y > 8 {
        new_quad_y = 8;
    }

    // Clamp sector to valid range (1-8) in case of edge effects.
    if new_sect_x < 1 {
        new_sect_x = 1;
    }
    if new_sect_x > 8 {
        new_sect_x = 8;
    }
    if new_sect_y < 1 {
        new_sect_y = 1;
    }
    if new_sect_y > 8 {
        new_sect_y = 8;
    }

    (
        QuadrantPosition { x: new_quad_x as i32, y: new_quad_y as i32 },
        SectorPosition { x: new_sect_x as i32, y: new_sect_y as i32 },
    )
}


/// The step at which a warp move of `n` unit-steps from milli-position
/// (x0, y0) along (dx, dy) stops iterating: the first step that leaves
/// the quadrant's [0.5, 8.5) milli-bounds (a crossing) or snaps onto an
/// occupied cell (a collision); `n + 1` when all steps go through.
pub open spec fn nav_stop_from(
    grid: Seq<SectorContent>,
    x0: int,
    y0: int,
    dx: int,
    dy: int,
    n: int,
    k: int,
) -> int
    decreases n + 1 - k,
{
    if k > n {
        k
    } else if !(500 <= x0 + k * dx < 8500 && 500 <= y0 + k * dy < 8500) {
        k
    } else if grid[milli_cell(x0 + k * dx, y0 + k * dy)] != SectorContent::Empty {
        k
    } else {
        nav_stop_from(grid, x0, y0, dx, dy, n, k + 1)
    }
}

/// The stopping step of the move, counting from its first step.
pub open spec fn nav_stop(grid: Seq<SectorContent>, x0: int, y0: int, dx: int, dy: int, n: int) -> int {
    nav_stop_from(grid, x0, y0, dx, dy, n, 1)
}

/// Whether the move crosses the quadrant boundary: some step within the
/// budget leaves the milli-bounds before any collision.
pub open spec fn nav_crossed(grid: Seq<SectorContent>, x0: int, y0: int, dx: int, dy: int, n: int) -> bool {
    let stop = nav_stop(grid, x0, y0, dx, dy, n);
    stop <= n && !(500 <= x0 + stop * dx < 8500 && 500 <= y0 + stop * dy < 8500)
}

/// The step the ship finally lands on when the move does not cross: the
/// full budget, or one step short of the colliding step.
pub open spec fn nav_land_step(grid: Seq<SectorContent>, x0: int, y0: int, dx: int, dy: int, n: int) -> int {
    let stop = nav_stop(grid, x0, y0, dx, dy, n);
    if stop > n {
        n
    } else {
        stop - 1
    }
}

/// Automatic device repair after a move: every damaged device improves by
/// one unit.
pub fn auto_repair_devices(galaxy: &mut Galaxy)
    requires
        old(galaxy).enterprise.wf(),
    ensures
        final(galaxy).enterprise.devices@.len() == NUM_DEVICES,
        forall|i: int|
            0 <= i < NUM_DEVICES ==> #[trigger] final(galaxy).enterprise.devices@[i] == if old(galaxy).enterprise.devices@[i] < 0 {
                old(galaxy).enterprise.devices@[i] + 1int
            } else {
                old(galaxy).enterprise.devices@[i] as int
            },
        final(galaxy).enterprise == (Enterprise {
            devices: final(galaxy).enterprise.devices,
            ..old(galaxy).enterprise
        }),
        *final(galaxy) == (Galaxy { enterprise: final(galaxy).enterprise, ..*old(galaxy) }),
        final(galaxy).enterprise.wf(),
{
    let mut i: usize = 0;
    while i < NUM_DEVICES
        invariant
            i <= NUM_DEVICES,
            old(galaxy).enterprise.wf(),
            galaxy.enterprise.devices@.len() == NUM_DEVICES,
            forall|j: int|
                0 <= j < i ==> #[trigger] galaxy.enterprise.devices@[j] == if old(galaxy).enterprise.devices@[j] < 0 {
                    old(galaxy).enterprise.devices@[j] + 1int
                } else {
                    old(galaxy).enterprise.devices@[j] as int
                },
            forall|j: int|
                i <= j < NUM_DEVICES ==> #[trigger] galaxy.enterprise.devices@[j] == old(galaxy).enterprise.devices@[j],
            galaxy.enterprise == (Enterprise {
                devices: galaxy.enterprise.devices,
                ..old(galaxy).enterprise
            }),
            *galaxy == (Galaxy { enterprise: galaxy.enterprise, ..*old(galaxy) }),
        decreases NUM_DEVICES - i,
    {
        let device = Device::from_index(i);
        if galaxy.enterprise.is_damaged(device) {
            galaxy.enterprise.repair_device(device, 1);
        }
        i = i + 1;
    }
}

/// A random damage-or-repair event after a move: with probability one in
/// five, a uniformly chosen device is either damaged or repaired (even
/// odds) by a severity drawn uniformly from 1 through 5.
pub fn random_damage_event(galaxy: &mut Galaxy) -> (r: Option<GameEvent>)
    requires
        old(galaxy).enterprise.wf(),
    ensures
        final(galaxy).enterprise.wf(),
        final(galaxy).enterprise == (Enterprise {
            devices: final(galaxy).enterprise.devices,
            ..old(galaxy).enterprise
        }),
        *final(galaxy) == (Galaxy {
            enterprise: final(galaxy).enterprise,
            rng: final(galaxy).rng,
            ..*old(galaxy)
        }),
        r is None ==> final(galaxy).enterprise.devices == old(galaxy).enterprise.devices,
        match r {
            None => true,
            Some(ev) => match ev {
                GameEvent::DeviceRepaired { device } => exists|s: int|
                    1 <= s <= 5 && final(galaxy).enterprise.devices@ == old(galaxy).enterprise.devices@.update(
                        device.spec_index() as int,
                        (#[trigger] sat_high(
                            old(galaxy).enterprise.device_state(device) + s,
                            RESOURCE_LIMIT as int,
                        )) as i64,
                    ),
                GameEvent::DeviceDamagedBy { device } => exists|s: int|
                    1 <= s <= 5 && final(galaxy).enterprise.devices@ == old(galaxy).enterprise.devices@.update(
                        device.spec_index() as int,
                        (#[trigger] sat_low(old(galaxy).enterprise.device_state(device) - s))
                            as i64,
                    ),
                _ => false,
            },
        },
{
    // One chance in five of an event at all.
    let chance = rng_below(&mut galaxy.rng, 1000);
    if chance >= 200 {
        return None;
    }

    // Select a random device, a severity of 1 through 5, and whether the
    // event repairs or damages.
    let device_index = rng_below(&mut galaxy.rng, 8) as usize;
    let severity = rng_below(&mut galaxy.rng, 5) as i64 + 1;
    let is_repair = rng_below(&mut galaxy.rng, 2) == 1;

    let device = Device::from_index(device_index);
    if is_repair {
        galaxy.enterprise.repair_device(device, severity);
        proof {
            assert(final(galaxy).enterprise.devices@ == old(galaxy).enterprise.devices@.update(
                device.spec_index() as int,
                sat_high(
                    old(galaxy).enterprise.device_state(device) + severity,
                    RESOURCE_LIMIT as int,
                ) as i64,
            ));
        }
        Some(GameEvent::DeviceRepaired { device })
    } else {
        galaxy.enterprise.damage_device(device, severity);
        proof {
            assert(final(galaxy).enterprise.devices@ == old(galaxy).enterprise.devices@.update(
                device.spec_index() as int,
                sat_low(old(galaxy).enterprise.device_state(device) - severity) as i64,
            ));
        }
        Some(GameEvent::DeviceDamagedBy { device })
    }
}


/// How a navigation command ended.
#[derive(Debug, Clone, Copy, PartialEq, Eq, Structural)]
pub enum NavOutcome {
    /// The move was carried out (possibly cut short by a collision).
    Moved,
    /// Enemy counter-fire before the move destroyed the ship.
    ShipDestroyed,
    /// The stranded contingency ran and the ship survived.
    DeadInSpaceSurvived,
    /// The stranded contingency ran and the ship did not survive.
    DeadInSpaceDestroyed,
    /// No energy is left but the shields could still be drained: the move
    /// is refused.
    InsufficientEnergy,
}

/// The grid cell index of the milli-unit position (sx, sy), snapped to
/// the nearest sector.
pub open spec fn milli_cell(sx: int, sy: int) -> int {
    ((sy + 500) / 1000 - 1) * 8 + ((sx + 500) / 1000 - 1)
}

/// Execute the warp move: step through sectors, stop at a collision (the
/// partial move still applies), cross the quadrant boundary if a step
/// leaves the grid, charge the energy cost of `steps - 5`, advance time
/// by one stardate on a crossing or at warp one and above, repair every
/// damaged device by one unit, and roll the random damage event.
fn execute_move(
    galaxy: &mut Galaxy,
    course_milli: i64,
    warp_milli: i64,
    events: &mut Vec<GameEvent>,
) -> (moved: bool)
    requires
        old(galaxy).wf(),
        1000 <= course_milli < 9000,
        0 <= warp_milli <= 8000,
    ensures
        final(galaxy).wf(),
        final(galaxy).enterprise.shields == old(galaxy).enterprise.shields,
        final(galaxy).enterprise.torpedoes == old(galaxy).enterprise.torpedoes,
        final(galaxy).quadrants == old(galaxy).quadrants,
        final(galaxy).total_klingons == old(galaxy).total_klingons,
        final(galaxy).total_starbases == old(galaxy).total_starbases,
        final(galaxy).initial_klingons == old(galaxy).initial_klingons,
        final(galaxy).starting_stardate == old(galaxy).starting_stardate,
        final(galaxy).mission_duration == old(galaxy).mission_duration,
        ({
            let n = (warp_milli * 8) as int / 1000;
            &&& (n == 0 ==> *final(galaxy) == *old(galaxy) && *final(events) == *old(events))
            &&& (n > 5 ==> final(galaxy).enterprise.energy as int == sat_low(
                old(galaxy).enterprise.energy - (n - 5),
            ))
            &&& (0 < n <= 5 ==> final(galaxy).enterprise.energy as int == sat_high(
                old(galaxy).enterprise.energy + (5 - n),
                RESOURCE_LIMIT - old(galaxy).enterprise.shields,
            ))
            &&& (n > 0 && warp_milli >= 1000 ==> final(galaxy).stardate as int == sat_high(
                old(galaxy).stardate + 1,
                RESOURCE_LIMIT as int,
            ))
            &&& (final(galaxy).stardate == old(galaxy).stardate || final(galaxy).stardate as int
                == sat_high(old(galaxy).stardate + 1, RESOURCE_LIMIT as int))
            &&& (n > 0 ==> ({
                let x0 = old(galaxy).enterprise.sector.x * 1000;
                let y0 = old(galaxy).enterprise.sector.y * 1000;
                let d = spec_direction(course_milli as int);
                let g = old(galaxy).sector_map.grid@.update(
                    old(galaxy).enterprise.sector.idx(),
                    SectorContent::Empty,
                );
                &&& (nav_crossed(g, x0, y0, d.0, d.1, n) ==> ({
                    let c = spec_crossing(
                        old(galaxy).enterprise.quadrant.x as int,
                        old(galaxy).enterprise.quadrant.y as int,
                        old(galaxy).enterprise.sector.x as int,
                        old(galaxy).enterprise.sector.y as int,
                        d.0,
                        d.1,
                        n,
                    );
                    &&& final(galaxy).enterprise.quadrant == (QuadrantPosition {
                        x: c.0 as i32,
                        y: c.1 as i32,
                    })
                    &&& final(galaxy).enterprise.sector == (SectorPosition {
                        x: c.2 as i32,
                        y: c.3 as i32,
                    })
                    &&& final(galaxy).stardate as int == sat_high(
                        old(galaxy).stardate + 1,
                        RESOURCE_LIMIT as int,
                    )
                    &&& final(galaxy).computer_memory@ == (if old(
                        galaxy,
                    ).enterprise.spec_is_damaged(Device::Computer) {
                        old(galaxy).computer_memory@
                    } else {
                        old(galaxy).computer_memory@.update(
                            (c.1 - 1) * 8 + (c.0 - 1),
                            Some(old(galaxy).quadrants@[(c.1 - 1) * 8 + (c.0 - 1)]),
                        )
                    })
                }))
                &&& (!nav_crossed(g, x0, y0, d.0, d.1, n) ==> ({
                    let ls = nav_land_step(g, x0, y0, d.0, d.1, n);
                    &&& final(galaxy).enterprise.quadrant == old(galaxy).enterprise.quadrant
                    &&& final(galaxy).enterprise.sector == (SectorPosition {
                        x: ((x0 + ls * d.0 + 500) / 1000) as i32,
                        y: ((y0 + ls * d.1 + 500) / 1000) as i32,
                    })
                    &&& final(galaxy).sector_map.grid@ == g.update(
                        milli_cell(x0 + ls * d.0, y0 + ls * d.1),
                        SectorContent::Enterprise,
                    )
                    &&& final(galaxy).sector_map.klingons == old(galaxy).sector_map.klingons
                    &&& final(galaxy).sector_map.starbase == old(galaxy).sector_map.starbase
                    &&& final(galaxy).computer_memory == old(galaxy).computer_memory
                    &&& (warp_milli < 1000 ==> final(galaxy).stardate == old(galaxy).stardate)
                }))
            }))
        }),
{
    let dir = calculate_direction(course_milli);
    let dx = dir.0;
    let dy = dir.1;
    proof {
        assert(0 <= warp_milli * 8 <= 64000) by (nonlinear_arith)
            requires
                0 <= warp_milli <= 8000,
        ;
    }
    let n: i64 = warp_milli * 8 / 1000;
    if n == 0 {
        return false;
    }

    let old_sector = galaxy.enterprise.sector();
    let old_quadrant = galaxy.enterprise.quadrant();

    let mut sx: i64 = (old_sector.x as i64) * 1000;
    let mut sy: i64 = (old_sector.y as i64) * 1000;
    let mut crossed: bool = false;

    // Remove the Enterprise from its current cell before moving.
    let ghost g0 = *galaxy;
    proof {
        lemma_count_cells_update(
            galaxy.sector_map.grid@,
            old_sector.idx(),
            SectorContent::Empty,
            SectorContent::Star,
        );
    }
    galaxy.sector_map.set(old_sector, SectorContent::Empty);
    let ghost ga = *galaxy;

    let ghost x0g: int = old_sector.x * 1000;
    let ghost y0g: int = old_sector.y * 1000;
    proof {
        assert(milli_cell(x0g, y0g) == old_sector.idx());
    }
    let mut step: i64 = 0;
    while step < n
        invariant_except_break
            *galaxy == ga,
            ga.sector_map.grid@.len() == 64,
            0 <= step <= n <= 64,
            500 <= sx < 8500,
            500 <= sy < 8500,
            -1000 <= dx <= 1000,
            -1000 <= dy <= 1000,
            crossed == false,
            ga.sector_map.grid@[milli_cell(sx as int, sy as int)] == SectorContent::Empty,
            x0g == old_sector.x * 1000,
            y0g == old_sector.y * 1000,
            sx as int == x0g + step * dx,
            sy as int == y0g + step * dy,
            nav_stop(ga.sector_map.grid@, x0g, y0g, dx as int, dy as int, n as int)
                == nav_stop_from(
                ga.sector_map.grid@,
                x0g,
                y0g,
                dx as int,
                dy as int,
                n as int,
                step + 1,
            ),
        ensures
            *galaxy == ga,
            0 <= n <= 64,
            x0g == old_sector.x * 1000,
            y0g == old_sector.y * 1000,
            crossed == nav_crossed(ga.sector_map.grid@, x0g, y0g, dx as int, dy as int, n as int),
            !crossed ==> 500 <= sx < 8500 && 500 <= sy < 8500 && ga.sector_map.grid@[milli_cell(
                sx as int,
                sy as int,
            )] == SectorContent::Empty,
            !crossed ==> ({
                let ls = nav_land_step(
                    ga.sector_map.grid@,
                    x0g,
                    y0g,
                    dx as int,
                    dy as int,
                    n as int,
                );
                sx as int == x0g + ls * dx && sy as int == y0g + ls * dy
            }),
        decreases n - step,
    {
        let nx = sx + dx;
        let ny = sy + dy;
        proof {
            assert(nx as int == x0g + (step + 1) * dx && ny as int == y0g + (step + 1) * dy)
                by (nonlinear_arith)
                requires
                    nx == sx + dx,
                    ny == sy + dy,
                    sx as int == x0g + step * dx,
                    sy as int == y0g + step * dy,
            ;
        }

        // Boundary check: leaving the quadrant?
        if nx < 500 || nx >= 8500 || ny < 500 || ny >= 8500 {
            proof {
                assert(nav_stop_from(
                    ga.sector_map.grid@,
                    x0g,
                    y0g,
                    dx as int,
                    dy as int,
                    n as int,
                    step + 1,
                ) == step + 1);
            }
            crossed = true;
            break ;
        }
        sx = nx;
        sy = ny;

        // Collision check: is the next sector occupied?
        let check = SectorPosition { x: ((sx + 500) / 1000) as i32, y: ((sy + 500) / 1000) as i32 };
        if !galaxy.sector_map.is_empty(check) {
            proof {
                assert(check.idx() == milli_cell(sx as int, sy as int));
                assert(nav_stop_from(
                    ga.sector_map.grid@,
                    x0g,
                    y0g,
                    dx as int,
                    dy as int,
                    n as int,
                    step + 1,
                ) == step + 1);
            }
            // Back up one step and halt.
            sx = sx - dx;
            sy = sy - dy;
            let stop = SectorPosition {
                x: ((sx + 500) / 1000) as i32,
                y: ((sy + 500) / 1000) as i32,
            };
            events.push(GameEvent::NavigationBlocked { sector: stop });
            break ;
        }
        proof {
            assert(check.idx() == milli_cell(sx as int, sy as int));
        }
        step = step + 1;
    }

    if crossed {
        // Quadrant boundary crossing.
        let r = calculate_quadrant_crossing(
            old_quadrant.x,
            old_quadrant.y,
            old_sector.x,
            old_sector.y,
            dx,
            dy,
            n,
        );
        galaxy.enterprise.move_to(r.0, r.1);
        let warn = galaxy.enter_quadrant();
        if warn {
            events.push(GameEvent::LowShieldsWarning);
        }
        let qx = r.0.x;
        let qy = r.0.y;
        galaxy.record_quadrant_to_memory(qx, qy);

        // A boundary crossing always advances the stardate.
        galaxy.advance_time(1);
    } else {
        // Intra-quadrant move.
        let land = SectorPosition { x: ((sx + 500) / 1000) as i32, y: ((sy + 500) / 1000) as i32 };
        proof {
            assert(land.idx() == milli_cell(sx as int, sy as int));
            lemma_count_cells_update(
                galaxy.sector_map.grid@,
                land.idx(),
                SectorContent::Enterprise,
                SectorContent::Star,
            );
        }
        galaxy.sector_map.set(land, SectorContent::Enterprise);
        galaxy.enterprise.move_to(old_quadrant, land);
        proof {
            let oldm = g0.sector_map;
            let newm = galaxy.sector_map;
            assert forall|i: int| 0 <= i < newm.klingons@.len() implies (
            #[trigger] newm.klingons@[i]).sector.wf() && newm.grid@[newm.klingons@[i].sector.idx()]
                == SectorContent::Klingon by {
                assert(oldm.grid@[oldm.klingons@[i].sector.idx()] == SectorContent::Klingon);
            }
            assert forall|c: int|
                0 <= c < 64 && newm.grid@[c] == SectorContent::Klingon implies exists|i: int|
                0 <= i < newm.klingons@.len() && (#[trigger] newm.klingons@[i]).sector.idx()
                    == c by {
                assert(oldm.grid@[c] == SectorContent::Klingon);
            }
        }

        // A sub-warp intra-quadrant move advances no time.
        if warp_milli >= 1000 {
            galaxy.advance_time(1);
        }
    }

    // Energy cost of the move: short moves gain energy.
    let cost: i64 = n - 5;
    if cost > 0 {
        galaxy.enterprise.subtract_energy(cost);
    } else {
        galaxy.enterprise.add_energy(0 - cost);
    }

    // Automatic repair of damaged devices.
    auto_repair_devices(galaxy);

    // Random damage or repair event.
    let ev = random_damage_event(galaxy);
    match ev {
        Some(e) => {
            events.push(e);
        },
        None => {},
    }
    true
}

/// Warp engine control: validate the course and warp factor, let any
/// Klingons in the quadrant fire first, refuse the move without energy
/// (or run the stranded contingency when the shields are all but gone),
/// then execute the move.
pub fn navigate(galaxy: &mut Galaxy, course_milli: i64, warp_milli: i64) -> (r: Result<
    (Vec<GameEvent>, NavOutcome),
    GameError,
>)
    requires
        old(galaxy).wf(),
    ensures
        final(galaxy).wf(),
        r == Err::<(Vec<GameEvent>, NavOutcome), GameError>(GameError::InvalidInput) <==> (!(1000
            <= course_milli < 9000) || !(0 <= warp_milli <= 8000)),
        r == Err::<(Vec<GameEvent>, NavOutcome), GameError>(
            GameError::DeviceDamaged(Device::WarpEngines),
        ) <==> (1000 <= course_milli < 9000 && 0 <= warp_milli <= 8000 && old(galaxy).enterprise.spec_is_damaged(Device::WarpEngines) && warp_milli > 200),
        r is Err <==> (!(1000 <= course_milli < 9000) || !(0 <= warp_milli <= 8000) || (old(
            galaxy,
        ).enterprise.spec_is_damaged(Device::WarpEngines) && warp_milli > 200)),
        r is Err ==> *final(galaxy) == *old(galaxy),
        r matches Ok(o) ==> {
            &&& (o.1 == NavOutcome::ShipDestroyed ==> final(galaxy).enterprise.shields < 0)
            &&& (o.1 == NavOutcome::DeadInSpaceSurvived ==> *final(galaxy) == *old(galaxy)
                && old(galaxy).enterprise.shields < 1)
            &&& ((o.1 == NavOutcome::DeadInSpaceSurvived || o.1
                == NavOutcome::DeadInSpaceDestroyed || o.1 == NavOutcome::InsufficientEnergy)
                ==> old(galaxy).enterprise.energy <= 0)
            &&& (old(galaxy).enterprise.energy > 0 ==> (o.1 == NavOutcome::Moved || o.1
                == NavOutcome::ShipDestroyed))
            &&& ((old(galaxy).enterprise.energy <= 0 && old(galaxy).enterprise.shields < 1 && old(galaxy).sector_map.klingons@.len() == 0) ==> o.1 == NavOutcome::DeadInSpaceSurvived)
            &&& (o.1 == NavOutcome::InsufficientEnergy ==> (*final(galaxy) == (Galaxy {
                enterprise: final(galaxy).enterprise,
                rng: final(galaxy).rng,
                ..*old(galaxy)
            }) && final(galaxy).enterprise == (Enterprise {
                shields: final(galaxy).enterprise.shields,
                ..old(galaxy).enterprise
            }) && final(galaxy).enterprise.shields >= 1))
            &&& (o.1 == NavOutcome::Moved ==> {
                let n = (warp_milli * 8) as int / 1000;
                &&& old(galaxy).enterprise.energy > 0
                &&& final(galaxy).enterprise.torpedoes == old(galaxy).enterprise.torpedoes
                &&& final(galaxy).quadrants == old(galaxy).quadrants
                &&& (n == 0 ==> (*final(galaxy) == (Galaxy {
                    enterprise: final(galaxy).enterprise,
                    rng: final(galaxy).rng,
                    ..*old(galaxy)
                }) && final(galaxy).enterprise == (Enterprise {
                    shields: final(galaxy).enterprise.shields,
                    ..old(galaxy).enterprise
                })))
                &&& (n > 5 ==> final(galaxy).enterprise.energy as int == sat_low(
                    old(galaxy).enterprise.energy - (n - 5),
                ))
                &&& (0 < n <= 5 ==> final(galaxy).enterprise.energy as int == sat_high(
                    old(galaxy).enterprise.energy + (5 - n),
                    RESOURCE_LIMIT - final(galaxy).enterprise.shields,
                ))
                &&& (n > 0 && warp_milli >= 1000 ==> final(galaxy).stardate as int == sat_high(
                    old(galaxy).stardate + 1,
                    RESOURCE_LIMIT as int,
                ))
                &&& (final(galaxy).stardate == old(galaxy).stardate || final(galaxy).stardate as int == sat_high(old(galaxy).stardate + 1, RESOURCE_LIMIT as int))
                &&& (n > 0 ==> ({
                    let x0 = old(galaxy).enterprise.sector.x * 1000;
                    let y0 = old(galaxy).enterprise.sector.y * 1000;
                    let d = spec_direction(course_milli as int);
                    let g = old(galaxy).sector_map.grid@.update(
                        old(galaxy).enterprise.sector.idx(),
                        SectorContent::Empty,
                    );
                    &&& (nav_crossed(g, x0, y0, d.0, d.1, n) ==> ({
                        let c = spec_crossing(
                            old(galaxy).enterprise.quadrant.x as int,
                            old(galaxy).enterprise.quadrant.y as int,
                            old(galaxy).enterprise.sector.x as int,
                            old(galaxy).enterprise.sector.y as int,
                            d.0,
                            d.1,
                            n,
                        );
                        &&& final(galaxy).enterprise.quadrant == (QuadrantPosition {
                            x: c.0 as i32,
                            y: c.1 as i32,
                        })
                        &&& final(galaxy).enterprise.sector == (SectorPosition {
                            x: c.2 as i32,
                            y: c.3 as i32,
                        })
                        &&& final(galaxy).stardate as int == sat_high(
                            old(galaxy).stardate + 1,
                            RESOURCE_LIMIT as int,
                        )
                        &&& final(galaxy).computer_memory@ == (if old(
                            galaxy,
                        ).enterprise.spec_is_damaged(Device::Computer) {
                            old(galaxy).computer_memory@
                        } else {
                            old(galaxy).computer_memory@.update(
                                (c.1 - 1) * 8 + (c.0 - 1),
                                Some(old(galaxy).quadrants@[(c.1 - 1) * 8 + (c.0 - 1)]),
                            )
                        })
                    }))
                    &&& (!nav_crossed(g, x0, y0, d.0, d.1, n) ==> ({
                        let ls = nav_land_step(g, x0, y0, d.0, d.1, n);
                        &&& final(galaxy).enterprise.quadrant == old(galaxy).enterprise.quadrant
                        &&& final(galaxy).enterprise.sector == (SectorPosition {
                            x: ((x0 + ls * d.0 + 500) / 1000) as i32,
                            y: ((y0 + ls * d.1 + 500) / 1000) as i32,
                        })
                        &&& final(galaxy).sector_map.grid@ == g.update(
                            milli_cell(x0 + ls * d.0, y0 + ls * d.1),
                            SectorContent::Enterprise,
                        )
                        &&& final(galaxy).computer_memory == old(galaxy).computer_memory
                        &&& (warp_milli < 1000 ==> final(galaxy).stardate == old(galaxy).stardate)
                    }))
                }))
            })
        },
{
    // Course and warp validation.
    if !(1000 <= course_milli && course_milli < 9000) {
        return Err(GameError::InvalidInput);
    }
    if !(0 <= warp_milli && warp_milli <= 8000) {
        return Err(GameError::InvalidInput);
    }

    // Damaged warp engines cap the accepted warp factor at 0.2.
    if galaxy.enterprise.is_damaged(Device::WarpEngines) && warp_milli > 200 {
        return Err(GameError::DeviceDamaged(Device::WarpEngines));
    }

    let mut events: Vec<GameEvent> = Vec::new();

    // If Klingons are present, they fire before the warp move.
    if galaxy.sector_map.klingons.len() > 0 {
        let volley = klingons_fire(galaxy);
        let mut volley_events = volley.0;
        events.append(&mut volley_events);
        if volley.1 {
            return Ok((events, NavOutcome::ShipDestroyed));
        }
    }

    // Zero-energy contingency.
    if galaxy.enterprise.energy <= 0 {
        if galaxy.enterprise.shields < 1 {
            let ds = dead_in_space_loop(galaxy);
            let mut ds_events = ds.0;
            events.append(&mut ds_events);
            if ds.1 {
                return Ok((events, NavOutcome::DeadInSpaceSurvived));
            } else {
                return Ok((events, NavOutcome::DeadInSpaceDestroyed));
            }
        } else {
            return Ok((events, NavOutcome::InsufficientEnergy));
        }
    }

    let _moved = execute_move(galaxy, course_milli, warp_milli, &mut events);
    Ok((events, NavOutcome::Moved))
}

} // verus!
