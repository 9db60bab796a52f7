//! Sensor scans: the short-range view of the current sector grid and the
//! long-range summary of the 3x3 neighborhood of quadrants.

use vstd::prelude::*;

use crate::constants::{Condition, Device};
use crate::events::GameError;
use crate::galaxy::Galaxy;
use crate::position::QuadrantPosition;
use crate::sector_map::row_chars;

verus! {

/// Everything the short-range scan reports besides the numbers already
/// readable from the galaxy: whether the ship just docked, the condition
/// code, and the eight rendered grid rows.
#[derive(Debug)]
pub struct ShortRangeView {
    pub docked: bool,
    pub condition: Condition,
    pub rows: Vec<String>,
}

/// Quadrant `c` (row-major cell index) lies in the 3x3 neighborhood of
/// `q`.
pub open spec fn lrs_neighbor(q: QuadrantPosition, c: int) -> bool {
    let cx = c % 8 + 1;
    let cy = c / 8 + 1;
    &&& 0 <= c < 64
    &&& q.x - 1 <= cx <= q.x + 1
    &&& q.y - 1 <= cy <= q.y + 1
}

/// What the long-range scan reports for the `k`-th cell of the 3x3
/// neighborhood (row-major, `k` in 0..9): the encoded record of the
/// neighbor quadrant, or None outside the galaxy.
pub open spec fn lrs_entry(g: Galaxy, k: int) -> Option<i32> {
    let sx = g.enterprise.quadrant.x + k % 3 - 1;
    let sy = g.enterprise.quadrant.y + k / 3 - 1;
    if 1 <= sx <= 8 && 1 <= sy <= 8 {
        let qd = g.quadrants@[(sy - 1) * 8 + (sx - 1)];
        Some((qd.klingons * 100 + qd.starbases * 10 + qd.stars) as i32)
    } else {
        None
    }
}

/// Long-range sensor scan: report the encoded records of the 3x3
/// neighborhood of quadrants around the ship (None outside the galaxy),
/// and record each visible quadrant into computer memory (when the
/// computer is undamaged).
#[verifier::rlimit(100)]
pub fn long_range_scan(galaxy: &mut Galaxy) -> (r: Result<Vec<Option<i32>>, GameError>)
    requires
        old(galaxy).wf(),
    ensures
        final(galaxy).wf(),
        old(galaxy).enterprise.spec_is_damaged(Device::LongRangeSensors) <==> r == Err::<
            Vec<Option<i32>>,
            GameError,
        >(GameError::DeviceDamaged(Device::LongRangeSensors)),
        r is Err <==> old(galaxy).enterprise.spec_is_damaged(Device::LongRangeSensors),
        r is Err ==> *final(galaxy) == *old(galaxy),
        r matches Ok(cells) ==> {
            &&& cells@.len() == 9
            &&& forall|k: int| 0 <= k < 9 ==> cells@[k] == lrs_entry(*old(galaxy), k)
            &&& *final(galaxy) == (Galaxy {
                computer_memory: final(galaxy).computer_memory,
                ..*old(galaxy)
            })
            &&& forall|c: int|
                0 <= c < 64 && !(lrs_neighbor(old(galaxy).enterprise.quadrant, c) && !old(galaxy).enterprise.spec_is_damaged(Device::Computer)) ==> final(galaxy).computer_memory@[c] == old(galaxy).computer_memory@[c]
            &&& forall|c: int|
                0 <= c < 64 && lrs_neighbor(old(galaxy).enterprise.quadrant, c) && !old(galaxy).enterprise.spec_is_damaged(Device::Computer) ==> final(galaxy).computer_memory@[c] == Some(old(galaxy).quadrants@[c])
        },
{
    if galaxy.enterprise.is_damaged(Device::LongRangeSensors) {
        return Err(GameError::DeviceDamaged(Device::LongRangeSensors));
    }

    let qx = galaxy.enterprise.quadrant.x;
    let qy = galaxy.enterprise.quadrant.y;
    let ghost g0 = *galaxy;
    let mut cells: Vec<Option<i32>> = Vec::new();
    let mut k: usize = 0;
    while k < 9
        invariant
            g0.wf(),
            k <= 9,
            cells@.len() == k,
            qx == g0.enterprise.quadrant.x,
            qy == g0.enterprise.quadrant.y,
            1 <= qx <= 8,
            1 <= qy <= 8,
            forall|j: int| 0 <= j < k ==> cells@[j] == lrs_entry(g0, j),
            *galaxy == (Galaxy { computer_memory: galaxy.computer_memory, ..g0 }),
            galaxy.computer_memory@.len() == 64,
            forall|c: int|
                0 <= c < 64 && !(lrs_neighbor(g0.enterprise.quadrant, c)
                    && !g0.enterprise.spec_is_damaged(Device::Computer) && (c / 8 + 1 - qy + 1) * 3
                    + (c % 8 + 1 - qx + 1) < k) ==> galaxy.computer_memory@[c]
                    == g0.computer_memory@[c],
            forall|c: int|
                0 <= c < 64 && lrs_neighbor(g0.enterprise.quadrant, c)
                    && !g0.enterprise.spec_is_damaged(Device::Computer) && (c / 8 + 1 - qy + 1) * 3
                    + (c % 8 + 1 - qx + 1) < k ==> galaxy.computer_memory@[c] == Some(
                    g0.quadrants@[c],
                ),
        decreases 9 - k,
    {
        let dx: i32 = (k % 3) as i32 - 1;
        let dy: i32 = (k / 3) as i32 - 1;
        let scan_x = qx + dx;
        let scan_y = qy + dy;
        if scan_x >= 1 && scan_x <= 8 && scan_y >= 1 && scan_y <= 8 {
            let i = ((scan_y - 1) * 8 + (scan_x - 1)) as usize;
            proof {
                assert((i as int) % 8 == scan_x - 1 && (i as int) / 8 == scan_y - 1)
                    by (nonlinear_arith)
                    requires
                        i as int == (scan_y - 1) * 8 + (scan_x - 1),
                        1 <= scan_x <= 8,
                        1 <= scan_y <= 8,
                ;
            }
            let qd = galaxy.quadrants[i];
            cells.push(Some(qd.encoded()));
            galaxy.record_quadrant_to_memory(scan_x, scan_y);
        } else {
            cells.push(None);
        }
        k = k + 1;
    }
    Ok(cells)
}

/// Short-range sensor scan: dock first if a starbase is adjacent, then
/// evaluate the condition code, and render the eight rows of the sector
/// grid.  With damaged short-range sensors the scan fails — but the
/// docking check has already been applied, as the ship pulls alongside
/// the base either way.
pub fn short_range_scan(galaxy: &mut Galaxy) -> (r: Result<ShortRangeView, GameError>)
    requires
        old(galaxy).wf(),
    ensures
        final(galaxy).wf(),
        final(galaxy).enterprise == if old(galaxy).enterprise.spec_adjacent_to_starbase(
            old(galaxy).sector_map.starbase,
        ) {
            crate::enterprise::Enterprise {
                energy: crate::constants::INITIAL_ENERGY,
                torpedoes: crate::constants::INITIAL_TORPEDOES,
                shields: crate::constants::INITIAL_SHIELDS,
                ..old(galaxy).enterprise
            }
        } else {
            old(galaxy).enterprise
        },
        *final(galaxy) == (Galaxy { enterprise: final(galaxy).enterprise, ..*old(galaxy) }),
        r is Err <==> old(galaxy).enterprise.spec_is_damaged(Device::ShortRangeSensors),
        r matches Ok(v) ==> {
            &&& v.docked == old(galaxy).enterprise.spec_adjacent_to_starbase(
                old(galaxy).sector_map.starbase,
            )
            &&& v.condition == final(galaxy).spec_condition()
            &&& v.rows@.len() == 8
            &&& forall|y: int|
                0 <= y < 8 ==> (#[trigger] v.rows@[y])@ == row_chars(
                    final(galaxy).sector_map.grid@,
                    y + 1,
                )
        },
{
    let docked = galaxy.check_docking();
    let condition = galaxy.evaluate_condition();

    if galaxy.enterprise.is_damaged(Device::ShortRangeSensors) {
        return Err(GameError::DeviceDamaged(Device::ShortRangeSensors));
    }

    let mut rows: Vec<String> = Vec::new();
    let mut y: i32 = 1;
    while y <= 8
        invariant
            1 <= y <= 9,
            galaxy.sector_map.grid@.len() == 64,
            rows@.len() == y - 1,
            forall|j: int|
                0 <= j < y - 1 ==> (#[trigger] rows@[j])@ == row_chars(
                    galaxy.sector_map.grid@,
                    j + 1,
                ),
        decreases 9 - y,
    {
        let row = galaxy.sector_map.render_row(y);
        rows.push(row);
        y = y + 1;
    }
    Ok(ShortRangeView { docked, condition, rows })
}

} // verus!
