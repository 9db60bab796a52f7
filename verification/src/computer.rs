//! Library-computer calculations: the ratio-based direction reading and
//! the distance between two sector coordinates.

use vstd::prelude::*;

use crate::geometry::{is_sqrt_floor, isqrt};
use crate::position::SectorPosition;

verus! {

/// The course reading toward a displacement (dx, dy), in milli-units of
/// the 1.0..9.0 course circle, by the legacy ratio interpolation: each
/// octant adds the ratio of the two displacement magnitudes (floored at
/// milli precision) to the octant's base heading.  `dy` grows upward,
/// so the caller inverts the screen-coordinate difference.
pub open spec fn spec_course_reading(dx: int, dy: int) -> int {
    let ax = if dx < 0 {
        -dx
    } else {
        dx
    };
    let ay = if dy < 0 {
        -dy
    } else {
        dy
    };
    if dx >= 0 && dy >= 0 {
        if ay <= ax {
            1000 + ay * 1000 / ax
        } else {
            1000 + (2 * ay - ax) * 1000 / ay
        }
    } else if dx < 0 && dy > 0 {
        if ay >= ax {
            3000 + ax * 1000 / ay
        } else {
            3000 + (2 * ax - ay) * 1000 / ax
        }
    } else if dx >= 0 && dy < 0 {
        if ay >= ax {
            7000 + ax * 1000 / ay
        } else {
            7000 + (2 * ax - ay) * 1000 / ax
        }
    } else {
        if ay <= ax {
            5000 + ay * 1000 / ax
        } else {
            5000 + (2 * ay - ax) * 1000 / ay
        }
    }
}

/// Direction and distance from `source` to `target`, in milli-units:
/// the ratio-based course reading, and the floor of 1000 times the
/// Euclidean distance.
pub fn calculate_direction_and_distance(source: SectorPosition, target: SectorPosition) -> (r: (
    i64,
    i64,
))
    requires
        -100000 <= source.x <= 100000,
        -100000 <= source.y <= 100000,
        -100000 <= target.x <= 100000,
        -100000 <= target.y <= 100000,
        !(target.x == source.x && target.y == source.y),
    ensures
        r.0 as int == spec_course_reading(
            target.x - source.x,
            source.y - target.y,
        ),
        is_sqrt_floor(
            1000000 * ((target.x - source.x) * (target.x - source.x) + (source.y - target.y) * (
            source.y - target.y)),
            r.1 as int,
        ),
{
    let dx: i64 = (target.x as i64) - (source.x as i64);
    // The vertical axis is inverted: course 3 points up the screen.
    let dy: i64 = (source.y as i64) - (target.y as i64);
    let ax: i64 = if dx < 0 {
        -dx
    } else {
        dx
    };
    let ay: i64 = if dy < 0 {
        -dy
    } else {
        dy
    };

    let direction: i64 = if dx >= 0 && dy >= 0 {
        if ay <= ax {
            1000 + ay * 1000 / ax
        } else {
            1000 + (2 * ay - ax) * 1000 / ay
        }
    } else if dx < 0 && dy > 0 {
        if ay >= ax {
            3000 + ax * 1000 / ay
        } else {
            3000 + (2 * ax - ay) * 1000 / ax
        }
    } else if dx >= 0 && dy < 0 {
        if ay >= ax {
            7000 + ax * 1000 / ay
        } else {
            7000 + (2 * ax - ay) * 1000 / ax
        }
    } else {
        if ay <= ax {
            5000 + ay * 1000 / ax
        } else {
            5000 + (2 * ay - ax) * 1000 / ay
        }
    };

    proof {
        assert(0 <= dx * dx <= 40000000000 && 0 <= dy * dy <= 40000000000) by (nonlinear_arith)
            requires
                -200000 <= dx <= 200000,
                -200000 <= dy <= 200000,
        ;
    }
    let dsq: i64 = dx * dx + dy * dy;
    let n: u64 = (1000000 * dsq) as u64;
    let dist_root = isqrt(n);
    proof {
        crate::geometry::lemma_sqrt_floor_bounds(n as int, dist_root as int, 0, 300000001);
        assert((300000001int) * (300000001int) > n as int) by (nonlinear_arith)
            requires
                n <= 80000000000000000u64,
        ;
    }
    let distance = dist_root as i64;

    (direction, distance)
}

/// The warp units between two coordinates: the larger of the two
/// absolute coordinate differences, the number of unit steps a move
/// between them needs.
pub fn warp_units(source: SectorPosition, target: SectorPosition) -> (r: i32)
    requires
        -100000 <= source.x <= 100000,
        -100000 <= source.y <= 100000,
        -100000 <= target.x <= 100000,
        -100000 <= target.y <= 100000,
    ensures
        r == ({
            let ax = if target.x - source.x < 0 {
                source.x - target.x
            } else {
                target.x - source.x
            };
            let ay = if target.y - source.y < 0 {
                source.y - target.y
            } else {
                target.y - source.y
            };
            if ax >= ay {
                ax
            } else {
                ay
            }
        }),
{
    let dx = target.x - source.x;
    let dy = target.y - source.y;
    let ax = if dx < 0 {
        -dx
    } else {
        dx
    };
    let ay = if dy < 0 {
        -dy
    } else {
        dy
    };
    if ax >= ay {
        ax
    } else {
        ay
    }
}

} // verus!
