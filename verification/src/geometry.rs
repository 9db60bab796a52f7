//! Integer geometry of the sector grid: squared distances, the integer
//! square root used for milli-unit distances, and the metric laws
//! (symmetry, non-negativity, triangle inequality) of the Euclidean sector
//! distance.

use vstd::prelude::*;

use crate::position::SectorPosition;

verus! {

/// Squared Euclidean distance between two sector positions.
pub open spec fn sq_dist(a: SectorPosition, b: SectorPosition) -> int {
    (b.x - a.x) * (b.x - a.x) + (b.y - a.y) * (b.y - a.y)
}

/// `r` is the floor of the square root of `n`.
pub open spec fn is_sqrt_floor(n: int, r: int) -> bool {
    0 <= r && r * r <= n && n < (r + 1) * (r + 1)
}

/// The floor of a square root is unique.
pub proof fn lemma_sqrt_floor_unique(n: int, r1: int, r2: int)
    requires
        is_sqrt_floor(n, r1),
        is_sqrt_floor(n, r2),
    ensures
        r1 == r2,
{
    assert(r1 == r2) by (nonlinear_arith)
        requires
            0 <= r1 && r1 * r1 <= n && n < (r1 + 1) * (r1 + 1),
            0 <= r2 && r2 * r2 <= n && n < (r2 + 1) * (r2 + 1),
    ;
}

/// The floor square root is monotone in its bounds: a square below `n`
/// bounds it from below, a square above bounds it strictly from above.
pub proof fn lemma_sqrt_floor_bounds(n: int, r: int, lo: int, hi: int)
    requires
        is_sqrt_floor(n, r),
        0 <= lo,
        0 < hi,
        lo * lo <= n,
        n < hi * hi,
    ensures
        lo <= r < hi,
{
    assert(lo <= r < hi) by (nonlinear_arith)
        requires
            0 <= r && r * r <= n && n < (r + 1) * (r + 1),
            0 <= lo,
            0 < hi,
            lo * lo <= n,
            n < hi * hi,
    ;
}

/// Squared distance is non-negative, and zero exactly between equal
/// positions.
pub proof fn lemma_sq_dist_nonneg(a: SectorPosition, b: SectorPosition)
    ensures
        sq_dist(a, b) >= 0,
        sq_dist(a, b) == 0 <==> a == b,
{
    let dx = b.x - a.x;
    let dy = b.y - a.y;
    assert(dx * dx >= 0 && dy * dy >= 0 && (dx * dx == 0 <==> dx == 0) && (dy * dy == 0 <==> dy
        == 0)) by (nonlinear_arith);
}

/// The sector distance is symmetric: both orders give the same squared
/// distance, hence the same rounded distance.
pub proof fn lemma_sq_dist_symmetric(a: SectorPosition, b: SectorPosition)
    ensures
        sq_dist(a, b) == sq_dist(b, a),
{
    assert((b.x - a.x) * (b.x - a.x) == (a.x - b.x) * (a.x - b.x)) by (nonlinear_arith);
    assert((b.y - a.y) * (b.y - a.y) == (a.y - b.y) * (a.y - b.y)) by (nonlinear_arith);
}

/// Symmetry carried to the rounded milli-unit distance: any value that is
/// the floored scaled distance one way is also the other way's.
pub proof fn lemma_distance_symmetric(a: SectorPosition, b: SectorPosition, r1: int, r2: int)
    requires
        is_sqrt_floor(1000000 * sq_dist(a, b), r1),
        is_sqrt_floor(1000000 * sq_dist(b, a), r2),
    ensures
        r1 == r2,
{
    lemma_sq_dist_symmetric(a, b);
    lemma_sqrt_floor_unique(1000000 * sq_dist(a, b), r1, r2);
}

/// Cauchy-Schwarz inequality for two-dimensional integer vectors, by
/// Lagrange's identity.
proof fn lemma_cauchy_schwarz(u1: int, u2: int, v1: int, v2: int)
    ensures
        (u1 * v1 + u2 * v2) * (u1 * v1 + u2 * v2) <= (u1 * u1 + u2 * u2) * (v1 * v1 + v2 * v2),
{
    let p1 = u1 * v1;
    let p2 = u2 * v2;
    let q1 = u1 * v2;
    let q2 = u2 * v1;
    assert(p1 * p1 == (u1 * u1) * (v1 * v1)) by (nonlinear_arith)
        requires
            p1 == u1 * v1,
    ;
    assert(p2 * p2 == (u2 * u2) * (v2 * v2)) by (nonlinear_arith)
        requires
            p2 == u2 * v2,
    ;
    assert(q1 * q1 == (u1 * u1) * (v2 * v2)) by (nonlinear_arith)
        requires
            q1 == u1 * v2,
    ;
    assert(q2 * q2 == (u2 * u2) * (v1 * v1)) by (nonlinear_arith)
        requires
            q2 == u2 * v1,
    ;
    assert(p1 * p2 == q1 * q2) by (nonlinear_arith)
        requires
            p1 == u1 * v1 && p2 == u2 * v2 && q1 == u1 * v2 && q2 == u2 * v1,
    ;
    assert((p1 + p2) * (p1 + p2) == p1 * p1 + 2 * (p1 * p2) + p2 * p2) by (nonlinear_arith);
    assert((q1 - q2) * (q1 - q2) == q1 * q1 - 2 * (q1 * q2) + q2 * q2) by (nonlinear_arith);
    assert((q1 - q2) * (q1 - q2) >= 0) by (nonlinear_arith);
    assert((u1 * u1 + u2 * u2) * (v1 * v1 + v2 * v2) == (u1 * u1) * (v1 * v1) + (u1 * u1) * (v2
        * v2) + (u2 * u2) * (v1 * v1) + (u2 * u2) * (v2 * v2)) by (nonlinear_arith);
}

/// Triangle inequality of the Euclidean sector distance, in its exact
/// integer form: with A, B, C the squared distances along the sides,
/// `sqrt(A) <= sqrt(B) + sqrt(C)` holds, which for integers is equivalent
/// to `A - B - C <= 0` or `(A - B - C)^2 <= 4*B*C`.
#[verifier::rlimit(100)]
pub proof fn lemma_sq_dist_triangle(a: SectorPosition, b: SectorPosition, c: SectorPosition)
    ensures
        sq_dist(a, c) - sq_dist(a, b) - sq_dist(b, c) > 0 ==> (sq_dist(a, c) - sq_dist(a, b)
            - sq_dist(b, c)) * (sq_dist(a, c) - sq_dist(a, b) - sq_dist(b, c)) <= 4 * sq_dist(
            a,
            b,
        ) * sq_dist(b, c),
{
    let ux = b.x - a.x;
    let uy = b.y - a.y;
    let vx = c.x - b.x;
    let vy = c.y - b.y;
    let bb = sq_dist(a, b);
    let cc = sq_dist(b, c);
    let aa = sq_dist(a, c);
    assert(aa == bb + cc + 2 * (ux * vx + uy * vy)) by (nonlinear_arith)
        requires
            ux == b.x - a.x && uy == b.y - a.y && vx == c.x - b.x && vy == c.y - b.y,
            bb == ux * ux + uy * uy,
            cc == vx * vx + vy * vy,
            aa == (c.x - a.x) * (c.x - a.x) + (c.y - a.y) * (c.y - a.y),
    ;
    lemma_cauchy_schwarz(ux, uy, vx, vy);
    assert(aa - bb - cc > 0 ==> (aa - bb - cc) * (aa - bb - cc) <= 4 * bb * cc)
        by (nonlinear_arith)
        requires
            aa == bb + cc + 2 * (ux * vx + uy * vy),
            (ux * vx + uy * vy) * (ux * vx + uy * vy) <= bb * cc,
    ;
}

/// Triangle inequality carried to the rounded milli-unit distances: the
/// rounded distance along one side exceeds the sum of the other two
/// rounded distances by at most one milli-unit (the rounding slack).
pub proof fn lemma_distance_triangle_rounded(
    a: SectorPosition,
    b: SectorPosition,
    c: SectorPosition,
    ra: int,
    rb: int,
    rc: int,
)
    requires
        is_sqrt_floor(1000000 * sq_dist(a, c), ra),
        is_sqrt_floor(1000000 * sq_dist(a, b), rb),
        is_sqrt_floor(1000000 * sq_dist(b, c), rc),
    ensures
        ra <= rb + rc + 1,
{
    let m: int = 1000000;
    let aa = m * sq_dist(a, c);
    let bb = m * sq_dist(a, b);
    let cc = m * sq_dist(b, c);
    lemma_sq_dist_triangle(a, b, c);
    lemma_sq_dist_nonneg(a, b);
    lemma_sq_dist_nonneg(b, c);
    lemma_sq_dist_nonneg(a, c);
    // The exact triangle form scales by m^2.
    assert(aa - bb - cc > 0 ==> (aa - bb - cc) * (aa - bb - cc) <= 4 * bb * cc)
        by (nonlinear_arith)
        requires
            aa == m * sq_dist(a, c) && bb == m * sq_dist(a, b) && cc == m * sq_dist(b, c),
            m == 1000000,
            sq_dist(a, c) - sq_dist(a, b) - sq_dist(b, c) > 0 ==> (sq_dist(a, c) - sq_dist(a, b)
                - sq_dist(b, c)) * (sq_dist(a, c) - sq_dist(a, b) - sq_dist(b, c)) <= 4 * sq_dist(
                a,
                b,
            ) * sq_dist(b, c),
    ;
    if ra > rb + rc + 1 {
        // Then aa >= ra^2 >= (rb + rc + 2)^2, while the triangle form puts
        // aa strictly below ((rb + 1) + (rc + 1))^2.
        assert(false) by (nonlinear_arith)
            requires
                0 <= ra && ra * ra <= aa,
                0 <= rb && bb < (rb + 1) * (rb + 1),
                0 <= rc && cc < (rc + 1) * (rc + 1),
                bb >= 0 && cc >= 0,
                ra > rb + rc + 1,
                aa - bb - cc > 0 ==> (aa - bb - cc) * (aa - bb - cc) <= 4 * bb * cc,
        ;
    }
}

/// Integer square root: the floor of the square root of `n`, found by
/// binary search.
pub fn isqrt(n: u64) -> (r: u64)
    ensures
        is_sqrt_floor(n as int, r as int),
{
    let mut lo: u64 = 0;
    let mut hi: u64 = 0x1_0000_0000;
    proof {
        assert((0x1_0000_0000int) * (0x1_0000_0000int) > n as int) by (nonlinear_arith)
            requires
                n <= u64::MAX,
        ;
    }
    while lo + 1 < hi
        invariant
            lo < hi <= 0x1_0000_0000,
            (lo as int) * (lo as int) <= n as int,
            (n as int) < (hi as int) * (hi as int),
        decreases hi - lo,
    {
        let mid = lo + (hi - lo) / 2;
        proof {
            assert((mid as int) * (mid as int) <= (0xffff_ffffint) * (0xffff_ffffint))
                by (nonlinear_arith)
                requires
                    mid <= 0xffff_ffffu64,
            ;
        }
        if mid * mid <= n {
            lo = mid;
        } else {
            hi = mid;
        }
    }
    lo
}

} // verus!
