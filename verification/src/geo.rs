//! Tile geometry shared by every system: squared distances, the nearest
//! of a list of points, the centre of a base rectangle, and the populated
//! heart of the map.

use vstd::prelude::*;

verus! {

/// A tile coordinate on the map.
#[derive(Clone, Copy, PartialEq, Eq, Debug, Structural)]
pub struct Tile {
    pub x: i64,
    pub y: i64,
}

/// The squared distance between two tiles, as a mathematical integer.
pub open spec fn spec_dist_sq(a: Tile, b: Tile) -> int {
    (a.x - b.x) * (a.x - b.x) + (a.y - b.y) * (a.y - b.y)
}

/// The squared distance between two tiles fits the game's 64-bit
/// arithmetic (the machine limit of every distance the mod computes).
pub open spec fn dist_fits(a: Tile, b: Tile) -> bool {
    spec_dist_sq(a, b) <= i64::MAX
}

proof fn lemma_squares_bound(d: int, e: int)
    requires
        d * d + e * e <= i64::MAX,
    ensures
        -0x1_0000_0000 < d < 0x1_0000_0000,
        -0x1_0000_0000 < e < 0x1_0000_0000,
        0 <= d * d <= i64::MAX,
        0 <= e * e <= i64::MAX,
{
    assert(0 <= d * d && 0 <= e * e) by (nonlinear_arith);
    assert(-0x1_0000_0000 < d < 0x1_0000_0000) by (nonlinear_arith)
        requires
            d * d <= i64::MAX,
    ;
    assert(-0x1_0000_0000 < e < 0x1_0000_0000) by (nonlinear_arith)
        requires
            e * e <= i64::MAX,
    ;
}

/// The squared tile distance between `a` and `b`.
pub fn dist_sq(a: Tile, b: Tile) -> (d: i64)
    requires
        dist_fits(a, b),
    ensures
        d == spec_dist_sq(a, b),
        d >= 0,
{
    proof {
        lemma_squares_bound(a.x - b.x, a.y - b.y);
    }
    let dx = a.x - b.x;
    let dy = a.y - b.y;
    dx * dx + dy * dy
}

/// Every point's distance to `from` fits 64-bit arithmetic.
pub open spec fn all_fit(points: Seq<Tile>, from: Tile) -> bool {
    forall|i: int| 0 <= i < points.len() ==> dist_fits(#[trigger] points[i], from)
}

/// `i` is the first of the points nearest to `from`.
pub open spec fn is_first_nearest(points: Seq<Tile>, from: Tile, i: int) -> bool {
    &&& 0 <= i < points.len()
    &&& forall|j: int|
        0 <= j < points.len() ==> spec_dist_sq(points[i], from) <= spec_dist_sq(
            #[trigger] points[j],
            from,
        )
    &&& forall|j: int|
        0 <= j < i ==> spec_dist_sq(points[i], from) < spec_dist_sq(#[trigger] points[j], from)
}

/// The index of the first point nearest to `from`; `None` for no points.
pub fn nearest_index(points: &Vec<Tile>, from: Tile) -> (r: Option<usize>)
    requires
        all_fit(points@, from),
    ensures
        points@.len() == 0 <==> r is None,
        r matches Some(i) ==> is_first_nearest(points@, from, i as int),
{
    if points.len() == 0 {
        return None;
    }
    let mut best: usize = 0;
    let mut best_d: i64 = dist_sq(points[0], from);
    let mut k: usize = 1;
    while k < points.len()
        invariant
            all_fit(points@, from),
            1 <= k <= points.len(),
            best < k,
            best_d == spec_dist_sq(points@[best as int], from),
            forall|j: int| 0 <= j < k ==> best_d <= spec_dist_sq(#[trigger] points@[j], from),
            forall|j: int| 0 <= j < best ==> best_d < spec_dist_sq(#[trigger] points@[j], from),
        decreases points.len() - k,
    {
        let d = dist_sq(points[k], from);
        if d < best_d {
            best = k;
            best_d = d;
        }
        k = k + 1;
    }
    Some(best)
}

/// Whether two tiles lie within squared distance `limit` of each other,
/// for any tiles (no bound on their coordinates).
pub fn within(a: Tile, b: Tile, limit: i64) -> (r: bool)
    requires
        limit >= 0,
    ensures
        r == (spec_dist_sq(a, b) <= limit),
{
    let dx: i128 = a.x as i128 - b.x as i128;
    let dy: i128 = a.y as i128 - b.y as i128;
    let ax: i128 = if dx < 0 { -dx } else { dx };
    let ay: i128 = if dy < 0 { -dy } else { dy };
    let l: i128 = limit as i128;
    proof {
        assert(dx * dx == ax * ax) by (nonlinear_arith)
            requires
                ax == dx || ax == -dx,
        ;
        assert(dy * dy == ay * ay) by (nonlinear_arith)
            requires
                ay == dy || ay == -dy,
        ;
        assert(0 <= dx * dx && 0 <= dy * dy) by (nonlinear_arith);
    }
    if ax > l || ay > l {
        proof {
            if ax > l {
                assert(ax * ax > l) by (nonlinear_arith)
                    requires
                        ax > l,
                        l >= 0,
                ;
            } else {
                assert(ay * ay > l) by (nonlinear_arith)
                    requires
                        ay > l,
                        l >= 0,
                ;
            }
        }
        return false;
    }
    proof {
        assert(ax * ax <= l * l) by (nonlinear_arith)
            requires
                0 <= ax <= l,
        ;
        assert(ay * ay <= l * l) by (nonlinear_arith)
            requires
                0 <= ay <= l,
        ;
        assert(l * l <= 0x7fff_ffff_ffff_ffff * 0x7fff_ffff_ffff_ffff) by (nonlinear_arith)
            requires
                0 <= l <= 0x7fff_ffff_ffff_ffff,
        ;
    }
    let d: i128 = ax * ax + ay * ay;
    d <= l
}

/// The centre of a base rectangle: the midpoint of its corners, rounded
/// toward zero on each axis.
pub open spec fn spec_centre(min: Tile, max: Tile) -> Tile {
    Tile { x: trunc_half(min.x + max.x), y: trunc_half(min.y + max.y) }
}

/// Half of `v`, rounded toward zero (Rust's integer division by two).
pub open spec fn trunc_half(v: int) -> i64 {
    if v >= 0 {
        (v / 2) as i64
    } else {
        (-((-v) / 2)) as i64
    }
}

/// The corner sums of a rectangle fit 64-bit arithmetic.
pub open spec fn centre_fits(min: Tile, max: Tile) -> bool {
    i64::MIN <= min.x + max.x <= i64::MAX && i64::MIN <= min.y + max.y <= i64::MAX
}

fn half_toward_zero(v: i64) -> (h: i64)
    ensures
        h == trunc_half(v as int),
{
    if v >= 0 {
        v / 2
    } else {
        // -v = p + 1 with p >= 0; (p + 1) / 2 == p / 2 + p % 2.
        let p: i64 = -(v + 1);
        let q: i64 = p / 2 + p % 2;
        assert(q == (p + 1) / 2);
        -q
    }
}

/// The centre of a base rectangle given its two corners.
pub fn base_centre(min: Tile, max: Tile) -> (c: Tile)
    requires
        centre_fits(min, max),
    ensures
        c == spec_centre(min, max),
{
    Tile { x: half_toward_zero(min.x + max.x), y: half_toward_zero(min.y + max.y) }
}

/// The floor of the square root of `v`.
pub open spec fn is_isqrt(v: int, r: int) -> bool {
    0 <= r && r * r <= v < (r + 1) * (r + 1)
}

/// The whole-tile length of a squared distance: the floor of its square
/// root.
pub fn isqrt(v: i64) -> (r: i64)
    requires
        v >= 0,
    ensures
        is_isqrt(v as int, r as int),
{
    // Binary search on [lo, hi): lo*lo <= v < hi*hi.
    let mut lo: i64 = 0;
    let mut hi: i64 = 3_037_000_500;
    assert(hi * hi > i64::MAX) by (nonlinear_arith)
        requires
            hi == 3_037_000_500,
    ;
    while hi - lo > 1
        invariant
            0 <= lo < hi <= 3_037_000_500,
            lo * lo <= v,
            v < hi * hi,
        decreases hi - lo,
    {
        let mid: i64 = lo + (hi - lo) / 2;
        assert(mid * mid <= 3_037_000_499 * 3_037_000_499) by (nonlinear_arith)
            requires
                0 <= mid <= 3_037_000_499,
        ;
        if mid * mid <= v {
            lo = mid;
        } else {
            hi = mid;
        }
    }
    assert(hi == lo + 1);
    lo
}

} // verus!
