//! Fixed-point plane geometry for the simulation. Positions are integer
//! milli-units (thousandths of a world unit), so every trajectory, radius and
//! tolerance the rules speak of is exact integer arithmetic.

use vstd::arithmetic::div_mod::{lemma_div_is_ordered, lemma_div_multiples_vanish};
use vstd::arithmetic::mul::lemma_mul_inequality;
use vstd::prelude::*;

verus! {

/// Every position the simulation handles stays within this many milli-units
/// of the origin on each axis (a million world units: far beyond the play
/// field and its spawn margins).
pub const COORD_BOUND: i64 = 1_000_000_000;

/// Radii passed to overlap tests stay below this many milli-units.
pub const RADIUS_BOUND: u64 = 2_000_000_000;

/// A point or displacement of the play field, in milli-units.
#[derive(Clone, Copy, Debug, PartialEq, Eq, Structural)]
pub struct Vec2i {
    pub x: i64,
    pub y: i64,
}

impl Vec2i {
    pub open spec fn in_bounds(self) -> bool {
        &&& -COORD_BOUND <= self.x <= COORD_BOUND
        &&& -COORD_BOUND <= self.y <= COORD_BOUND
    }

    pub open spec fn origin_spec() -> Vec2i {
        Vec2i { x: 0, y: 0 }
    }

    pub fn origin() -> (v: Vec2i)
        ensures
            v == Vec2i::origin_spec(),
            v.in_bounds(),
    {
        Vec2i { x: 0, y: 0 }
    }

    /// Squared distance to `other`, as unbounded arithmetic.
    pub open spec fn dist_sq(self, other: Vec2i) -> int {
        (self.x - other.x) * (self.x - other.x) + (self.y - other.y) * (self.y - other.y)
    }

    /// Squared length, as unbounded arithmetic.
    pub open spec fn len_sq(self) -> int {
        self.x * self.x + self.y * self.y
    }
}

/// The floor of the square root of a non-negative number: the unique
/// integer whose square and successor-square bracket it.
pub open spec fn sqrt_floor(n: int) -> int {
    choose|r: int| 0 <= r && #[trigger] (r * r) <= n && n < (r + 1) * (r + 1)
}

/// `sqrt_floor` is pinned: any integer whose square brackets `n` is it.
pub proof fn lemma_sqrt_floor_unique(n: int, r: int)
    requires
        0 <= r,
        r * r <= n,
        n < (r + 1) * (r + 1),
    ensures
        r == sqrt_floor(n),
{
    assert(exists|q: int| 0 <= q && #[trigger] (q * q) <= n && n < (q + 1) * (q + 1)) by {
        assert(0 <= r && r * r <= n && n < (r + 1) * (r + 1));
    }
    let s = sqrt_floor(n);
    assert(0 <= s && s * s <= n && n < (s + 1) * (s + 1));
    assert(s == r) by (nonlinear_arith)
        requires
            0 <= r,
            r * r <= n,
            n < (r + 1) * (r + 1),
            0 <= s,
            s * s <= n,
            n < (s + 1) * (s + 1),
    ;
}

/// Magnitude of a coordinate as an unsigned value.
pub fn abs_mag(x: i64) -> (r: u64)
    requires
        x != i64::MIN,
    ensures
        r == if x >= 0 { x as int } else { -(x as int) },
{
    if x >= 0 {
        x as u64
    } else {
        (-x) as u64
    }
}

/// Floor of the square root: the unique `r` with `r * r <= n < (r + 1) * (r + 1)`.
pub fn isqrt(n: u64) -> (r: u64)
    requires
        n <= 4_000_000_000_000_000_000,
    ensures
        r * r <= n,
        n < (r + 1) * (r + 1),
        r <= 2_000_000_000,
{
    let mut lo: u64 = 0;
    let mut hi: u64 = 2_000_000_001;
    proof {
        assert(2_000_000_001 * 2_000_000_001 > 4_000_000_000_000_000_000int)
            by (nonlinear_arith);
    }
    while lo + 1 < hi
        invariant
            lo < hi,
            hi <= 2_000_000_001,
            lo * lo <= n,
            n < hi * hi,
        decreases hi - lo,
    {
        let mid = lo + (hi - lo) / 2;
        proof {
            assert(mid * mid <= 4_000_000_004_000_000_001) by (nonlinear_arith)
                requires
                    mid <= 2_000_000_001,
            ;
        }
        if mid * mid <= n {
            lo = mid;
        } else {
            hi = mid;
        }
    }
    lo
}

/// Length of a vector, rounded down to whole milli-units.
pub fn norm(v: Vec2i) -> (r: u64)
    requires
        v.in_bounds(),
    ensures
        r == sqrt_floor(v.len_sq()),
        r * r <= v.len_sq() < (r + 1) * (r + 1),
        r <= 2_000_000_000,
        (r == 0) == (v == Vec2i::origin_spec()),
{
    let ax = abs_mag(v.x);
    let ay = abs_mag(v.y);
    proof {
        assert(ax * ax == v.x * v.x && ay * ay == v.y * v.y
            && ax * ax <= 1_000_000_000_000_000_000
            && ay * ay <= 1_000_000_000_000_000_000
            && (v.x != 0 ==> ax * ax >= 1)
            && (v.y != 0 ==> ay * ay >= 1)) by (nonlinear_arith)
            requires
                ax == (if v.x >= 0 { v.x as int } else { -(v.x as int) }),
                ay == (if v.y >= 0 { v.y as int } else { -(v.y as int) }),
                -COORD_BOUND <= v.x <= COORD_BOUND,
                -COORD_BOUND <= v.y <= COORD_BOUND,
        ;
    }
    let xx = ax * ax;
    let yy = ay * ay;
    let r = isqrt(xx + yy);
    proof {
        lemma_sqrt_floor_unique(v.len_sq(), r as int);
        if v == Vec2i::origin_spec() {
            assert(r == 0) by (nonlinear_arith)
                requires
                    r * r <= 0,
            ;
        }
        if r == 0 {
            assert(xx + yy < (r + 1) * (r + 1));
            assert((r + 1) * (r + 1) == 1) by (nonlinear_arith)
                requires
                    r == 0,
            ;
            assert(xx == 0 && yy == 0);
            assert(v.x == 0 && v.y == 0);
            assert(v == (Vec2i { x: 0i64, y: 0i64 }));
        }
    }
    r
}

/// `coord` scaled by the fraction `num / den`, rounded toward zero. This is
/// the exact component arithmetic of a point `num` milli-units along a
/// straight segment of length `den` whose far end has this coordinate.
pub open spec fn scaled_spec(coord: int, num: int, den: int) -> int {
    if coord >= 0 {
        (coord * num) / den
    } else {
        -((-coord * num) / den)
    }
}

/// Scale a coordinate by `num / den` (rounding toward zero). The result
/// never grows past the coordinate, and the full fraction returns it
/// exactly.
pub fn scaled(coord: i64, num: u64, den: u64) -> (r: i64)
    requires
        0 < den <= RADIUS_BOUND,
        num <= den,
        -COORD_BOUND <= coord <= COORD_BOUND,
    ensures
        r == scaled_spec(coord as int, num as int, den as int),
        if coord >= 0 {
            0 <= r <= coord
        } else {
            coord <= r <= 0
        },
        num == den ==> r == coord,
{
    let mag: u64 = abs_mag(coord);
    proof {
        assert(mag * num <= 2_000_000_000_000_000_000) by (nonlinear_arith)
            requires
                mag <= 1_000_000_000,
                num <= 2_000_000_000,
        ;
        lemma_mul_inequality(num as int, den as int, mag as int);
        lemma_div_is_ordered(mag as int * num as int, mag as int * den as int, den as int);
        lemma_div_multiples_vanish(mag as int, den as int);
        assert(mag as int * den as int == den as int * mag as int) by (nonlinear_arith);
        assert(num as int * mag as int == mag as int * num as int) by (nonlinear_arith);
        if num == den {
            assert((mag as int * num as int) / (den as int) == mag as int);
        }
    }
    let s: u64 = mag * num / den;
    if coord >= 0 {
        s as i64
    } else {
        -(s as i64)
    }
}

/// True iff both coordinates of `p` lie within `tol` of `q`'s: the
/// axis-aligned closeness test the missile uses at its target.
pub fn within_box(p: Vec2i, q: Vec2i, tol: i64) -> (r: bool)
    requires
        p.in_bounds(),
        q.in_bounds(),
        tol >= 0,
    ensures
        r == (-tol <= p.x - q.x <= tol && -tol <= p.y - q.y <= tol),
{
    let dx = p.x - q.x;
    let dy = p.y - q.y;
    -tol <= dx && dx <= tol && -tol <= dy && dy <= tol
}

/// True iff two circles of radii `ra` and `rb` centred at `a` and `b`
/// overlap (touching counts): the squared centre distance is at most the
/// squared radius sum.
pub fn circles_overlap(a: Vec2i, ra: u64, b: Vec2i, rb: u64) -> (r: bool)
    requires
        a.in_bounds(),
        b.in_bounds(),
        ra <= RADIUS_BOUND,
        rb <= RADIUS_BOUND,
    ensures
        r == (a.dist_sq(b) <= (ra + rb) * (ra + rb)),
{
    let dx: i64 = a.x - b.x;
    let dy: i64 = a.y - b.y;
    let dxm: u64 = abs_mag(dx);
    let dym: u64 = abs_mag(dy);
    proof {
        assert(dxm * dxm == dx * dx && dym * dym == dy * dy
            && dxm * dxm <= 4_000_000_000_000_000_000
            && dym * dym <= 4_000_000_000_000_000_000) by (nonlinear_arith)
            requires
                -2_000_000_000 <= dx <= 2_000_000_000,
                -2_000_000_000 <= dy <= 2_000_000_000,
                dxm == (if dx >= 0 { dx as int } else { -(dx as int) }),
                dym == (if dy >= 0 { dy as int } else { -(dy as int) }),
        ;
        assert((ra + rb) * (ra + rb) <= 16_000_000_000_000_000_000) by (nonlinear_arith)
            requires
                ra <= 2_000_000_000,
                rb <= 2_000_000_000,
        ;
    }
    let dist_sq: u64 = dxm * dxm + dym * dym;
    let rsum: u64 = ra + rb;
    let rsum_sq_big: u128 = (rsum as u128) * (rsum as u128);
    (dist_sq as u128) <= rsum_sq_big
}

} // verus!
