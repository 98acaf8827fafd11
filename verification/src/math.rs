//! Fixed-point spatial types and the little geometry the pipeline needs.
//!
//! Positions are integer micrometers, orientations are unit quaternions with
//! components in millionths, field-of-view angles are integer microradians.

use vstd::prelude::*;

verus! {

/// Largest position component (in micrometers) the geometry helpers accept;
/// generous for any tracking volume, and small enough that squared distances
/// fit in 64 bits.
pub const COORD_LIMIT_UM: i64 = 1_000_000_000;

/// A position or a velocity, components in fixed-point units.
#[derive(Clone, Copy, PartialEq, Eq, Structural, Debug)]
pub struct Vec3 {
    pub x: i64,
    pub y: i64,
    pub z: i64,
}

/// An orientation quaternion, components in millionths of a unit.
#[derive(Clone, Copy, PartialEq, Eq, Structural, Debug)]
pub struct Quat {
    pub x: i32,
    pub y: i32,
    pub z: i32,
    pub w: i32,
}

/// A field of view: four half-angles in microradians.
#[derive(Clone, Copy, PartialEq, Eq, Structural, Debug)]
pub struct Fov {
    pub left: i32,
    pub right: i32,
    pub up: i32,
    pub down: i32,
}

/// A rigid pose: orientation plus position.
#[derive(Clone, Copy, PartialEq, Eq, Structural, Debug)]
pub struct Pose {
    pub orientation: Quat,
    pub position: Vec3,
}

impl Vec3 {
    /// All components within `limit` in magnitude.
    pub open spec fn bounded(self, limit: int) -> bool {
        &&& -limit <= self.x <= limit
        &&& -limit <= self.y <= limit
        &&& -limit <= self.z <= limit
    }

    /// The zero vector, used for the velocities the head sample carries.
    pub fn zero() -> (r: Vec3)
        ensures
            r == (Vec3 { x: 0, y: 0, z: 0 }),
    {
        Vec3 { x: 0, y: 0, z: 0 }
    }
}

/// Halving that rounds toward zero, as the fixed-point midpoint uses it.
pub open spec fn div2_toward_zero(s: int) -> int {
    if s >= 0 {
        s / 2
    } else {
        -((-s) / 2)
    }
}

/// The midpoint of two coordinates, rounded toward zero.
pub open spec fn midpoint_coord(a: int, b: int) -> int {
    div2_toward_zero(a + b)
}

fn half_toward_zero(s: i64) -> (r: i64)
    requires
        i64::MIN < s,
    ensures
        r == div2_toward_zero(s as int),
{
    if s >= 0 {
        ((s as u64) / 2) as i64
    } else {
        let m: u64 = (-s) as u64;
        -((m / 2) as i64)
    }
}

/// The point halfway between `a` and `b`, per component, rounded toward zero.
/// The head position is approximated as this midpoint of the two eye positions.
pub fn midpoint(a: Vec3, b: Vec3) -> (r: Vec3)
    requires
        a.bounded(COORD_LIMIT_UM as int),
        b.bounded(COORD_LIMIT_UM as int),
    ensures
        r.x == midpoint_coord(a.x as int, b.x as int),
        r.y == midpoint_coord(a.y as int, b.y as int),
        r.z == midpoint_coord(a.z as int, b.z as int),
        r.bounded(COORD_LIMIT_UM as int),
{
    Vec3 {
        x: half_toward_zero(a.x + b.x),
        y: half_toward_zero(a.y + b.y),
        z: half_toward_zero(a.z + b.z),
    }
}

/// The square of an integer.
pub open spec fn sq(a: int) -> int {
    a * a
}

/// Squared Euclidean distance between two points.
pub open spec fn dist_sq(a: Vec3, b: Vec3) -> int {
    sq(a.x - b.x) + sq(a.y - b.y) + sq(a.z - b.z)
}

/// The integer square root, rounded down: the unique `r >= 0` with
/// `r * r <= n < (r + 1) * (r + 1)`.
pub open spec fn floor_sqrt(n: int) -> int {
    choose|r: int| 0 <= r && #[trigger] sq(r) <= n && n < sq(r + 1)
}

/// Any `r >= 0` with `r * r <= n < (r + 1) * (r + 1)` is `floor_sqrt(n)`.
pub proof fn lemma_floor_sqrt_unique(n: int, r: int)
    requires
        0 <= r,
        sq(r) <= n,
        n < sq(r + 1),
    ensures
        floor_sqrt(n) == r,
{
    assert(0 <= r && sq(r) <= n && n < sq(r + 1));
    let c = floor_sqrt(n);
    assert(0 <= c && sq(c) <= n && n < sq(c + 1)) by {
        assert(exists|x: int| 0 <= x && #[trigger] sq(x) <= n && n < sq(x + 1));
    }
    assert(c == r) by (nonlinear_arith)
        requires
            0 <= r,
            sq(r) <= n,
            n < sq(r + 1),
            0 <= c,
            sq(c) <= n,
            n < sq(c + 1),
    ;
}

/// Integer square root: the unique `r` with `r * r <= n < (r + 1) * (r + 1)`.
pub fn isqrt_u64(n: u64) -> (r: u64)
    ensures
        sq(r as int) <= n as int,
        (n as int) < sq(r as int + 1),
        r == floor_sqrt(n as int),
{
    let mut lo: u64 = 0;
    let mut hi: u64 = 4_294_967_296;
    assert((n as int) < sq(hi as int)) by (nonlinear_arith)
        requires
            hi == 4_294_967_296u64,
            n <= u64::MAX,
    ;
    while lo + 1 < hi
        invariant
            lo < hi <= 4_294_967_296,
            sq(lo as int) <= n as int,
            (n as int) < sq(hi as int),
        decreases hi - lo,
    {
        let mid: u64 = lo + (hi - lo) / 2;
        assert(lo < mid < hi);
        assert((mid as int) * (mid as int) <= 0x1_0000_0000_0000_0000) by (nonlinear_arith)
            requires
                mid <= 4_294_967_296u64,
        ;
        if (mid as u128) * (mid as u128) <= n as u128 {
            lo = mid;
        } else {
            hi = mid;
        }
    }
    proof {
        lemma_floor_sqrt_unique(n as int, lo as int);
    }
    lo
}

/// Euclidean distance between two bounded points, rounded down to whole units.
/// The IPD is this distance between the two eye positions.
pub fn distance_um(a: Vec3, b: Vec3) -> (r: u64)
    requires
        a.bounded(COORD_LIMIT_UM as int),
        b.bounded(COORD_LIMIT_UM as int),
    ensures
        sq(r as int) <= dist_sq(a, b),
        dist_sq(a, b) < sq(r as int + 1),
        r == floor_sqrt(dist_sq(a, b)),
{
    let dx: i64 = a.x - b.x;
    let dy: i64 = a.y - b.y;
    let dz: i64 = a.z - b.z;
    assert(0 <= dx * dx <= 4_000_000_000_000_000_000 && dx * dx == sq(dx as int))
        by (nonlinear_arith)
        requires
            -2_000_000_000 <= dx <= 2_000_000_000,
    ;
    assert(0 <= dy * dy <= 4_000_000_000_000_000_000 && dy * dy == sq(dy as int))
        by (nonlinear_arith)
        requires
            -2_000_000_000 <= dy <= 2_000_000_000,
    ;
    assert(0 <= dz * dz <= 4_000_000_000_000_000_000 && dz * dz == sq(dz as int))
        by (nonlinear_arith)
        requires
            -2_000_000_000 <= dz <= 2_000_000_000,
    ;
    let sx: u64 = (dx * dx) as u64;
    let sy: u64 = (dy * dy) as u64;
    let sz: u64 = (dz * dz) as u64;
    let d2: u64 = sx + sy + sz;
    isqrt_u64(d2)
}

/// `|a - b|` over mathematical integers.
pub open spec fn abs_diff(a: int, b: int) -> int {
    if a >= b {
        a - b
    } else {
        b - a
    }
}

/// `|a - b|` on 64-bit unsigned values.
pub fn u64_abs_diff(a: u64, b: u64) -> (r: u64)
    ensures
        r == abs_diff(a as int, b as int),
{
    if a >= b {
        a - b
    } else {
        b - a
    }
}

} // verus!
