//! Fixed-point scalars and 2D vectors.
//!
//! One world unit is `SCALE` fixed-point units. Every coordinate the library
//! accepts is bounded by `COORD_LIMIT`, which keeps all intermediate products
//! of the geometry code far inside the `i64` range.

use vstd::prelude::*;

verus! {

/// Number of fixed-point units in one world unit.
pub const SCALE: i64 = 1000;

/// Largest magnitude (in fixed-point units) of any world coordinate the
/// library accepts: one thousand world units.
pub const COORD_LIMIT: i64 = 1_000_000;

/// Absolute value over mathematical integers.
pub open spec fn abs_int(a: int) -> int {
    if a >= 0 {
        a
    } else {
        -a
    }
}

/// Truncating (round-toward-zero) division over mathematical integers: the
/// rounding that Rust's `/` performs on machine integers.
pub open spec fn tdiv(a: int, b: int) -> int {
    if (a >= 0) == (b >= 0) {
        abs_int(a) / abs_int(b)
    } else {
        -(abs_int(a) / abs_int(b))
    }
}

/// A coordinate the library accepts.
pub open spec fn coord_ok(c: int) -> bool {
    -COORD_LIMIT <= c <= COORD_LIMIT
}

/// A 2D point or direction in fixed-point world coordinates.
#[derive(Clone, Copy, Debug, PartialEq, Eq, Structural)]
pub struct Vec2 {
    pub x: i64,
    pub y: i64,
}

impl Vec2 {
    pub fn new(x: i64, y: i64) -> (v: Vec2)
        ensures
            v.x == x,
            v.y == y,
    {
        Vec2 { x, y }
    }
}

/// A pair of unsigned grid coordinates: a cell address in a tile grid.
#[derive(Clone, Copy, Debug, PartialEq, Eq, Structural)]
pub struct UVec2 {
    pub x: u32,
    pub y: u32,
}

impl UVec2 {
    pub fn new(x: u32, y: u32) -> (v: UVec2)
        ensures
            v.x == x,
            v.y == y,
    {
        UVec2 { x, y }
    }
}

/// Both coordinates of `v` are within the accepted world bounds.
pub open spec fn vec2_ok(v: Vec2) -> bool {
    coord_ok(v.x as int) && coord_ok(v.y as int)
}

/// Truncating division on machine integers, with its result pinned to `tdiv`.
pub fn div_trunc(a: i64, b: i64) -> (r: i64)
    requires
        b != 0,
        a != i64::MIN,
        b != i64::MIN,
    ensures
        r == tdiv(a as int, b as int),
        abs_int(r as int) <= abs_int(a as int),
{
    let neg: bool = (a < 0) != (b < 0);
    let aa: i64 = if a < 0 {
        -a
    } else {
        a
    };
    let bb: i64 = if b < 0 {
        -b
    } else {
        b
    };
    let q: i64 = aa / bb;
    proof {
        vstd::arithmetic::div_mod::lemma_div_nonincreasing(aa as int, bb as int);
        vstd::arithmetic::div_mod::lemma_div_pos_is_pos(aa as int, bb as int);
    }
    if neg {
        -q
    } else {
        q
    }
}

/// `r` is the integer square root (rounded down) of `n`.
pub open spec fn is_sqrt_floor(n: int, r: int) -> bool {
    0 <= r && r * r <= n < (r + 1) * (r + 1)
}

/// The integer square root, rounded down.
pub open spec fn sqrt_floor(n: int) -> int {
    choose|r: int| is_sqrt_floor(n, r)
}

/// At most one integer is the rounded-down square root of `n`.
pub proof fn lemma_sqrt_floor_unique(n: int, r1: int, r2: int)
    by (nonlinear_arith)
    requires
        is_sqrt_floor(n, r1),
        is_sqrt_floor(n, r2),
    ensures
        r1 == r2,
{
}

/// Integer square root, rounded down.
pub fn isqrt(n: u64) -> (r: u64)
    requires
        n < 0x4000_0000_0000_0000,
    ensures
        is_sqrt_floor(n as int, r as int),
        r == sqrt_floor(n as int),
{
    let mut lo: u64 = 0;
    let mut hi: u64 = 0x1_0000_0000;
    while lo + 1 < hi
        invariant
            lo < hi <= 0x1_0000_0000,
            lo * lo <= n,
            n < hi * hi,
        decreases hi - lo,
    {
        let mid: u64 = lo + (hi - lo) / 2;
        assert(lo < mid < hi);
        assert(mid * mid < 0x1_0000_0000_0000_0000) by (nonlinear_arith)
            requires
                0 <= mid < 0x1_0000_0000,
        ;
        if mid * mid <= n {
            lo = mid;
        } else {
            hi = mid;
        }
    }
    assert(hi == lo + 1);
    proof {
        let r = lo as int;
        assert(is_sqrt_floor(n as int, r));
        lemma_sqrt_floor_unique(n as int, r, sqrt_floor(n as int));
    }
    lo
}

/// Squared distance between two points, in squared fixed-point units.
pub open spec fn dist2(a: Vec2, b: Vec2) -> int {
    (b.x - a.x) * (b.x - a.x) + (b.y - a.y) * (b.y - a.y)
}

/// Distance between two points, rounded down to fixed-point units.
pub open spec fn dist_fp(a: Vec2, b: Vec2) -> int {
    sqrt_floor(dist2(a, b))
}

/// Euclidean distance between two in-bounds points, rounded down.
pub fn distance(a: Vec2, b: Vec2) -> (r: i64)
    requires
        -2 * COORD_LIMIT <= a.x <= 2 * COORD_LIMIT,
        -2 * COORD_LIMIT <= a.y <= 2 * COORD_LIMIT,
        -2 * COORD_LIMIT <= b.x <= 2 * COORD_LIMIT,
        -2 * COORD_LIMIT <= b.y <= 2 * COORD_LIMIT,
    ensures
        r == dist_fp(a, b),
        0 <= r <= 6 * COORD_LIMIT,
{
    let dx: i64 = b.x - a.x;
    let dy: i64 = b.y - a.y;
    proof {
        lemma_mul_bounds(dx as int, dx as int, 4 * COORD_LIMIT as int, 4 * COORD_LIMIT as int);
        lemma_mul_bounds(dy as int, dy as int, 4 * COORD_LIMIT as int, 4 * COORD_LIMIT as int);
        assert(dx * dx >= 0) by (nonlinear_arith);
        assert(dy * dy >= 0) by (nonlinear_arith);
    }
    let n: u64 = (dx * dx) as u64 + (dy * dy) as u64;
    let r: u64 = isqrt(n);
    proof {
        assert(is_sqrt_floor(n as int, r as int));
        assert((6 * COORD_LIMIT as int) * (6 * COORD_LIMIT as int) > n as int) by (nonlinear_arith)
            requires
                n as int <= 32 * (COORD_LIMIT as int) * (COORD_LIMIT as int),
        ;
        if r as int > 6 * COORD_LIMIT as int {
            assert(r as int * r as int >= (6 * COORD_LIMIT as int + 1) * (6 * COORD_LIMIT as int
                + 1)) by (nonlinear_arith)
                requires
                    r as int >= 6 * COORD_LIMIT as int + 1,
            ;
        }
    }
    r as i64
}

/// Truncating division by `b` of anything no larger than `|b| * c` stays
/// within `[-c, c]`.
pub proof fn lemma_tdiv_bound(a: int, b: int, c: int)
    requires
        b != 0,
        0 <= c,
        abs_int(a) <= abs_int(b) * c,
    ensures
        -c <= tdiv(a, b) <= c,
{
    vstd::arithmetic::div_mod::lemma_multiply_divide_le(abs_int(a), abs_int(b), c);
    vstd::arithmetic::div_mod::lemma_div_pos_is_pos(abs_int(a), abs_int(b));
}

/// `-(aa * bb) <= a * b <= aa * bb` whenever `|a| <= aa` and `|b| <= bb`.
pub proof fn lemma_mul_bounds(a: int, b: int, aa: int, bb: int)
    by (nonlinear_arith)
    requires
        -aa <= a <= aa,
        -bb <= b <= bb,
    ensures
        -(aa * bb) <= a * b <= aa * bb,
{
}

} // verus!
