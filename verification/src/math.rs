//! Integer vector arithmetic for the simulation: 2D vectors, absolute
//! value, truncating division, integer square root and vector rescaling
//! (the integer counterpart of `normalize`-then-scale).

use vstd::prelude::*;

verus! {

/// Absolute value of a mathematical integer.
pub open spec fn abs_i(a: int) -> int {
    if a < 0 {
        -a
    } else {
        a
    }
}

/// Division truncating toward zero (the semantics of Rust's `/` on
/// signed integers), for a positive divisor.
pub open spec fn tdiv(a: int, b: int) -> int {
    if a >= 0 {
        a / b
    } else {
        -((-a) / b)
    }
}

/// A 2D vector (or point) with integer coordinates in milliunits.
#[derive(Clone, Copy, Debug, PartialEq, Eq, Structural)]
pub struct Vec2 {
    pub x: i64,
    pub y: i64,
}

impl Vec2 {
    /// The zero vector.
    pub fn zero() -> (r: Vec2)
        ensures
            r == (Vec2 { x: 0, y: 0 }),
    {
        Vec2 { x: 0, y: 0 }
    }

    /// Builds a vector from its coordinates.
    pub fn new(x: i64, y: i64) -> (r: Vec2)
        ensures
            r == (Vec2 { x, y }),
    {
        Vec2 { x, y }
    }
}

/// The squared Euclidean length of a vector.
pub open spec fn norm_sq(v: Vec2) -> int {
    v.x * v.x + v.y * v.y
}

/// Absolute value of a machine integer.
pub fn abs64(a: i64) -> (r: i64)
    requires
        a > i64::MIN,
    ensures
        r == abs_i(a as int),
{
    if a < 0 {
        -a
    } else {
        a
    }
}

/// Truncating division of `a` by a positive `b`.
pub fn div_trunc(a: i64, b: i64) -> (r: i64)
    requires
        b > 0,
        a > i64::MIN,
    ensures
        r == tdiv(a as int, b as int),
{
    if a >= 0 {
        let q: u64 = (a as u64) / (b as u64);
        q as i64
    } else {
        let q: u64 = ((-a) as u64) / (b as u64);
        -(q as i64)
    }
}

/// The magnitude of a truncated quotient never exceeds that of the
/// dividend scaled down by the divisor.
pub proof fn lemma_tdiv_bound(a: int, b: int)
    requires
        b > 0,
    ensures
        abs_i(tdiv(a, b)) * b <= abs_i(a),
        abs_i(tdiv(a, b)) <= abs_i(a),
        a >= 0 ==> tdiv(a, b) >= 0,
        a <= 0 ==> tdiv(a, b) <= 0,
{
    if a >= 0 {
        assert(a / b >= 0) by (nonlinear_arith)
            requires
                a >= 0,
                b > 0,
        ;
        assert((a / b) * b <= a) by (nonlinear_arith)
            requires
                a >= 0,
                b > 0,
        ;
        assert(a / b <= a) by (nonlinear_arith)
            requires
                a >= 0,
                b > 0,
        ;
    } else {
        assert((-a) / b >= 0) by (nonlinear_arith)
            requires
                -a >= 0,
                b > 0,
        ;
        assert(((-a) / b) * b <= -a) by (nonlinear_arith)
            requires
                -a >= 0,
                b > 0,
        ;
        assert((-a) / b <= -a) by (nonlinear_arith)
            requires
                -a >= 0,
                b > 0,
        ;
    }
}

/// Magnitudes of products are bounded by the product of the bounds.
pub proof fn lemma_mul_bound(x: int, y: int, bx: int, by: int)
    requires
        abs_i(x) <= bx,
        abs_i(y) <= by,
    ensures
        abs_i(x * y) <= bx * by,
{
    assert(abs_i(x * y) <= bx * by) by (nonlinear_arith)
        requires
            abs_i(x) <= bx,
            abs_i(y) <= by,
    ;
}

/// The floor of the square root of a nonnegative integer, singled out
/// by the usual squeeze `r * r <= n < (r + 1) * (r + 1)`.
pub open spec fn sqrt_floor(n: int) -> int {
    choose|r: int| r >= 0 && #[trigger] (r * r) <= n < (r + 1) * (r + 1)
}

/// The squeeze characterisation has exactly one solution, so any root
/// found by executable code equals `sqrt_floor`.
pub proof fn lemma_sqrt_floor_is(n: int, r: int)
    requires
        r >= 0,
        r * r <= n,
        n < (r + 1) * (r + 1),
    ensures
        sqrt_floor(n) == r,
{
    assert(r >= 0 && r * r <= n < (r + 1) * (r + 1));
    let s = sqrt_floor(n);
    assert(s >= 0 && s * s <= n < (s + 1) * (s + 1));
    if s < r {
        assert((s + 1) * (s + 1) <= r * r) by (nonlinear_arith)
            requires
                0 <= s,
                s < r,
        ;
    }
    if r < s {
        assert((r + 1) * (r + 1) <= s * s) by (nonlinear_arith)
            requires
                0 <= r,
                r < s,
        ;
    }
}

/// Integer square root by bisection: returns the floor of the square
/// root of `n`.
pub fn isqrt(n: u64) -> (r: u64)
    ensures
        r * r <= n < (r + 1) * (r + 1),
        r == sqrt_floor(n as int),
{
    let mut lo: u64 = 0;
    let mut hi: u64 = 0x1_0000_0000;
    while lo + 1 < hi
        invariant
            0 <= lo < hi <= 0x1_0000_0000,
            lo * lo <= n,
            n < hi * hi,
        decreases hi - lo,
    {
        let mid: u64 = lo + (hi - lo) / 2;
        proof {
            assert(mid * mid <= 0x1_0000_0000u64 * 0x1_0000_0000u64) by (nonlinear_arith)
                requires
                    0 <= mid <= 0x1_0000_0000u64,
            ;
        }
        if (mid as u128) * (mid as u128) <= n as u128 {
            lo = mid;
        } else {
            hi = mid;
        }
    }
    proof {
        lemma_sqrt_floor_is(n as int, lo as int);
    }
    lo
}

/// Truncating division for wide intermediates.
pub fn div_trunc_wide(a: i128, b: i128) -> (r: i128)
    requires
        b > 0,
        a > i128::MIN,
    ensures
        r == tdiv(a as int, b as int),
{
    if a >= 0 {
        let q: u128 = (a as u128) / (b as u128);
        q as i128
    } else {
        let q: u128 = ((-a) as u128) / (b as u128);
        -(q as i128)
    }
}

/// Largest coordinate magnitude accepted by `scale_to` and the other
/// geometric helpers; every squared length then fits in a `u64`.
pub const GEOM_LIMIT: i64 = 3_000_000_000;

/// Largest coordinate magnitude a well-formed entity may hold; half of
/// `GEOM_LIMIT`, so differences of well-formed coordinates stay within
/// the geometric helpers' bounds.
pub const COORD_LIMIT: i64 = 1_000_000_000;

/// Largest hitbox extent a well-formed entity may hold, in milliunits
/// (1000 world units): it keeps positional corrections small.
pub const EXT_LIMIT: i64 = 1_000_000;

/// Largest scaling factor accepted by `scale_to`.
pub const SCALE_LIMIT: i64 = 1_000_000_000_000_000;

/// A vector of magnitude `m` pointing the way `d` does, rounded toward
/// zero per coordinate; the zero vector maps to the zero vector rather
/// than failing, so aiming at one's own position is a harmless no-op.
pub open spec fn scaled_toward(d: Vec2, m: int) -> Vec2 {
    if d.x == 0 && d.y == 0 {
        Vec2 { x: 0, y: 0 }
    } else {
        Vec2 {
            x: tdiv(m * d.x, sqrt_floor(norm_sq(d))) as i64,
            y: tdiv(m * d.y, sqrt_floor(norm_sq(d))) as i64,
        }
    }
}

/// Rescaling caps each coordinate by the requested magnitude.
pub proof fn lemma_scaled_toward_bound(d: Vec2, m: int)
    requires
        abs_i(d.x as int) <= GEOM_LIMIT,
        abs_i(d.y as int) <= GEOM_LIMIT,
        abs_i(m) <= SCALE_LIMIT,
    ensures
        abs_i(scaled_toward(d, m).x as int) <= abs_i(m),
        abs_i(scaled_toward(d, m).y as int) <= abs_i(m),
{
    if d.x == 0 && d.y == 0 {
    } else {
        let ns = norm_sq(d);
        assert(d.x * d.x >= 0 && d.y * d.y >= 0 && ns > 0) by (nonlinear_arith)
            requires
                ns == d.x * d.x + d.y * d.y,
                !(d.x == 0 && d.y == 0),
        ;
        let mag = sqrt_floor(ns);
        assert(mag >= 0 && mag * mag <= ns < (mag + 1) * (mag + 1)) by {
            lemma_sqrt_exists(ns);
        }
        assert(mag >= 1) by (nonlinear_arith)
            requires
                mag * mag <= ns,
                ns < (mag + 1) * (mag + 1),
                ns >= 1,
                mag >= 0,
        ;
        lemma_coord_le_mag(d.x as int, ns, mag);
        lemma_coord_le_mag(d.y as int, ns, mag);
        lemma_tdiv_bound(m * d.x, mag);
        lemma_tdiv_bound(m * d.y, mag);
        assert(abs_i(m * d.x) <= abs_i(m) * mag) by (nonlinear_arith)
            requires
                abs_i(d.x as int) <= mag,
        ;
        assert(abs_i(m * d.y) <= abs_i(m) * mag) by (nonlinear_arith)
            requires
                abs_i(d.y as int) <= mag,
        ;
        assert(abs_i(tdiv(m * d.x, mag)) <= abs_i(m)) by (nonlinear_arith)
            requires
                abs_i(tdiv(m * d.x, mag)) * mag <= abs_i(m * d.x),
                abs_i(m * d.x) <= abs_i(m) * mag,
                mag >= 1,
        ;
        assert(abs_i(tdiv(m * d.y, mag)) <= abs_i(m)) by (nonlinear_arith)
            requires
                abs_i(tdiv(m * d.y, mag)) * mag <= abs_i(m * d.y),
                abs_i(m * d.y) <= abs_i(m) * mag,
                mag >= 1,
        ;
    }
}

/// A nonnegative integer has a floor square root.
proof fn lemma_sqrt_exists(n: int)
    requires
        n >= 0,
    ensures
        sqrt_floor(n) >= 0,
        sqrt_floor(n) * sqrt_floor(n) <= n,
        n < (sqrt_floor(n) + 1) * (sqrt_floor(n) + 1),
{
    lemma_some_root(n, 0);
    let r = choose|r: int| r >= 0 && #[trigger] (r * r) <= n < (r + 1) * (r + 1);
    assert(sqrt_floor(n) == r) by {
        lemma_sqrt_floor_is(n, r);
    }
}

/// Bisection existence argument: walking up from a root candidate
/// reaches the squeeze.
proof fn lemma_some_root(n: int, r: int)
    requires
        0 <= r,
        r * r <= n,
    ensures
        exists|s: int| s >= 0 && #[trigger] (s * s) <= n < (s + 1) * (s + 1),
    decreases n - r * r,
{
    if n < (r + 1) * (r + 1) {
        assert(r >= 0 && r * r <= n < (r + 1) * (r + 1));
    } else {
        assert((r + 1) * (r + 1) > r * r) by (nonlinear_arith)
            requires
                r >= 0,
        ;
        lemma_some_root(n, r + 1);
    }
}

/// Each coordinate of a vector is at most the vector's magnitude.
proof fn lemma_coord_le_mag(c: int, ns: int, mag: int)
    requires
        mag >= 0,
        c * c <= ns,
        ns < (mag + 1) * (mag + 1),
    ensures
        abs_i(c) <= mag,
{
    assert(abs_i(c) <= mag) by (nonlinear_arith)
        requires
            mag >= 0,
            c * c <= ns,
            ns < (mag + 1) * (mag + 1),
    ;
}

/// The integer counterpart of normalize-then-scale: `m` times the unit
/// vector along `d`. Every coordinate of the result is bounded by `m`
/// in magnitude.
pub fn scale_to(d: Vec2, m: i64) -> (r: Vec2)
    requires
        abs_i(d.x as int) <= GEOM_LIMIT,
        abs_i(d.y as int) <= GEOM_LIMIT,
        abs_i(m as int) <= SCALE_LIMIT,
    ensures
        r == scaled_toward(d, m as int),
        abs_i(r.x as int) <= abs_i(m as int),
        abs_i(r.y as int) <= abs_i(m as int),
{
    if d.x == 0 && d.y == 0 {
        return Vec2 { x: 0, y: 0 };
    }
    proof {
        assert((d.x as int) * (d.x as int) <= (GEOM_LIMIT as int) * (GEOM_LIMIT as int)
            && (d.x as int) * (d.x as int) >= 0) by (nonlinear_arith)
            requires
                abs_i(d.x as int) <= GEOM_LIMIT,
        ;
        assert((d.y as int) * (d.y as int) <= (GEOM_LIMIT as int) * (GEOM_LIMIT as int)
            && (d.y as int) * (d.y as int) >= 0) by (nonlinear_arith)
            requires
                abs_i(d.y as int) <= GEOM_LIMIT,
        ;
        assert(abs_i((m as int) * (d.x as int)) <= (SCALE_LIMIT as int) * (GEOM_LIMIT as int))
            by (nonlinear_arith)
            requires
                abs_i(d.x as int) <= GEOM_LIMIT,
                abs_i(m as int) <= SCALE_LIMIT,
        ;
        assert(abs_i((m as int) * (d.y as int)) <= (SCALE_LIMIT as int) * (GEOM_LIMIT as int))
            by (nonlinear_arith)
            requires
                abs_i(d.y as int) <= GEOM_LIMIT,
                abs_i(m as int) <= SCALE_LIMIT,
        ;
    }
    let sx: i128 = (d.x as i128) * (d.x as i128);
    let sy: i128 = (d.y as i128) * (d.y as i128);
    proof {
        assert(sx + sy <= 2 * (GEOM_LIMIT as int) * (GEOM_LIMIT as int)) by (nonlinear_arith)
            requires
                sx == (d.x as int) * (d.x as int),
                sy == (d.y as int) * (d.y as int),
                abs_i(d.x as int) <= GEOM_LIMIT,
                abs_i(d.y as int) <= GEOM_LIMIT,
        ;
        assert(sx >= 0 && sy >= 0) by (nonlinear_arith)
            requires
                sx == (d.x as int) * (d.x as int),
                sy == (d.y as int) * (d.y as int),
        ;
        assert(sx + sy > 0) by (nonlinear_arith)
            requires
                sx == (d.x as int) * (d.x as int),
                sy == (d.y as int) * (d.y as int),
                !(d.x == 0 && d.y == 0),
        ;
    }
    let ns: u64 = (sx + sy) as u64;
    let mag: u64 = isqrt(ns);
    proof {
        let mi: int = mag as int;
        assert(mi >= 1) by (nonlinear_arith)
            requires
                mi * mi <= (ns as int),
                (ns as int) < (mi + 1) * (mi + 1),
                (ns as int) >= 1,
        ;
        lemma_coord_le_mag(d.x as int, ns as int, mag as int);
        lemma_coord_le_mag(d.y as int, ns as int, mag as int);
        lemma_tdiv_bound((m as int) * (d.x as int), mag as int);
        lemma_tdiv_bound((m as int) * (d.y as int), mag as int);
        assert(abs_i((m as int) * (d.x as int)) <= abs_i(m as int) * (mag as int))
            by (nonlinear_arith)
            requires
                abs_i(d.x as int) <= mag as int,
        ;
        assert(abs_i((m as int) * (d.y as int)) <= abs_i(m as int) * (mag as int))
            by (nonlinear_arith)
            requires
                abs_i(d.y as int) <= mag as int,
        ;
        assert forall|q: int| abs_i(q) * (mag as int) <= abs_i(m as int) * (mag as int) implies
            abs_i(q) <= abs_i(m as int) by {
            assert(abs_i(q) <= abs_i(m as int)) by (nonlinear_arith)
                requires
                    abs_i(q) * (mag as int) <= abs_i(m as int) * (mag as int),
                    mag as int >= 1,
            ;
        }
    }
    let rx: i128 = div_trunc_wide((m as i128) * (d.x as i128), mag as i128);
    let ry: i128 = div_trunc_wide((m as i128) * (d.y as i128), mag as i128);
    Vec2 { x: rx as i64, y: ry as i64 }
}

} // verus!
