//! Geometry and fixed-point arithmetic primitives.
//!
//! A coordinate is an `i64` holding thousandths of a pixel.  Vector
//! normalization returns a direction scaled by `SCALE`; lengths come from a
//! verified integer square root.  Division follows Rust's convention of
//! truncation toward zero, written `tdiv` in specifications.

use vstd::prelude::*;
use vstd::arithmetic::div_mod::{
    lemma_div_is_ordered, lemma_div_nonincreasing, lemma_div_pos_is_pos, lemma_div_by_multiple,
};
use vstd::arithmetic::mul::lemma_mul_inequality;
use crate::consts::{SCALE, POS_LIMIT, DIM_LIMIT};

verus! {

/// Absolute value, for specifications.
pub open spec fn sabs(x: int) -> int {
    if x < 0 {
        -x
    } else {
        x
    }
}

/// Truncating division (toward zero) by a positive divisor, as Rust's `/`
/// computes it on signed integers.
pub open spec fn tdiv(a: int, d: int) -> int {
    if a >= 0 {
        a / d
    } else {
        -((-a) / d)
    }
}

/// Clamping into `[lo, hi]`.
pub open spec fn clamp_spec(x: int, lo: int, hi: int) -> int {
    if x < lo {
        lo
    } else if x > hi {
        hi
    } else {
        x
    }
}

/// The largest `r >= 0` with `r * r <= n` (0 for negative `n`).
pub open spec fn sqrt_floor(n: int) -> int
    decreases n,
{
    if n <= 0 {
        0
    } else {
        let p = sqrt_floor(n - 1);
        if (p + 1) * (p + 1) <= n {
            p + 1
        } else {
            p
        }
    }
}

/// `sqrt_floor` is characterized by bracketing `n` between two squares.
pub proof fn lemma_sqrt_floor(n: int)
    requires
        n >= 0,
    ensures
        sqrt_floor(n) >= 0,
        sqrt_floor(n) * sqrt_floor(n) <= n,
        n < (sqrt_floor(n) + 1) * (sqrt_floor(n) + 1),
    decreases n,
{
    if n == 0 {
        assert(sqrt_floor(0) == 0);
    } else {
        lemma_sqrt_floor(n - 1);
        let p = sqrt_floor(n - 1);
        if (p + 1) * (p + 1) <= n {
            assert(n < (p + 2) * (p + 2)) by (nonlinear_arith)
                requires
                    p >= 0,
                    n <= (p + 1) * (p + 1),
            ;
        }
    }
}

/// Any `r` bracketing `n` between `r * r` and `(r + 1) * (r + 1)` is the
/// floor square root.
pub proof fn lemma_sqrt_floor_unique(n: int, r: int)
    requires
        n >= 0,
        r >= 0,
        r * r <= n,
        n < (r + 1) * (r + 1),
    ensures
        r == sqrt_floor(n),
{
    let s = sqrt_floor(n);
    lemma_sqrt_floor(n);
    if r < s {
        assert((r + 1) * (r + 1) <= s * s) by (nonlinear_arith)
            requires
                0 <= r,
                r + 1 <= s,
        ;
    }
    if s < r {
        assert((s + 1) * (s + 1) <= r * r) by (nonlinear_arith)
            requires
                0 <= s,
                s + 1 <= r,
        ;
    }
}

/// If `n <= r * r` then the floor square root is at most `r`.
pub proof fn lemma_sqrt_le(n: int, r: int)
    requires
        0 <= n,
        0 <= r,
        n <= r * r,
    ensures
        sqrt_floor(n) <= r,
{
    let s = sqrt_floor(n);
    lemma_sqrt_floor(n);
    if r < s {
        assert((r + 1) * (r + 1) <= s * s) by (nonlinear_arith)
            requires
                0 <= r,
                r + 1 <= s,
        ;
        assert(r * r < (r + 1) * (r + 1)) by (nonlinear_arith)
            requires
                0 <= r,
        ;
    }
}

/// If `r * r <= n` then the floor square root is at least `r`.
pub proof fn lemma_sqrt_ge(n: int, r: int)
    requires
        0 <= r,
        r * r <= n,
    ensures
        r <= sqrt_floor(n),
{
    let s = sqrt_floor(n);
    lemma_sqrt_floor(n);
    if s < r {
        assert((s + 1) * (s + 1) <= r * r) by (nonlinear_arith)
            requires
                0 <= s,
                s + 1 <= r,
        ;
    }
}

/// Integer square root by bisection.
pub fn isqrt(n: u64) -> (r: u64)
    ensures
        r == sqrt_floor(n as int),
{
    let mut lo: u64 = 0;
    let mut hi: u64 = 0xFFFF_FFFF;
    proof {
        assert((0xFFFF_FFFFu64 + 1) * (0xFFFF_FFFFu64 + 1) > n as int) by (nonlinear_arith)
            requires
                n <= 0xFFFF_FFFF_FFFF_FFFFu64,
        ;
    }
    while lo < hi
        invariant
            lo <= hi <= 0xFFFF_FFFF,
            lo * lo <= n,
            n < (hi + 1) * (hi + 1),
        decreases hi - lo,
    {
        let mid: u64 = lo + (hi - lo + 1) / 2;
        proof {
            assert(lo < mid <= hi);
            assert(mid * mid <= 0xFFFF_FFFFu64 * 0xFFFF_FFFFu64) by (nonlinear_arith)
                requires
                    mid <= 0xFFFF_FFFFu64,
            ;
        }
        if mid * mid <= n {
            lo = mid;
        } else {
            hi = mid - 1;
        }
    }
    proof {
        lemma_sqrt_floor_unique(n as int, lo as int);
    }
    lo
}

/// Truncating division by a positive divisor.
pub fn div_pos(a: i64, d: i64) -> (r: i64)
    requires
        d >= 1,
        a > i64::MIN,
    ensures
        r == tdiv(a as int, d as int),
        sabs(r as int) <= sabs(a as int),
{
    if a >= 0 {
        let q: u64 = (a as u64) / (d as u64);
        proof {
            lemma_div_nonincreasing(a as int, d as int);
            lemma_div_pos_is_pos(a as int, d as int);
        }
        q as i64
    } else {
        let m: u64 = ((-a) as u64) / (d as u64);
        proof {
            lemma_div_nonincreasing(-(a as int), d as int);
            lemma_div_pos_is_pos(-(a as int), d as int);
        }
        -(m as i64)
    }
}

/// Clamping into `[lo, hi]`.
pub fn clamp(x: i64, lo: i64, hi: i64) -> (r: i64)
    requires
        lo <= hi,
    ensures
        r == clamp_spec(x as int, lo as int, hi as int),
{
    if x < lo {
        lo
    } else if x > hi {
        hi
    } else {
        x
    }
}

/// `tdiv` by a positive divisor divides the absolute value.
pub proof fn lemma_tdiv_abs(a: int, d: int)
    requires
        d >= 1,
    ensures
        sabs(tdiv(a, d)) == sabs(a) / d,
{
    if a >= 0 {
        lemma_div_pos_is_pos(a, d);
    } else {
        lemma_div_pos_is_pos(-a, d);
    }
}

/// `tdiv` keeps a symmetric bound: if `|a| <= bound * d` then
/// `|tdiv(a, d)| <= bound`.
pub proof fn lemma_tdiv_bound(a: int, d: int, bound: int)
    requires
        d >= 1,
        0 <= bound,
        -(bound * d) <= a <= bound * d,
    ensures
        -bound <= tdiv(a, d) <= bound,
{
    lemma_tdiv_abs(a, d);
    lemma_div_is_ordered(sabs(a), bound * d, d);
    lemma_div_by_multiple(bound, d);
    assert((bound * d) / d == bound);
}

/// Squared length of a vector.
pub open spec fn len_sq(dx: int, dy: int) -> int {
    dx * dx + dy * dy
}

/// Fixed-point length of a vector: floor square root of the squared length.
pub open spec fn vlen(dx: int, dy: int) -> int {
    sqrt_floor(len_sq(dx, dy))
}

/// X component of the normalized direction, scaled by `SCALE`.
pub open spec fn unit_x(dx: int, dy: int) -> int {
    tdiv(dx * (SCALE as int), vlen(dx, dy))
}

/// Y component of the normalized direction, scaled by `SCALE`.
pub open spec fn unit_y(dx: int, dy: int) -> int {
    tdiv(dy * (SCALE as int), vlen(dx, dy))
}

/// Largest coordinate difference `vec_len` and `unit_scaled` accept.
pub const VEC_LIMIT: i64 = 60_000_000;

/// Fixed-point length of the vector `(dx, dy)`.
pub fn vec_len(dx: i64, dy: i64) -> (l: u64)
    requires
        -VEC_LIMIT <= dx <= VEC_LIMIT,
        -VEC_LIMIT <= dy <= VEC_LIMIT,
    ensures
        l == vlen(dx as int, dy as int),
        l <= sabs(dx as int) + sabs(dy as int),
{
    proof {
        assert(0 <= dx * dx <= 60_000_000i64 * 60_000_000 && 0 <= dy * dy
            <= 60_000_000i64 * 60_000_000) by (nonlinear_arith)
            requires
                -60_000_000 <= dx <= 60_000_000,
                -60_000_000 <= dy <= 60_000_000,
        ;
    }
    let dx2: u64 = (dx * dx) as u64;
    let dy2: u64 = (dy * dy) as u64;
    let l = isqrt(dx2 + dy2);
    proof {
        let a = sabs(dx as int);
        let b = sabs(dy as int);
        assert(dx * dx + dy * dy <= (a + b) * (a + b)) by (nonlinear_arith)
            requires
                a >= dx,
                a >= -(dx as int),
                a >= 0,
                b >= dy,
                b >= -(dy as int),
                b >= 0,
        ;
        lemma_sqrt_le(len_sq(dx as int, dy as int), a + b);
    }
    l
}

/// Multiplying by the scale multiplies the absolute value.
pub proof fn lemma_abs_mul_scale(v: int)
    ensures
        sabs(v * 1000) == sabs(v) * 1000,
{
    if v >= 0 {
        assert(v * 1000 >= 0);
    } else {
        assert(v * 1000 < 0);
    }
}

/// Properties of the normalized direction of a nonzero vector: the length
/// is positive, both components stay within `SCALE`, and the larger
/// component keeps a magnitude of at least half of `SCALE`.
pub proof fn lemma_unit_props(dx: int, dy: int)
    requires
        -60_000_000 <= dx <= 60_000_000,
        -60_000_000 <= dy <= 60_000_000,
        !(dx == 0 && dy == 0),
    ensures
        1 <= vlen(dx, dy) <= sabs(dx) + sabs(dy),
        -1000 <= unit_x(dx, dy) <= 1000,
        -1000 <= unit_y(dx, dy) <= 1000,
        sabs(unit_x(dx, dy)) >= 500 || sabs(unit_y(dx, dy)) >= 500,
{
    let adx = sabs(dx);
    let ady = sabs(dy);
    let n = len_sq(dx, dy);
    assert(adx * adx == dx * dx) by (nonlinear_arith)
        requires
            adx == dx || adx == -dx,
    ;
    assert(ady * ady == dy * dy) by (nonlinear_arith)
        requires
            ady == dy || ady == -dy,
    ;
    assert(adx * adx >= adx && ady * ady >= ady && adx * adx >= 0 && ady * ady >= 0)
        by (nonlinear_arith)
        requires
            adx >= 0,
            ady >= 0,
    ;
    assert(n == adx * adx + ady * ady);
    assert(n >= 1);
    lemma_sqrt_ge(n, 1);
    lemma_sqrt_ge(n, adx);
    lemma_sqrt_ge(n, ady);
    assert(n <= (adx + ady) * (adx + ady)) by (nonlinear_arith)
        requires
            n == adx * adx + ady * ady,
            adx >= 0,
            ady >= 0,
    ;
    lemma_sqrt_le(n, adx + ady);
    let l = vlen(dx, dy);
    lemma_abs_mul_scale(dx);
    lemma_abs_mul_scale(dy);
    lemma_mul_inequality(adx, l, 1000);
    lemma_mul_inequality(ady, l, 1000);
    lemma_tdiv_bound(dx * 1000, l, 1000);
    lemma_tdiv_bound(dy * 1000, l, 1000);
    let m = if adx >= ady { adx } else { ady };
    assert(n <= (2 * m) * (2 * m)) by (nonlinear_arith)
        requires
            n == adx * adx + ady * ady,
            m >= adx >= 0,
            m >= ady >= 0,
    ;
    lemma_sqrt_le(n, 2 * m);
    lemma_div_by_multiple(500, l);
    if adx >= ady {
        lemma_tdiv_abs(dx * 1000, l);
        lemma_div_is_ordered(500 * l, adx * 1000, l);
    } else {
        lemma_tdiv_abs(dy * 1000, l);
        lemma_div_is_ordered(500 * l, ady * 1000, l);
    }
}

/// Normalized direction of `(dx, dy)`, scaled by `SCALE`.  Undefined for
/// the zero vector, which callers must rule out; the result always keeps a
/// component of magnitude at least half of `SCALE`.
pub fn unit_scaled(dx: i64, dy: i64) -> (u: (i64, i64))
    requires
        -VEC_LIMIT <= dx <= VEC_LIMIT,
        -VEC_LIMIT <= dy <= VEC_LIMIT,
        !(dx == 0 && dy == 0),
    ensures
        u.0 == unit_x(dx as int, dy as int),
        u.1 == unit_y(dx as int, dy as int),
        -SCALE <= u.0 <= SCALE,
        -SCALE <= u.1 <= SCALE,
        sabs(u.0 as int) >= 500 || sabs(u.1 as int) >= 500,
{
    proof {
        lemma_unit_props(dx as int, dy as int);
    }
    let l64 = vec_len(dx, dy);
    let l: i64 = l64 as i64;
    let nx: i64 = dx * SCALE;
    let ny: i64 = dy * SCALE;
    let ux = div_pos(nx, l);
    let uy = div_pos(ny, l);
    (ux, uy)
}

/// X component of `(ux, uy)` rotated by the angle whose scaled cosine and
/// sine are `c` and `s`.
pub open spec fn rot_x(ux: int, uy: int, c: int, s: int) -> int {
    tdiv(ux * c - uy * s, SCALE as int)
}

/// Y component of the same rotation.
pub open spec fn rot_y(ux: int, uy: int, c: int, s: int) -> int {
    tdiv(ux * s + uy * c, SCALE as int)
}

/// Rotate the scaled direction `(ux, uy)` by the angle whose scaled cosine
/// and sine are `c` and `s`.
pub fn rotate_scaled(ux: i64, uy: i64, c: i64, s: i64) -> (r: (i64, i64))
    requires
        -SCALE <= ux <= SCALE,
        -SCALE <= uy <= SCALE,
        -SCALE <= c <= SCALE,
        -SCALE <= s <= SCALE,
    ensures
        r.0 == rot_x(ux as int, uy as int, c as int, s as int),
        r.1 == rot_y(ux as int, uy as int, c as int, s as int),
        -2 * SCALE <= r.0 <= 2 * SCALE,
        -2 * SCALE <= r.1 <= 2 * SCALE,
{
    proof {
        assert(-1_000_000 <= ux * c <= 1_000_000 && -1_000_000 <= uy * s <= 1_000_000
            && -1_000_000 <= ux * s <= 1_000_000 && -1_000_000 <= uy * c <= 1_000_000)
            by (nonlinear_arith)
            requires
                -1000 <= ux <= 1000,
                -1000 <= uy <= 1000,
                -1000 <= c <= 1000,
                -1000 <= s <= 1000,
        ;
    }
    let px: i64 = ux * c - uy * s;
    let py: i64 = ux * s + uy * c;
    proof {
        lemma_tdiv_bound(px as int, SCALE as int, 2 * SCALE as int);
        lemma_tdiv_bound(py as int, SCALE as int, 2 * SCALE as int);
    }
    let rx = div_pos(px, SCALE);
    let ry = div_pos(py, SCALE);
    (rx, ry)
}

/// A rotation through the shotgun's scaled cosine/sine pair cannot send a
/// direction with a component of magnitude at least 500 to the zero vector.
pub proof fn lemma_rot_keeps_direction(ux: int, uy: int, c: int, s: int)
    requires
        c * c + s * s == 1_000_501,
        -1000 <= c <= 1000,
        -1000 <= s <= 1000,
        -1000 <= ux <= 1000,
        -1000 <= uy <= 1000,
        sabs(ux) >= 500 || sabs(uy) >= 500,
    ensures
        sabs(rot_x(ux, uy, c, s)) >= 1 || sabs(rot_y(ux, uy, c, s)) >= 1,
{
    let x = ux * c - uy * s;
    let y = ux * s + uy * c;
    let ax = sabs(x);
    let ay = sabs(y);
    assert(c * x + s * y == ux * (c * c + s * s)) by (nonlinear_arith)
        requires
            x == ux * c - uy * s,
            y == ux * s + uy * c,
    ;
    assert(-s * x + c * y == uy * (c * c + s * s)) by (nonlinear_arith)
        requires
            x == ux * c - uy * s,
            y == ux * s + uy * c,
    ;
    assert(-(1000 * ax) <= c * x <= 1000 * ax && -(1000 * ay) <= s * y <= 1000 * ay
        && -(1000 * ax) <= -s * x <= 1000 * ax && -(1000 * ay) <= c * y <= 1000 * ay)
        by (nonlinear_arith)
        requires
            -1000 <= c <= 1000,
            -1000 <= s <= 1000,
            ax >= x,
            ax >= -x,
            ax >= 0,
            ay >= y,
            ay >= -y,
            ay >= 0,
    ;
    if sabs(ux) >= 500 {
        assert(ux * 1_000_501 >= 500 * 1_000_501 || ux * 1_000_501 <= -500 * 1_000_501)
            by (nonlinear_arith)
            requires
                ux >= 500 || ux <= -500,
        ;
        assert(1000 * ax + 1000 * ay >= 500 * 1_000_501);
    } else {
        assert(uy * 1_000_501 >= 500 * 1_000_501 || uy * 1_000_501 <= -500 * 1_000_501)
            by (nonlinear_arith)
            requires
                uy >= 500 || uy <= -500,
        ;
        assert(1000 * ax + 1000 * ay >= 500 * 1_000_501);
    }
    assert(ax >= 1000 || ay >= 1000);
    if ax >= 1000 {
        lemma_tdiv_abs(x, 1000);
        lemma_div_is_ordered(1000, ax, 1000);
        lemma_div_by_multiple(1, 1000);
    } else {
        lemma_tdiv_abs(y, 1000);
        lemma_div_is_ordered(1000, ay, 1000);
        lemma_div_by_multiple(1, 1000);
    }
}

/// A 2D point or direction in fixed-point coordinates.
#[derive(Clone, Copy, PartialEq, Eq, Structural, Debug)]
pub struct Vec2 {
    pub x: i64,
    pub y: i64,
}

impl Vec2 {
    /// Both coordinates lie in the engine's supported range.
    pub open spec fn in_range(self) -> bool {
        -POS_LIMIT <= self.x <= POS_LIMIT && -POS_LIMIT <= self.y <= POS_LIMIT
    }

    pub fn new(x: i64, y: i64) -> (v: Vec2)
        ensures
            v.x == x,
            v.y == y,
    {
        Vec2 { x, y }
    }
}

/// An axis-aligned rectangle: top-left corner, width and height.
#[derive(Clone, Copy, PartialEq, Eq, Structural, Debug)]
pub struct Rect {
    pub x: i64,
    pub y: i64,
    pub w: i64,
    pub h: i64,
}

/// AABB intersection; rectangles that merely touch along an edge do not
/// overlap.
pub open spec fn overlaps_spec(a: Rect, b: Rect) -> bool {
    &&& a.x < b.x + b.w
    &&& b.x < a.x + a.w
    &&& a.y < b.y + b.h
    &&& b.y < a.y + a.h
}

impl Rect {
    /// Corner within the supported coordinate range, positive bounded sides.
    pub open spec fn wf(self) -> bool {
        &&& -POS_LIMIT <= self.x <= POS_LIMIT
        &&& -POS_LIMIT <= self.y <= POS_LIMIT
        &&& 0 < self.w <= DIM_LIMIT
        &&& 0 < self.h <= DIM_LIMIT
    }

    pub fn new(x: i64, y: i64, w: i64, h: i64) -> (r: Rect)
        ensures
            r == (Rect { x, y, w, h }),
    {
        Rect { x, y, w, h }
    }

    /// AABB overlap test against another rectangle.
    pub fn overlaps(&self, other: &Rect) -> (r: bool)
        requires
            self.wf(),
            other.wf(),
        ensures
            r == overlaps_spec(*self, *other),
    {
        self.x < other.x + other.w && other.x < self.x + self.w && self.y < other.y + other.h
            && other.y < self.y + self.h
    }
}

} // verus!
