//! Planar vectors with integer components, in thousandths of a world unit.
//!
//! Sums, differences and scalings saturate at the limits of `i32`; squared
//! lengths are exact.

use vstd::prelude::*;
use crate::fixed::{
    div_trunc, isqrt, lemma_isqrt_bounds, lemma_isqrt_monotonic, lemma_isqrt_square, sat_i32,
    saturate, spec_isqrt, trunc_div,
};

verus! {

/// A point or a displacement on the ground plane.
#[derive(Debug, Copy, Clone, PartialEq, Eq, Hash, Structural)]
pub struct Vec2 {
    pub x: i32,
    pub y: i32,
}

/// The squared length of the displacement `(dx, dy)`.
pub open spec fn spec_norm_squared(dx: int, dy: int) -> int {
    dx * dx + dy * dy
}

/// The length of `(dx, dy)` in millionths of its own unit, rounded down:
/// `floor(1000 * sqrt(dx^2 + dy^2))`.
pub open spec fn spec_scaled_length(dx: int, dy: int) -> nat {
    spec_isqrt((spec_norm_squared(dx, dy) * 1_000_000) as nat)
}

/// One component of the unit vector along `(dx, dy)`, in thousandths:
/// `c * 1000 / sqrt(dx^2 + dy^2)`, where `c` is `dx` or `dy`.
pub open spec fn spec_unit_component(c: int, dx: int, dy: int) -> int {
    trunc_div(c * 1_000_000, spec_scaled_length(dx, dy) as int)
}

/// The unit vector along `(dx, dy)`, or `fallback` for the zero displacement.
pub open spec fn spec_direction(dx: int, dy: int, fallback: Vec2) -> Vec2 {
    if dx == 0 && dy == 0 {
        fallback
    } else {
        Vec2 {
            x: spec_unit_component(dx, dx, dy) as i32,
            y: spec_unit_component(dy, dx, dy) as i32,
        }
    }
}

/// The scaled length of a displacement is at least a thousand times the
/// magnitude of either component, so a unit component never leaves
/// `[-1000, 1000]`.
pub proof fn lemma_unit_component_bound(c: int, dx: int, dy: int)
    requires
        c == dx || c == dy,
        dx != 0 || dy != 0,
    ensures
        spec_scaled_length(dx, dy) >= 1000,
        -1000 <= spec_unit_component(c, dx, dy) <= 1000,
        c > 0 ==> spec_unit_component(c, dx, dy) >= 0,
        c < 0 ==> spec_unit_component(c, dx, dy) <= 0,
        c == 0 ==> spec_unit_component(c, dx, dy) == 0,
{
    let n2 = spec_norm_squared(dx, dy);
    let len = spec_scaled_length(dx, dy);
    let m: int = if c >= 0 { c } else { -c };
    assert(dx * dx >= 0 && dy * dy >= 0 && m * m == c * c) by (nonlinear_arith)
        requires
            m == c || m == -c,
    ;
    assert(n2 >= 1) by (nonlinear_arith)
        requires
            n2 == dx * dx + dy * dy,
            dx != 0 || dy != 0,
    ;
    assert(1000nat * 1000nat == 1_000_000) by (nonlinear_arith);
    lemma_isqrt_square(1000);
    lemma_isqrt_monotonic(1_000_000, (n2 * 1_000_000) as nat);
    let k: nat = (1000 * m) as nat;
    assert(k * k == m * m * 1_000_000) by (nonlinear_arith)
        requires
            k == 1000 * m,
    ;
    assert(m * m * 1_000_000 <= n2 * 1_000_000) by (nonlinear_arith)
        requires
            m * m <= n2,
    ;
    lemma_isqrt_square(k);
    lemma_isqrt_monotonic(k * k, (n2 * 1_000_000) as nat);
    assert(len >= 1000 * m);
    let l: int = len as int;
    assert(0 <= (m * 1_000_000) / l <= 1000) by (nonlinear_arith)
        requires
            l >= 1000 * m,
            l >= 1000,
            m >= 0,
    ;
    if c == 0 {
        assert((0int * 1_000_000) / l == 0) by (nonlinear_arith)
            requires
                l >= 1000,
        ;
    }
}

/// The unit vector along a displacement of at most unit length is not the
/// zero vector.
pub proof fn lemma_unit_vector_is_not_zero(dx: int, dy: int)
    requires
        dx != 0 || dy != 0,
        spec_norm_squared(dx, dy) <= 1_000_000,
    ensures
        spec_unit_component(dx, dx, dy) != 0 || spec_unit_component(dy, dx, dy) != 0,
{
    let n2 = spec_norm_squared(dx, dy);
    let len = spec_scaled_length(dx, dy) as int;
    lemma_unit_component_bound(dx, dx, dy);
    assert(n2 >= 1) by (nonlinear_arith)
        requires
            n2 == dx * dx + dy * dy,
            dx != 0 || dy != 0,
    ;
    lemma_isqrt_bounds((n2 * 1_000_000) as nat);
    assert(len <= 1_000_000) by (nonlinear_arith)
        requires
            len * len <= n2 * 1_000_000,
            n2 <= 1_000_000,
            len >= 0,
    ;
    let c = if dx != 0 { dx } else { dy };
    let m = if c >= 0 { c } else { -c };
    assert((m * 1_000_000) / len >= 1) by (nonlinear_arith)
        requires
            m >= 1,
            0 < len <= 1_000_000,
    ;
}

/// Multiplying by a ratio of at most one moves a value toward zero, never
/// past it.
pub proof fn lemma_scale_shrinks(c: int, num: int, den: int)
    requires
        0 <= num,
        0 < den,
    ensures
        num <= den && c >= 0 ==> 0 <= trunc_div(c * num, den) <= c,
        num <= den && c <= 0 ==> c <= trunc_div(c * num, den) <= 0,
{
    if num <= den {
        if c >= 0 {
            assert(0 <= c * num && (c * num) / den <= c && 0 <= (c * num) / den)
                by (nonlinear_arith)
                requires
                    0 <= num <= den,
                    0 < den,
                    c >= 0,
            ;
        } else {
            assert(0 <= (-c) * num && ((-c) * num) / den <= -c && 0 <= ((-c) * num) / den && (-c)
                * num == -(c * num)) by (nonlinear_arith)
                requires
                    0 <= num <= den,
                    0 < den,
                    c < 0,
            ;
        }
    }
}

/// A component of at most unit size, weighted by `weight` thousandths,
/// is at most `weight` in size.
pub proof fn lemma_scale_grows(c: int, weight: int)
    requires
        -1000 <= c <= 1000,
        0 <= weight,
    ensures
        -weight <= trunc_div(c * weight, 1000) <= weight,
{
    if c >= 0 {
        assert(0 <= c * weight && (c * weight) / 1000 <= weight && 0 <= (c * weight) / 1000)
            by (nonlinear_arith)
            requires
                0 <= c <= 1000,
                0 <= weight,
        ;
    } else {
        assert(0 <= (-c) * weight && ((-c) * weight) / 1000 <= weight && 0 <= ((-c) * weight)
            / 1000 && (-c) * weight == -(c * weight)) by (nonlinear_arith)
            requires
                -1000 <= c < 0,
                0 <= weight,
        ;
    }
}

impl Vec2 {
    pub fn new(x: i32, y: i32) -> (v: Vec2)
        ensures
            v == (Vec2 { x, y }),
    {
        Vec2 { x, y }
    }

    /// The zero vector.
    pub fn zero() -> (v: Vec2)
        ensures
            v == (Vec2 { x: 0, y: 0 }),
    {
        Vec2 { x: 0, y: 0 }
    }

    /// The unit vector along the first axis.
    pub fn unit_x() -> (v: Vec2)
        ensures
            v == (Vec2 { x: 1000, y: 0 }),
    {
        Vec2 { x: 1000, y: 0 }
    }

    pub open spec fn is_zero(self) -> bool {
        self.x == 0 && self.y == 0
    }

    pub open spec fn spec_add(self, rhs: Vec2) -> Vec2 {
        Vec2 { x: sat_i32(self.x + rhs.x) as i32, y: sat_i32(self.y + rhs.y) as i32 }
    }

    pub open spec fn spec_sub(self, rhs: Vec2) -> Vec2 {
        Vec2 { x: sat_i32(self.x - rhs.x) as i32, y: sat_i32(self.y - rhs.y) as i32 }
    }

    pub open spec fn spec_neg(self) -> Vec2 {
        Vec2 { x: sat_i32(-self.x) as i32, y: sat_i32(-self.y) as i32 }
    }

    /// The vector turned a quarter turn counter-clockwise: `(-y, x)`.
    pub open spec fn spec_perp(self) -> Vec2 {
        Vec2 { x: sat_i32(-self.y) as i32, y: self.x }
    }

    /// Each component multiplied by `num / den`, rounded toward zero.
    pub open spec fn spec_scale(self, num: int, den: int) -> Vec2 {
        Vec2 {
            x: sat_i32(trunc_div(self.x * num, den)) as i32,
            y: sat_i32(trunc_div(self.y * num, den)) as i32,
        }
    }

    pub open spec fn spec_length_squared(self) -> int {
        spec_norm_squared(self.x as int, self.y as int)
    }

    pub open spec fn spec_distance_squared(self, other: Vec2) -> int {
        spec_norm_squared(other.x - self.x, other.y - self.y)
    }

    pub open spec fn spec_normalize_or(self, fallback: Vec2) -> Vec2 {
        spec_direction(self.x as int, self.y as int, fallback)
    }

    /// The unit vector that points from `self` to `target`.
    pub open spec fn spec_direction_to(self, target: Vec2, fallback: Vec2) -> Vec2 {
        spec_direction(target.x - self.x, target.y - self.y, fallback)
    }

    pub fn add(self, rhs: Vec2) -> (v: Vec2)
        ensures
            v == self.spec_add(rhs),
    {
        Vec2 {
            x: saturate(self.x as i128 + rhs.x as i128),
            y: saturate(self.y as i128 + rhs.y as i128),
        }
    }

    pub fn sub(self, rhs: Vec2) -> (v: Vec2)
        ensures
            v == self.spec_sub(rhs),
    {
        Vec2 {
            x: saturate(self.x as i128 - rhs.x as i128),
            y: saturate(self.y as i128 - rhs.y as i128),
        }
    }

    pub fn neg(self) -> (v: Vec2)
        ensures
            v == self.spec_neg(),
    {
        Vec2 { x: saturate(-(self.x as i128)), y: saturate(-(self.y as i128)) }
    }

    pub fn perp(self) -> (v: Vec2)
        ensures
            v == self.spec_perp(),
    {
        Vec2 { x: saturate(-(self.y as i128)), y: self.x }
    }

    /// Multiplies both components by the ratio `num / den`.
    pub fn scale(self, num: u64, den: u64) -> (v: Vec2)
        requires
            den > 0,
        ensures
            v == self.spec_scale(num as int, den as int),
            num <= den ==> {
                &&& self.x >= 0 ==> 0 <= v.x <= self.x
                &&& self.x <= 0 ==> self.x <= v.x <= 0
                &&& self.y >= 0 ==> 0 <= v.y <= self.y
                &&& self.y <= 0 ==> self.y <= v.y <= 0
            },
    {
        proof {
            lemma_scale_shrinks(self.x as int, num as int, den as int);
            lemma_scale_shrinks(self.y as int, num as int, den as int);
        }
        let n: i128 = num as i128;
        let x: i128 = self.x as i128;
        let y: i128 = self.y as i128;
        assert(-0x8000_0000 * 0x1_0000_0000_0000_0000 <= x * n <= 0x8000_0000
            * 0x1_0000_0000_0000_0000 && -0x8000_0000 * 0x1_0000_0000_0000_0000 <= y * n
            <= 0x8000_0000 * 0x1_0000_0000_0000_0000) by (nonlinear_arith)
            requires
                -0x8000_0000 <= x <= 0x8000_0000,
                -0x8000_0000 <= y <= 0x8000_0000,
                0 <= n <= 0x1_0000_0000_0000_0000,
        ;
        Vec2 {
            x: saturate(div_trunc(x * n, den as u128)),
            y: saturate(div_trunc(y * n, den as u128)),
        }
    }

    pub fn length_squared(self) -> (d: u128)
        ensures
            d == self.spec_length_squared(),
    {
        norm_squared(self.x as i64, self.y as i64)
    }

    pub fn distance_squared(self, other: Vec2) -> (d: u128)
        ensures
            d == self.spec_distance_squared(other),
            d <= 0x2_0000_0000_0000_0000,
    {
        norm_squared(other.x as i64 - self.x as i64, other.y as i64 - self.y as i64)
    }

    /// The unit vector along `self`, or `fallback` when `self` is zero.
    pub fn normalize_or(self, fallback: Vec2) -> (v: Vec2)
        ensures
            v == self.spec_normalize_or(fallback),
            !self.is_zero() ==> -1000 <= v.x <= 1000 && -1000 <= v.y <= 1000,
    {
        direction(self.x as i64, self.y as i64, fallback)
    }

    /// The unit vector along `self`, or the zero vector when `self` is zero.
    pub fn normalize_or_zero(self) -> (v: Vec2)
        ensures
            v == self.spec_normalize_or(Vec2 { x: 0, y: 0 }),
            -1000 <= v.x <= 1000 && -1000 <= v.y <= 1000,
    {
        direction(self.x as i64, self.y as i64, Vec2 { x: 0, y: 0 })
    }

    /// The unit vector from `self` toward `target`, or `fallback` when the
    /// two points coincide.
    pub fn direction_to(self, target: Vec2, fallback: Vec2) -> (v: Vec2)
        ensures
            v == self.spec_direction_to(target, fallback),
            target != self ==> -1000 <= v.x <= 1000 && -1000 <= v.y <= 1000,
    {
        direction(target.x as i64 - self.x as i64, target.y as i64 - self.y as i64, fallback)
    }
}

/// The exact squared length of a displacement between two points.
pub fn norm_squared(dx: i64, dy: i64) -> (d: u128)
    requires
        -0x1_0000_0000 <= dx <= 0x1_0000_0000,
        -0x1_0000_0000 <= dy <= 0x1_0000_0000,
    ensures
        d == spec_norm_squared(dx as int, dy as int),
        d <= 0x2_0000_0000_0000_0000,
{
    let x: i128 = dx as i128;
    let y: i128 = dy as i128;
    assert(0 <= x * x <= 0x1_0000_0000 * 0x1_0000_0000 && 0 <= y * y <= 0x1_0000_0000
        * 0x1_0000_0000) by (nonlinear_arith)
        requires
            -0x1_0000_0000 <= x <= 0x1_0000_0000,
            -0x1_0000_0000 <= y <= 0x1_0000_0000,
    ;
    (x * x + y * y) as u128
}

/// The unit vector along the displacement `(dx, dy)`.
pub fn direction(dx: i64, dy: i64, fallback: Vec2) -> (v: Vec2)
    requires
        -0x1_0000_0000 <= dx <= 0x1_0000_0000,
        -0x1_0000_0000 <= dy <= 0x1_0000_0000,
    ensures
        v == spec_direction(dx as int, dy as int, fallback),
        !(dx == 0 && dy == 0) ==> -1000 <= v.x <= 1000 && -1000 <= v.y <= 1000,
{
    if dx == 0 && dy == 0 {
        return fallback;
    }
    let n2: u128 = norm_squared(dx, dy);
    let len: u64 = isqrt(n2 * 1_000_000);
    proof {
        lemma_unit_component_bound(dx as int, dx as int, dy as int);
        lemma_unit_component_bound(dy as int, dx as int, dy as int);
    }
    let x: i128 = div_trunc(dx as i128 * 1_000_000, len as u128);
    let y: i128 = div_trunc(dy as i128 * 1_000_000, len as u128);
    Vec2 { x: x as i32, y: y as i32 }
}

} // verus!
