//! Fixed-point scalars: the scale shared by lengths, multipliers and
//! fractions, division that rounds toward zero, and the integer square root.

use vstd::prelude::*;

verus! {

/// One world unit, the multiplier 1.0 and the fraction 1.0 are all `UNIT`.
pub const UNIT: u32 = 1000;

/// One second of simulated time, in microseconds.
pub const MICROS_PER_SECOND: u64 = 1_000_000;

/// The quotient `a / b` rounded toward zero, for a positive divisor.
pub open spec fn trunc_div(a: int, b: int) -> int
    recommends
        b > 0,
{
    if a >= 0 {
        a / b
    } else {
        -((-a) / b)
    }
}

/// `v` limited to the range of an `i32`.
pub open spec fn sat_i32(v: int) -> int {
    if v < i32::MIN as int {
        i32::MIN as int
    } else if v > i32::MAX as int {
        i32::MAX as int
    } else {
        v
    }
}

/// `v` limited to the interval `[lo, hi]`.
pub open spec fn clamp_int(v: int, lo: int, hi: int) -> int
    recommends
        lo <= hi,
{
    if v < lo {
        lo
    } else if v > hi {
        hi
    } else {
        v
    }
}

/// `r` is the largest natural number whose square does not exceed `n`.
pub open spec fn is_floor_sqrt(n: nat, r: nat) -> bool {
    r * r <= n < (r + 1) * (r + 1)
}

/// The floor of the square root of `n`.
pub open spec fn spec_isqrt(n: nat) -> nat {
    choose|r: nat| is_floor_sqrt(n, r)
}

/// Every natural number has a floor square root, and `spec_isqrt` is it.
pub proof fn lemma_isqrt_bounds(n: nat)
    ensures
        is_floor_sqrt(n, spec_isqrt(n)),
    decreases n,
{
    if n == 0 {
        assert(0nat * 0nat == 0 && (0nat + 1) * (0nat + 1) == 1) by (nonlinear_arith);
        assert(is_floor_sqrt(0, 0));
    } else {
        lemma_isqrt_bounds((n - 1) as nat);
        let p = spec_isqrt((n - 1) as nat);
        if (p + 1) * (p + 1) <= n {
            assert((p + 1) * (p + 1) < (p + 2) * (p + 2)) by (nonlinear_arith);
            assert(is_floor_sqrt(n, p + 1));
        } else {
            assert(is_floor_sqrt(n, p));
        }
    }
}

/// The floor square root is unique.
pub proof fn lemma_isqrt_unique(n: nat, r: nat)
    requires
        is_floor_sqrt(n, r),
    ensures
        spec_isqrt(n) == r,
{
    let s = spec_isqrt(n);
    assert(is_floor_sqrt(n, s));
    assert(s == r) by (nonlinear_arith)
        requires
            r * r <= n < (r + 1) * (r + 1),
            s * s <= n < (s + 1) * (s + 1),
    {
        if s < r {
            assert((s + 1) * (s + 1) <= r * r);
        } else if r < s {
            assert((r + 1) * (r + 1) <= s * s);
        }
    }
}

/// A larger argument never has a smaller floor square root.
pub proof fn lemma_isqrt_monotonic(a: nat, b: nat)
    requires
        a <= b,
    ensures
        spec_isqrt(a) <= spec_isqrt(b),
{
    lemma_isqrt_bounds(a);
    lemma_isqrt_bounds(b);
    let r = spec_isqrt(a);
    let s = spec_isqrt(b);
    assert(r <= s) by (nonlinear_arith)
        requires
            r * r <= a,
            a <= b,
            b < (s + 1) * (s + 1),
    {
        if s < r {
            assert((s + 1) * (s + 1) <= r * r);
        }
    }
}

/// The floor square root of a perfect square is its root.
pub proof fn lemma_isqrt_square(r: nat)
    ensures
        spec_isqrt(r * r) == r,
{
    assert(r * r < (r + 1) * (r + 1)) by (nonlinear_arith);
    lemma_isqrt_unique(r * r, r);
}

/// Computes the floor of the square root of `n` by bisection.
pub fn isqrt(n: u128) -> (r: u64)
    ensures
        r == spec_isqrt(n as nat),
{
    let mut lo: u128 = 0;
    let mut hi: u128 = 0x1_0000_0000_0000_0000;
    assert(hi * hi > n) by (nonlinear_arith)
        requires
            hi == 0x1_0000_0000_0000_0000,
            n <= u128::MAX,
    ;
    while hi - lo > 1
        invariant
            lo < hi <= 0x1_0000_0000_0000_0000,
            lo * lo <= n < hi * hi,
        decreases hi - lo,
    {
        let mid: u128 = lo + (hi - lo) / 2;
        assert(mid * mid <= 0xffff_ffff_ffff_ffff * 0xffff_ffff_ffff_ffff) by (nonlinear_arith)
            requires
                0 <= mid <= 0xffff_ffff_ffff_ffff,
        ;
        if mid * mid <= n {
            lo = mid;
        } else {
            hi = mid;
        }
    }
    proof {
        lemma_isqrt_unique(n as nat, lo as nat);
    }
    lo as u64
}

/// The exact product of two 32-bit factors.
pub fn wide_product(a: u32, b: u32) -> (p: u64)
    ensures
        p == a * b,
{
    assert(0 <= a * b <= 0xffff_ffff * 0xffff_ffff) by (nonlinear_arith)
        requires
            0 <= a <= 0xffff_ffff,
            0 <= b <= 0xffff_ffff,
    ;
    a as u64 * b as u64
}

/// Divides rounding toward zero: the sign of `a` is split off, the
/// magnitudes are divided, and the sign is put back.
pub fn div_trunc(a: i128, b: u128) -> (q: i128)
    requires
        0 < b <= i128::MAX,
        a > i128::MIN,
    ensures
        q == trunc_div(a as int, b as int),
{
    let d: i128 = b as i128;
    a / d
}

/// Limits a wide value to the range of an `i32`.
pub fn saturate(v: i128) -> (r: i32)
    ensures
        r == sat_i32(v as int),
{
    if v < -0x8000_0000 {
        -0x8000_0000
    } else if v > 0x7fff_ffff {
        0x7fff_ffff
    } else {
        v as i32
    }
}

} // verus!
