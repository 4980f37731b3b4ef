//! Signed 16.16 fixed-point scalars and the handful of exact integer
//! operations the geometry layer is built on.
//!
//! A scalar `a: i64` stands for the real number `a / FX_ONE`. All
//! operations round toward zero, and each executable function is pinned
//! to a spec-level mirror so callers can reason about results exactly.

use vstd::prelude::*;
use vstd::arithmetic::div_mod::{
    lemma_div_is_ordered, lemma_div_nonincreasing, lemma_div_pos_is_pos,
    lemma_fundamental_div_mod, lemma_fundamental_div_mod_converse_mod, lemma_mod_multiples_basic,
    lemma_mod_pos_bound,
};

verus! {

/// One whole unit: 1.0 in 16.16 fixed point.
pub const FX_ONE: i64 = 65536;

/// Bound on pose state a caller hands in (positions, Euler degrees,
/// scale factors): 2^30, about 16 thousand whole units or degrees.
pub const FX_POSE_BOUND: i64 = 0x4000_0000;

/// Bound on the entries of a rotation matrix built here: each entry is
/// a short sum of unit-bounded products, at most two whole units.
pub const FX_ROT_BOUND: i64 = 0x2_0000;

/// Bound on the linear entries of a composed or caller-supplied affine
/// matrix: 2^31, twice the pose bound.
pub const FX_MAT_BOUND: i64 = 0x8000_0000;

/// Bound on shape data derived from pose state (scaled bounds, collider
/// endpoints and radii): 2^48. Products of two pose-bounded scalars and
/// short rotated sums of them stay under this.
pub const FX_SHAPE_BOUND: i64 = 0x1_0000_0000_0000;

/// Bound on points fed to the containment tests (query points carried
/// into local space): 2^52. Chosen so that squared distances and the
/// segment-parameter numerators all fit in `i128`.
pub const FX_POINT_BOUND: i64 = 0x10_0000_0000_0000;

/// Magnitude of an integer.
pub open spec fn mag(a: int) -> int {
    if a >= 0 {
        a
    } else {
        -a
    }
}

/// Division rounding toward zero; meaningful for `d > 0`.
pub open spec fn div_trunc(p: int, d: int) -> int {
    if p >= 0 {
        p / d
    } else {
        -((-p) / d)
    }
}

/// 16.16 fixed-point product, rounded toward zero.
pub open spec fn fx_mul_s(a: int, b: int) -> int {
    div_trunc(a * b, FX_ONE as int)
}

/// Clamp `x` into `[lo, hi]`; when `lo > hi` the lower bound wins.
pub open spec fn clamp_s(x: int, lo: int, hi: int) -> int {
    if x < lo {
        lo
    } else if x > hi {
        hi
    } else {
        x
    }
}

/// Squares are nonnegative.
pub proof fn lemma_sq_nonneg(a: int)
    by (nonlinear_arith)
    ensures
        0 <= a * a,
{
}

/// Bound on a product from bounds on its factors.
pub proof fn lemma_prod_bound(a: int, b: int, m: int, n: int)
    by (nonlinear_arith)
    requires
        -m <= a <= m,
        -n <= b <= n,
    ensures
        -(m * n) <= a * b <= m * n,
{
}

/// Truncating division shrinks magnitudes: for `d > 0` and `|p| <= n`,
/// `|div_trunc(p, d)| <= n / d`.
pub proof fn lemma_div_trunc_bound(p: int, d: int, n: int)
    requires
        0 < d,
        -n <= p <= n,
    ensures
        -(n / d) <= div_trunc(p, d) <= n / d,
        0 <= n / d,
{
    if p >= 0 {
        lemma_div_pos_is_pos(p, d);
        lemma_div_is_ordered(p, n, d);
    } else {
        lemma_div_pos_is_pos(-p, d);
        lemma_div_is_ordered(-p, n, d);
    }
    lemma_div_pos_is_pos(n, d);
}

/// A product with a factor of magnitude at most one whole unit shrinks:
/// `|fx_mul_s(a, b)| <= |a|` when `|b| <= FX_ONE`.
pub proof fn lemma_fx_mul_unit(a: int, b: int)
    requires
        -(FX_ONE as int) <= b <= FX_ONE as int,
    ensures
        -mag(a) <= fx_mul_s(a, b) <= mag(a),
{
    lemma_prod_bound(a, b, mag(a), FX_ONE as int);
    lemma_div_trunc_bound(a * b, FX_ONE as int, mag(a) * (FX_ONE as int));
    assert(mag(a) * (FX_ONE as int) == (FX_ONE as int) * mag(a)) by (nonlinear_arith);
    vstd::arithmetic::div_mod::lemma_div_multiples_vanish(mag(a), FX_ONE as int);
}

/// Truncating division of a wide intermediate value; `d > 0`.
pub fn div_i128(p: i128, d: i128) -> (r: i128)
    requires
        0 < d,
        i128::MIN < p,
    ensures
        r as int == div_trunc(p as int, d as int),
{
    proof {
        if p >= 0 {
            lemma_div_pos_is_pos(p as int, d as int);
            lemma_div_nonincreasing(p as int, d as int);
        } else {
            lemma_div_pos_is_pos(-(p as int), d as int);
            lemma_div_nonincreasing(-(p as int), d as int);
        }
    }
    p / d
}

/// 16.16 fixed-point multiply, rounded toward zero. The precondition
/// keeps the scaled-back product inside `i64`.
pub fn fx_mul(a: i64, b: i64) -> (r: i64)
    requires
        -0x7fff_ffff_ffff_ffff * (FX_ONE as int) <= a * b <= 0x7fff_ffff_ffff_ffff * (
        FX_ONE as int),
    ensures
        r as int == fx_mul_s(a as int, b as int),
{
    proof {
        lemma_prod_bound(a as int, b as int, 0x8000_0000_0000_0000, 0x8000_0000_0000_0000);
        lemma_div_trunc_bound(
            (a as int) * (b as int),
            FX_ONE as int,
            0x7fff_ffff_ffff_ffff * (FX_ONE as int),
        );
    }
    let p: i128 = (a as i128) * (b as i128);
    let q: i128 = div_i128(p, FX_ONE as i128);
    q as i64
}

/// Clamp `x` into `[lo, hi]`; when `lo > hi` the lower bound wins.
pub fn fx_clamp(x: i64, lo: i64, hi: i64) -> (r: i64)
    ensures
        r as int == clamp_s(x as int, lo as int, hi as int),
{
    if x < lo {
        lo
    } else if x > hi {
        hi
    } else {
        x
    }
}

/// Euclidean remainder: the representative of `a` modulo `m` in `[0, m)`.
pub fn euclid_mod(a: i64, m: i64) -> (r: i64)
    requires
        0 < m,
        i64::MIN < a,
    ensures
        r as int == (a as int) % (m as int),
        0 <= r < m,
{
    if a >= 0 {
        proof {
            lemma_mod_pos_bound(a as int, m as int);
        }
        a % m
    } else {
        let t: i64 = a % m;
        proof {
            let x = -(a as int);
            let k = x % (m as int);
            lemma_mod_pos_bound(x, m as int);
            lemma_fundamental_div_mod(x, m as int);
            let q = x / (m as int);
            assert(a as int == (-q) * (m as int) + (-k)) by (nonlinear_arith)
                requires
                    x == (m as int) * q + k,
                    a as int == -x,
            ;
            if k == 0 {
                lemma_mod_multiples_basic(-q, m as int);
            } else {
                assert(a as int == (-q - 1) * (m as int) + ((m as int) - k)) by (nonlinear_arith)
                    requires
                        a as int == (-q) * (m as int) + (-k),
                ;
                lemma_fundamental_div_mod_converse_mod(a as int, m as int, -q - 1, (m as int) - k);
            }
        }
        if t == 0 {
            t
        } else {
            t + m
        }
    }
}

/// Integer square root, defined by counting up; `isqrt_s(n)` is the
/// greatest `r` with `r * r <= n`.
pub open spec fn isqrt_s(n: int) -> int
    decreases n,
{
    if n <= 0 {
        0
    } else {
        let r = isqrt_s(n - 1);
        if (r + 1) * (r + 1) <= n {
            r + 1
        } else {
            r
        }
    }
}

/// The defining properties of `isqrt_s`.
pub proof fn lemma_isqrt_s(n: int)
    requires
        0 <= n,
    ensures
        0 <= isqrt_s(n),
        isqrt_s(n) * isqrt_s(n) <= n,
        n < (isqrt_s(n) + 1) * (isqrt_s(n) + 1),
    decreases n,
{
    if n == 0 {
    } else {
        lemma_isqrt_s(n - 1);
        let r = isqrt_s(n - 1);
        if (r + 1) * (r + 1) <= n {
            assert(n < ((r + 1) + 1) * ((r + 1) + 1)) by (nonlinear_arith)
                requires
                    0 <= r,
                    n - 1 < (r + 1) * (r + 1),
            ;
        }
    }
}

/// `isqrt_s` is the only nonnegative root bracket.
pub proof fn lemma_isqrt_unique(n: int, r: int)
    requires
        0 <= n,
        0 <= r,
        r * r <= n,
        n < (r + 1) * (r + 1),
    ensures
        r == isqrt_s(n),
{
    lemma_isqrt_s(n);
    let s = isqrt_s(n);
    if r < s {
        assert((r + 1) * (r + 1) <= s * s) by (nonlinear_arith)
            requires
                0 <= r,
                r + 1 <= s,
        ;
    }
    if s < r {
        assert((s + 1) * (s + 1) <= r * r) by (nonlinear_arith)
            requires
                0 <= s,
                s + 1 <= r,
        ;
    }
}

/// The integer square root of a perfect square is its root.
pub proof fn lemma_isqrt_square(v: int)
    requires
        0 <= v,
    ensures
        isqrt_s(v * v) == v,
{
    lemma_sq_nonneg(v);
    assert(v * v < (v + 1) * (v + 1)) by (nonlinear_arith)
        requires
            0 <= v,
    ;
    lemma_isqrt_unique(v * v, v);
}

/// Integer square root by bisection.
pub fn isqrt(n: u128) -> (r: u128)
    requires
        n < 0x4000_0000_0000_0000_0000_0000_0000_0000,
    ensures
        r as int == isqrt_s(n as int),
        r * r <= n,
{
    proof {
        lemma_isqrt_s(n as int);
    }
    let mut lo: u128 = 0;
    let mut hi: u128 = 0x8000_0000_0000_0000;
    proof {
        assert((hi as int) * (hi as int) == 0x4000_0000_0000_0000_0000_0000_0000_0000);
    }
    while lo + 1 < hi
        invariant
            lo < hi <= 0x8000_0000_0000_0000,
            (lo as int) * (lo as int) <= n as int,
            (n as int) < (hi as int) * (hi as int),
        decreases hi - lo,
    {
        let mid: u128 = lo + (hi - lo) / 2;
        proof {
            lemma_prod_bound(mid as int, mid as int, 0x8000_0000_0000_0000, 0x8000_0000_0000_0000);
        }
        if mid * mid <= n {
            lo = mid;
        } else {
            hi = mid;
        }
    }
    proof {
        lemma_isqrt_unique(n as int, lo as int);
    }
    lo
}

} // verus!
