//! Decomposition of an affine matrix into scale, XYZ Euler rotation and
//! translation, together with the fixed-point inverse trigonometry it
//! needs.
//!
//! The arctangent kernel is the quadratic approximation
//! `atan z ~ 45 z + k z (1 - z)` degrees on `[0, 1]`, exact at 0 and 1
//! and within about a quarter of a degree elsewhere.

use crate::fixed::{
    clamp_s, div_i128, div_trunc, fx_clamp, fx_mul, fx_mul_s, isqrt, isqrt_s,
    lemma_div_trunc_bound, lemma_fx_mul_unit, lemma_isqrt_s, lemma_prod_bound, lemma_sq_nonneg,
    mag, FX_MAT_BOUND, FX_ONE, FX_POSE_BOUND,
};
use crate::mat::{det_s, det_wide, mat_in, Mat3};
use crate::trig::{FX_DEG_90, FX_DEG_180};
use crate::vec3::{vec_in, Vec3};
use vstd::prelude::*;
use vstd::arithmetic::div_mod::{lemma_div_multiples_vanish, lemma_div_pos_is_pos};

verus! {

/// Entry bound on matrices handed to the decomposition: 2^29, half the
/// pose bound, so that recovered column lengths stay within it.
pub const FX_DECOMP_BOUND: i64 = 0x2000_0000;

/// The linear coefficient of the arctangent kernel: about 15.64 degrees
/// in 16.16 fixed point.
pub const ATAN_K: i64 = 1025099;

/// Truncating division with a signed divisor; meaningful for `d != 0`.
pub open spec fn sdiv_s(p: int, d: int) -> int {
    if d >= 0 {
        div_trunc(p, d)
    } else {
        div_trunc(-p, -d)
    }
}

/// Arctangent kernel on `[0, 1]`, in fixed-point degrees.
pub open spec fn atan_arch_s(z: int) -> int {
    fx_mul_s(z, 45 * (FX_ONE as int) + fx_mul_s(ATAN_K as int, FX_ONE as int - z))
}

/// Full-quadrant arctangent in fixed-point degrees, in `(-180, 180]`.
pub open spec fn atan2_s(y: int, x: int) -> int {
    let ay = mag(y);
    let ax = mag(x);
    if ay == 0 && ax == 0 {
        0
    } else if ay <= ax {
        let base = atan_arch_s(div_trunc(ay * (FX_ONE as int), ax));
        let v = if x > 0 {
            base
        } else {
            FX_DEG_180 as int - base
        };
        if y >= 0 {
            v
        } else {
            -v
        }
    } else {
        let base = atan_arch_s(div_trunc(ax * (FX_ONE as int), ay));
        let w = if x >= 0 {
            FX_DEG_90 as int - base
        } else {
            FX_DEG_90 as int + base
        };
        if y >= 0 {
            w
        } else {
            -w
        }
    }
}

/// Arcsine in fixed-point degrees for `t` in `[-1, 1]`.
pub open spec fn asin_s(t: int) -> int {
    atan2_s(t, isqrt_s((FX_ONE as int) * (FX_ONE as int) - t * t))
}

/// The kernel maps `[0, 1]` into `[0, 61]` degrees.
pub proof fn lemma_atan_arch_bounds(z: int)
    requires
        0 <= z <= FX_ONE as int,
    ensures
        0 <= atan_arch_s(z) <= 61 * (FX_ONE as int),
{
    let one = FX_ONE as int;
    let k = ATAN_K as int;
    lemma_fx_mul_unit(k, one - z);
    let inner = fx_mul_s(k, one - z);
    assert(0 <= (k * (one - z))) by (nonlinear_arith)
        requires
            0 <= one - z,
            k == 1025099,
    ;
    lemma_div_pos_is_pos(k * (one - z), one);
    let f = 45 * one + inner;
    assert(45 * one <= f <= 61 * one);
    assert(z * f == f * z) by (nonlinear_arith);
    lemma_fx_mul_unit(f, z);
    lemma_prod_bound(z, f, one, 61 * one);
    lemma_div_trunc_bound(z * f, one, one * (61 * one));
    lemma_div_multiples_vanish(61 * one, one);
    assert(0 <= z * f) by (nonlinear_arith)
        requires
            0 <= z,
            0 <= f,
    ;
    lemma_div_pos_is_pos(z * f, one);
}

/// Arctangents are at most a half turn in magnitude.
pub proof fn lemma_atan2_bounds(y: int, x: int)
    ensures
        -(FX_DEG_180 as int) <= atan2_s(y, x) <= FX_DEG_180 as int,
{
    let one = FX_ONE as int;
    let ay = mag(y);
    let ax = mag(x);
    if ay == 0 && ax == 0 {
    } else if ay <= ax {
        lemma_div_trunc_bound(ay * one, ax, ax * one);
        lemma_prod_bound(ay, one, ax, one);
        lemma_div_multiples_vanish(one, ax);
        assert(ax * one == one * ax) by (nonlinear_arith);
        lemma_div_pos_is_pos(ay * one, ax);
        assert(0 <= ay * one) by (nonlinear_arith)
            requires
                0 <= ay,
                one == 65536,
        ;
        lemma_atan_arch_bounds(div_trunc(ay * one, ax));
    } else {
        lemma_div_trunc_bound(ax * one, ay, ay * one);
        lemma_prod_bound(ax, one, ay, one);
        lemma_div_multiples_vanish(one, ay);
        assert(ay * one == one * ay) by (nonlinear_arith);
        assert(0 <= ax * one) by (nonlinear_arith)
            requires
                0 <= ax,
                one == 65536,
        ;
        lemma_div_pos_is_pos(ax * one, ay);
        lemma_atan_arch_bounds(div_trunc(ax * one, ay));
    }
}

/// The arctangent of zero over a positive abscissa is exactly zero.
pub proof fn lemma_atan2_zero(x: int)
    requires
        0 < x,
    ensures
        atan2_s(0, x) == 0,
{
    let one = FX_ONE as int;
    assert(0int * one == 0) by (nonlinear_arith);
    vstd::arithmetic::div_mod::lemma_div_of0(x);
    let f = 45 * one + fx_mul_s(ATAN_K as int, one - 0);
    assert(0int * f == 0) by (nonlinear_arith);
    vstd::arithmetic::div_mod::lemma_div_of0(one);
    assert(atan_arch_s(0) == 0);
}

/// The arcsine of zero is exactly zero.
pub proof fn lemma_asin_zero()
    ensures
        asin_s(0) == 0,
{
    assert(0int * 0int == 0) by (nonlinear_arith);
    assert(65536int * 65536int == 4294967296) by (nonlinear_arith);
    crate::fixed::lemma_isqrt_square(65536);
    assert(isqrt_s((FX_ONE as int) * (FX_ONE as int) - 0int * 0) == 65536);
    lemma_atan2_zero(65536);
}

/// Arctangent kernel for `z` in `[0, 1]`.
fn atan_arch(z: i64) -> (r: i64)
    requires
        0 <= z <= FX_ONE,
    ensures
        r as int == atan_arch_s(z as int),
        0 <= r <= 61 * (FX_ONE as int),
{
    proof {
        lemma_atan_arch_bounds(z as int);
        lemma_prod_bound(ATAN_K as int, FX_ONE as int - z as int, 1025099, 65536);
        lemma_fx_mul_unit(ATAN_K as int, FX_ONE as int - z as int);
        let inner = fx_mul_s(ATAN_K as int, FX_ONE as int - z as int);
        lemma_prod_bound(z as int, 45 * (FX_ONE as int) + inner, 65536int, 45 * 65536 + 1025099int);
    }
    let inner: i64 = fx_mul(ATAN_K, FX_ONE - z);
    fx_mul(z, 45 * FX_ONE + inner)
}

/// Full-quadrant arctangent in fixed-point degrees.
pub fn atan2_fx(y: i64, x: i64) -> (r: i64)
    requires
        -(FX_MAT_BOUND as int) <= y <= FX_MAT_BOUND as int,
        -(FX_MAT_BOUND as int) <= x <= FX_MAT_BOUND as int,
    ensures
        r as int == atan2_s(y as int, x as int),
        -(FX_DEG_180 as int) <= r <= FX_DEG_180 as int,
{
    proof {
        lemma_atan2_bounds(y as int, x as int);
    }
    let ay: i64 = if y < 0 {
        -y
    } else {
        y
    };
    let ax: i64 = if x < 0 {
        -x
    } else {
        x
    };
    if ay == 0 && ax == 0 {
        return 0;
    }
    if ay <= ax {
        proof {
            let one = FX_ONE as int;
            lemma_prod_bound(ay as int, one, ax as int, one);
            lemma_div_trunc_bound((ay as int) * one, ax as int, (ax as int) * one);
            lemma_div_multiples_vanish(one, ax as int);
            assert((ax as int) * one == one * (ax as int)) by (nonlinear_arith);
            lemma_div_pos_is_pos((ay as int) * one, ax as int);
            assert(0 <= (ay as int) * one) by (nonlinear_arith)
                requires
                    0 <= ay as int,
                    one == 65536,
            ;
        }
        let z: i64 = div_i128((ay as i128) * (FX_ONE as i128), ax as i128) as i64;
        let base = atan_arch(z);
        let v: i64 = if x > 0 {
            base
        } else {
            FX_DEG_180 - base
        };
        if y >= 0 {
            v
        } else {
            -v
        }
    } else {
        proof {
            let one = FX_ONE as int;
            lemma_prod_bound(ax as int, one, ay as int, one);
            lemma_div_trunc_bound((ax as int) * one, ay as int, (ay as int) * one);
            lemma_div_multiples_vanish(one, ay as int);
            assert((ay as int) * one == one * (ay as int)) by (nonlinear_arith);
            lemma_div_pos_is_pos((ax as int) * one, ay as int);
            assert(0 <= (ax as int) * one) by (nonlinear_arith)
                requires
                    0 <= ax as int,
                    one == 65536,
            ;
        }
        let z: i64 = div_i128((ax as i128) * (FX_ONE as i128), ay as i128) as i64;
        let base = atan_arch(z);
        let w: i64 = if x >= 0 {
            FX_DEG_90 - base
        } else {
            FX_DEG_90 + base
        };
        if y >= 0 {
            w
        } else {
            -w
        }
    }
}

/// Arcsine in fixed-point degrees for `t` in `[-1, 1]`.
pub fn asin_fx(t: i64) -> (r: i64)
    requires
        -(FX_ONE as int) <= t <= FX_ONE as int,
    ensures
        r as int == asin_s(t as int),
        -(FX_DEG_180 as int) <= r <= FX_DEG_180 as int,
{
    proof {
        let one = FX_ONE as int;
        lemma_prod_bound(t as int, t as int, one, one);
        assert(0 <= (t as int) * (t as int)) by (nonlinear_arith);
        lemma_isqrt_s(one * one - (t as int) * (t as int));
        let n = one * one - (t as int) * (t as int);
        let c = isqrt_s(n);
        if c > one {
            assert((one + 1) * (one + 1) <= c * c) by (nonlinear_arith)
                requires
                    one + 1 <= c,
                    0 <= one,
            ;
        }
    }
    let n: u128 = ((FX_ONE as i128) * (FX_ONE as i128) - (t as i128) * (t as i128)) as u128;
    let c: i64 = isqrt(n) as i64;
    atan2_fx(t, c)
}

/// Squared length of a column, exactly.
fn col_norm2(a: i64, b: i64, c: i64) -> (r: i128)
    requires
        -(FX_DECOMP_BOUND as int) <= a <= FX_DECOMP_BOUND as int,
        -(FX_DECOMP_BOUND as int) <= b <= FX_DECOMP_BOUND as int,
        -(FX_DECOMP_BOUND as int) <= c <= FX_DECOMP_BOUND as int,
    ensures
        r as int == a * a + b * b + c * c,
        0 <= r <= 0xc00_0000_0000_0000,
{
    proof {
        lemma_prod_bound(a as int, a as int, FX_DECOMP_BOUND as int, FX_DECOMP_BOUND as int);
        lemma_prod_bound(b as int, b as int, FX_DECOMP_BOUND as int, FX_DECOMP_BOUND as int);
        lemma_prod_bound(c as int, c as int, FX_DECOMP_BOUND as int, FX_DECOMP_BOUND as int);
        assert(0 <= (a as int) * (a as int) && 0 <= (b as int) * (b as int) && 0 <= (c as int) * (
        c as int)) by (nonlinear_arith);
    }
    (a as i128) * (a as i128) + (b as i128) * (b as i128) + (c as i128) * (c as i128)
}

/// Recovered scale: column lengths, with the determinant's sign carried
/// on the x component, as the matrix cannot tell which axes flipped.
pub open spec fn scale_of_s(m: Mat3) -> Vec3 {
    let lx = isqrt_s(m.xx * m.xx + m.yx * m.yx + m.zx * m.zx);
    let ly = isqrt_s(m.xy * m.xy + m.yy * m.yy + m.zy * m.zy);
    let lz = isqrt_s(m.xz * m.xz + m.yz * m.yz + m.zz * m.zz);
    let sx = if det_s(m) < 0 {
        -lx
    } else {
        lx
    };
    Vec3 { x: sx as i64, y: ly as i64, z: lz as i64 }
}

/// Recovered rotation: columns divided by the recovered scale.
/// Meaningful when the determinant is nonzero.
pub open spec fn rot_of_s(m: Mat3) -> Mat3 {
    let s = scale_of_s(m);
    let one = FX_ONE as int;
    Mat3 {
        xx: sdiv_s(m.xx * one, s.x as int) as i64,
        yx: sdiv_s(m.yx * one, s.x as int) as i64,
        zx: sdiv_s(m.zx * one, s.x as int) as i64,
        xy: sdiv_s(m.xy * one, s.y as int) as i64,
        yy: sdiv_s(m.yy * one, s.y as int) as i64,
        zy: sdiv_s(m.zy * one, s.y as int) as i64,
        xz: sdiv_s(m.xz * one, s.z as int) as i64,
        yz: sdiv_s(m.yz * one, s.z as int) as i64,
        zz: sdiv_s(m.zz * one, s.z as int) as i64,
    }
}

/// Recovered XYZ Euler angles in fixed-point degrees, read off the
/// recovered rotation matrix. Meaningful when the determinant is
/// nonzero.
pub open spec fn euler_of_s(m: Mat3) -> Vec3 {
    let r = rot_of_s(m);
    let one = FX_ONE as int;
    Vec3 {
        x: atan2_s(-(r.yz as int), r.zz as int) as i64,
        y: asin_s(clamp_s(r.xz as int, -one, one)) as i64,
        z: atan2_s(-(r.xy as int), r.xx as int) as i64,
    }
}

/// Normalize one column entry by a recovered scale component.
fn norm_entry(e: i64, s: i64) -> (r: i64)
    requires
        s != 0,
        -0x4000_0000 <= s <= 0x4000_0000,
        -mag(s as int) <= e as int <= mag(s as int),
    ensures
        r as int == sdiv_s((e as int) * (FX_ONE as int), s as int),
        -(FX_ONE as int) <= r <= FX_ONE as int,
{
    proof {
        let one = FX_ONE as int;
        let sa = mag(s as int);
        lemma_prod_bound(e as int, one, sa, one);
        lemma_div_trunc_bound((e as int) * one, sa, sa * one);
        lemma_div_multiples_vanish(one, sa);
        assert(sa * one == one * sa) by (nonlinear_arith);
    }
    let num: i64 = e * FX_ONE;
    if s >= 0 {
        div_i128(num as i128, s as i128) as i64
    } else {
        div_i128(-(num as i128), -(s as i128)) as i64
    }
}

/// Decompose the linear part of an affine matrix into scale and Euler
/// angles. Returns nothing exactly when the matrix is singular; in that
/// case no sensible scale and rotation exist.
pub fn decompose(m: &Mat3) -> (r: Option<(Vec3, Vec3)>)
    requires
        mat_in(*m, FX_DECOMP_BOUND as int),
    ensures
        r is Some <==> det_s(*m) != 0,
        r matches Some(p) ==> p.0 == scale_of_s(*m) && p.1 == euler_of_s(*m) && vec_in(
            p.0,
            FX_POSE_BOUND as int,
        ) && vec_in(p.1, FX_POSE_BOUND as int),
{
    let d: i128 = det_wide(m);
    if d == 0 {
        return None;
    }
    let nx = col_norm2(m.xx, m.yx, m.zx);
    let ny = col_norm2(m.xy, m.yy, m.zy);
    let nz = col_norm2(m.xz, m.yz, m.zz);
    proof {
        lemma_nonzero_det_columns(*m);
        lemma_isqrt_s(nx as int);
        lemma_isqrt_s(ny as int);
        lemma_isqrt_s(nz as int);
        lemma_isqrt_below(nx as int, 0x4000_0000);
        lemma_isqrt_below(ny as int, 0x4000_0000);
        lemma_isqrt_below(nz as int, 0x4000_0000);
    }
    let lx: i64 = isqrt(nx as u128) as i64;
    let ly: i64 = isqrt(ny as u128) as i64;
    let lz: i64 = isqrt(nz as u128) as i64;
    proof {
        lemma_sq_nonneg(m.xx as int);
        lemma_sq_nonneg(m.yx as int);
        lemma_sq_nonneg(m.zx as int);
        lemma_sq_nonneg(m.xy as int);
        lemma_sq_nonneg(m.yy as int);
        lemma_sq_nonneg(m.zy as int);
        lemma_sq_nonneg(m.xz as int);
        lemma_sq_nonneg(m.yz as int);
        lemma_sq_nonneg(m.zz as int);
        lemma_entry_le_len(m.xx as int, nx as int, lx as int);
        lemma_entry_le_len(m.yx as int, nx as int, lx as int);
        lemma_entry_le_len(m.zx as int, nx as int, lx as int);
        lemma_entry_le_len(m.xy as int, ny as int, ly as int);
        lemma_entry_le_len(m.yy as int, ny as int, ly as int);
        lemma_entry_le_len(m.zy as int, ny as int, ly as int);
        lemma_entry_le_len(m.xz as int, nz as int, lz as int);
        lemma_entry_le_len(m.yz as int, nz as int, lz as int);
        lemma_entry_le_len(m.zz as int, nz as int, lz as int);
    }
    proof {
        lemma_isqrt_pos(nx as int);
        lemma_isqrt_pos(ny as int);
        lemma_isqrt_pos(nz as int);
    }
    let sx: i64 = if d < 0 {
        -lx
    } else {
        lx
    };
    let rxx = norm_entry(m.xx, sx);
    let ryx = norm_entry(m.yx, sx);
    let rzx = norm_entry(m.zx, sx);
    let rxy = norm_entry(m.xy, ly);
    let ryy = norm_entry(m.yy, ly);
    let rzy = norm_entry(m.zy, ly);
    let rxz = norm_entry(m.xz, lz);
    let ryz = norm_entry(m.yz, lz);
    let rzz = norm_entry(m.zz, lz);
    let ey = asin_fx(fx_clamp(rxz, -FX_ONE, FX_ONE));
    let ex = atan2_fx(-ryz, rzz);
    let ez = atan2_fx(-rxy, rxx);
    Some((Vec3 { x: sx, y: ly, z: lz }, Vec3 { x: ex, y: ey, z: ez }))
}

/// A singular matrix is the only way to a zero column: if the
/// determinant is nonzero, every column has squared length at least one.
proof fn lemma_nonzero_det_columns(m: Mat3)
    requires
        det_s(m) != 0,
    ensures
        1 <= m.xx * m.xx + m.yx * m.yx + m.zx * m.zx,
        1 <= m.xy * m.xy + m.yy * m.yy + m.zy * m.zy,
        1 <= m.xz * m.xz + m.yz * m.yz + m.zz * m.zz,
{
    if m.xx == 0 && m.yx == 0 && m.zx == 0 {
        assert(det_s(m) == 0) by (nonlinear_arith)
            requires
                m.xx == 0 && m.yx == 0 && m.zx == 0,
                det_s(m) == crate::mat::det3_s(
                    m.xx as int,
                    m.xy as int,
                    m.xz as int,
                    m.yx as int,
                    m.yy as int,
                    m.yz as int,
                    m.zx as int,
                    m.zy as int,
                    m.zz as int,
                ),
        ;
    }
    if m.xy == 0 && m.yy == 0 && m.zy == 0 {
        assert(det_s(m) == 0) by (nonlinear_arith)
            requires
                m.xy == 0 && m.yy == 0 && m.zy == 0,
                det_s(m) == crate::mat::det3_s(
                    m.xx as int,
                    m.xy as int,
                    m.xz as int,
                    m.yx as int,
                    m.yy as int,
                    m.yz as int,
                    m.zx as int,
                    m.zy as int,
                    m.zz as int,
                ),
        ;
    }
    if m.xz == 0 && m.yz == 0 && m.zz == 0 {
        assert(det_s(m) == 0) by (nonlinear_arith)
            requires
                m.xz == 0 && m.yz == 0 && m.zz == 0,
                det_s(m) == crate::mat::det3_s(
                    m.xx as int,
                    m.xy as int,
                    m.xz as int,
                    m.yx as int,
                    m.yy as int,
                    m.yz as int,
                    m.zx as int,
                    m.zy as int,
                    m.zz as int,
                ),
        ;
    }
    lemma_col_norm_pos(m.xx as int, m.yx as int, m.zx as int);
    lemma_col_norm_pos(m.xy as int, m.yy as int, m.zy as int);
    lemma_col_norm_pos(m.xz as int, m.yz as int, m.zz as int);
}

/// A column with a nonzero entry has squared length at least one.
proof fn lemma_col_norm_pos(a: int, b: int, c: int)
    by (nonlinear_arith)
    requires
        a != 0 || b != 0 || c != 0,
    ensures
        1 <= a * a + b * b + c * c,
{
}

/// A positive number has a positive integer square root.
proof fn lemma_isqrt_pos(n: int)
    requires
        1 <= n,
    ensures
        1 <= isqrt_s(n),
{
    lemma_isqrt_s(n);
    let r = isqrt_s(n);
    if r == 0 {
        assert((r + 1) * (r + 1) == 1) by (nonlinear_arith)
            requires
                r == 0,
        ;
    }
}

/// An integer square root below a bound, from a bound on its square.
proof fn lemma_isqrt_below(n: int, b: int)
    requires
        0 <= n,
        0 < b,
        n < b * b,
    ensures
        isqrt_s(n) < b,
{
    lemma_isqrt_s(n);
    let r = isqrt_s(n);
    if r >= b {
        assert(b * b <= r * r) by (nonlinear_arith)
            requires
                0 < b <= r,
        ;
    }
}

/// No column entry exceeds the column's length.
proof fn lemma_entry_le_len(e: int, n: int, l: int)
    requires
        0 <= n,
        e * e <= n,
        l == isqrt_s(n),
    ensures
        -l <= e <= l,
        0 <= l,
{
    lemma_isqrt_s(n);
    if e > l {
        assert((l + 1) * (l + 1) <= e * e) by (nonlinear_arith)
            requires
                0 <= l,
                l + 1 <= e,
        ;
    }
    if e < -l {
        assert((l + 1) * (l + 1) <= e * e) by (nonlinear_arith)
            requires
                0 <= l,
                l + 1 <= -e,
        ;
    }
}

} // verus!
