//! Affine matrices over fixed-point scalars: Euler rotation matrices,
//! scale-rotate-translate composition, and exact linear algebra for the
//! containment queries (determinants and Cramer solves).
//!
//! Convention: column vectors, so a point transforms as
//! `linear * v + translation`. Euler angles are XYZ order, meaning the
//! rotation matrix is `Rx * Ry * Rz`.

use crate::fixed::{
    div_i128, div_trunc, fx_mul, fx_mul_s, lemma_div_trunc_bound, lemma_fx_mul_unit,
    lemma_prod_bound, FX_MAT_BOUND, FX_ONE, FX_POSE_BOUND, FX_ROT_BOUND,
};
use crate::trig::{cos_s, cos_fx, sin_s, sin_fx};
use crate::vec3::{vec_in, Vec3};
use vstd::prelude::*;

verus! {

/// A 3x3 matrix of 16.16 fixed-point scalars; `yx` is row y, column x.
#[derive(Clone, Copy, PartialEq, Eq, Structural, Debug)]
pub struct Mat3 {
    pub xx: i64,
    pub xy: i64,
    pub xz: i64,
    pub yx: i64,
    pub yy: i64,
    pub yz: i64,
    pub zx: i64,
    pub zy: i64,
    pub zz: i64,
}

/// An affine transform: the top three rows of a 4x4 matrix whose bottom
/// row is `(0, 0, 0, 1)`.
#[derive(Clone, Copy, PartialEq, Eq, Structural, Debug)]
pub struct Mat4 {
    pub linear: Mat3,
    pub translation: Vec3,
}

/// Every entry of `m` has magnitude at most `b`.
pub open spec fn mat_in(m: Mat3, b: int) -> bool {
    &&& -b <= m.xx <= b && -b <= m.xy <= b && -b <= m.xz <= b
    &&& -b <= m.yx <= b && -b <= m.yy <= b && -b <= m.yz <= b
    &&& -b <= m.zx <= b && -b <= m.zy <= b && -b <= m.zz <= b
}

/// A well-formed affine matrix: linear entries within the matrix bound,
/// translation within the pose bound.
pub open spec fn mat4_wf(m: Mat4) -> bool {
    mat_in(m.linear, FX_MAT_BOUND as int) && vec_in(m.translation, FX_POSE_BOUND as int)
}

/// The rotation matrix of XYZ Euler angles (fixed-point degrees).
pub open spec fn rot_from_euler_s(r: Vec3) -> Mat3 {
    let sx = sin_s(r.x as int);
    let cx = cos_s(r.x as int);
    let sy = sin_s(r.y as int);
    let cy = cos_s(r.y as int);
    let sz = sin_s(r.z as int);
    let cz = cos_s(r.z as int);
    Mat3 {
        xx: fx_mul_s(cy, cz) as i64,
        xy: (-fx_mul_s(cy, sz)) as i64,
        xz: sy as i64,
        yx: (fx_mul_s(cx, sz) + fx_mul_s(sx, fx_mul_s(sy, cz))) as i64,
        yy: (fx_mul_s(cx, cz) - fx_mul_s(sx, fx_mul_s(sy, sz))) as i64,
        yz: (-fx_mul_s(sx, cy)) as i64,
        zx: (fx_mul_s(sx, sz) - fx_mul_s(cx, fx_mul_s(sy, cz))) as i64,
        zy: (fx_mul_s(sx, cz) + fx_mul_s(cx, fx_mul_s(sy, sz))) as i64,
        zz: fx_mul_s(cx, cy) as i64,
    }
}

/// Scale the columns of a rotation matrix by the scale components.
pub open spec fn scale_cols_s(r: Mat3, s: Vec3) -> Mat3 {
    Mat3 {
        xx: fx_mul_s(r.xx as int, s.x as int) as i64,
        yx: fx_mul_s(r.yx as int, s.x as int) as i64,
        zx: fx_mul_s(r.zx as int, s.x as int) as i64,
        xy: fx_mul_s(r.xy as int, s.y as int) as i64,
        yy: fx_mul_s(r.yy as int, s.y as int) as i64,
        zy: fx_mul_s(r.zy as int, s.y as int) as i64,
        xz: fx_mul_s(r.xz as int, s.z as int) as i64,
        yz: fx_mul_s(r.yz as int, s.z as int) as i64,
        zz: fx_mul_s(r.zz as int, s.z as int) as i64,
    }
}

/// Standard scale-rotate-translate composition.
pub open spec fn compose_s(scale: Vec3, rotation: Vec3, pos: Vec3) -> Mat4 {
    Mat4 { linear: scale_cols_s(rot_from_euler_s(rotation), scale), translation: pos }
}

/// Apply the linear part to a vector (row dot, scaled back once).
pub open spec fn apply_linear_s(m: Mat3, v: Vec3) -> Vec3 {
    Vec3 {
        x: div_trunc(m.xx * v.x + m.xy * v.y + m.xz * v.z, FX_ONE as int) as i64,
        y: div_trunc(m.yx * v.x + m.yy * v.y + m.yz * v.z, FX_ONE as int) as i64,
        z: div_trunc(m.zx * v.x + m.zy * v.y + m.zz * v.z, FX_ONE as int) as i64,
    }
}

/// Transpose.
pub open spec fn transpose_s(m: Mat3) -> Mat3 {
    Mat3 {
        xx: m.xx,
        xy: m.yx,
        xz: m.zx,
        yx: m.xy,
        yy: m.yy,
        yz: m.zy,
        zx: m.xz,
        zy: m.yz,
        zz: m.zz,
    }
}

/// Determinant of the rows `(a1 a2 a3; b1 b2 b3; c1 c2 c3)`.
pub open spec fn det3_s(
    a1: int,
    a2: int,
    a3: int,
    b1: int,
    b2: int,
    b3: int,
    c1: int,
    c2: int,
    c3: int,
) -> int {
    a1 * (b2 * c3 - b3 * c2) - a2 * (b1 * c3 - b3 * c1) + a3 * (b1 * c2 - b2 * c1)
}

/// Determinant of the linear part (scale: fixed point cubed).
pub open spec fn det_s(m: Mat3) -> int {
    det3_s(
        m.xx as int,
        m.xy as int,
        m.xz as int,
        m.yx as int,
        m.yy as int,
        m.yz as int,
        m.zx as int,
        m.zy as int,
        m.zz as int,
    )
}

/// Identity matrix.
pub open spec fn identity_s() -> Mat3 {
    Mat3 {
        xx: FX_ONE,
        xy: 0,
        xz: 0,
        yx: 0,
        yy: FX_ONE,
        yz: 0,
        zx: 0,
        zy: 0,
        zz: FX_ONE,
    }
}

/// Product of two unit-bounded fixed-point scalars stays unit-bounded.
fn mul_unit(a: i64, b: i64) -> (r: i64)
    requires
        -(FX_ONE as int) <= a <= FX_ONE as int,
        -(FX_ONE as int) <= b <= FX_ONE as int,
    ensures
        r as int == fx_mul_s(a as int, b as int),
        -(FX_ONE as int) <= r <= FX_ONE as int,
{
    proof {
        lemma_prod_bound(a as int, b as int, 65536, 65536);
        lemma_fx_mul_unit(a as int, b as int);
    }
    fx_mul(a, b)
}

/// Rotation matrix of XYZ Euler angles in fixed-point degrees.
pub fn rot_from_euler(r: Vec3) -> (m: Mat3)
    requires
        vec_in(r, FX_POSE_BOUND as int),
    ensures
        m == rot_from_euler_s(r),
        mat_in(m, FX_ROT_BOUND as int),
{
    let sx = sin_fx(r.x);
    let cx = cos_fx(r.x);
    let sy = sin_fx(r.y);
    let cy = cos_fx(r.y);
    let sz = sin_fx(r.z);
    let cz = cos_fx(r.z);
    let sycz = mul_unit(sy, cz);
    let sysz = mul_unit(sy, sz);
    Mat3 {
        xx: mul_unit(cy, cz),
        xy: -mul_unit(cy, sz),
        xz: sy,
        yx: mul_unit(cx, sz) + mul_unit(sx, sycz),
        yy: mul_unit(cx, cz) - mul_unit(sx, sysz),
        yz: -mul_unit(sx, cy),
        zx: mul_unit(sx, sz) - mul_unit(cx, sycz),
        zy: mul_unit(sx, cz) + mul_unit(cx, sysz),
        zz: mul_unit(cx, cy),
    }
}

/// Product of a rotation entry and a pose scalar.
fn mul_rot_pose(a: i64, b: i64) -> (r: i64)
    requires
        -(FX_ROT_BOUND as int) <= a <= FX_ROT_BOUND as int,
        -(FX_POSE_BOUND as int) <= b <= FX_POSE_BOUND as int,
    ensures
        r as int == fx_mul_s(a as int, b as int),
        -(FX_MAT_BOUND as int) <= r <= FX_MAT_BOUND as int,
{
    proof {
        lemma_prod_bound(a as int, b as int, FX_ROT_BOUND as int, FX_POSE_BOUND as int);
        lemma_div_trunc_bound(
            (a as int) * (b as int),
            FX_ONE as int,
            (FX_ROT_BOUND as int) * (FX_POSE_BOUND as int),
        );
    }
    fx_mul(a, b)
}

/// Compose a scale, an XYZ Euler rotation, and a translation into one
/// affine matrix.
pub fn compose(scale: Vec3, rotation: Vec3, pos: Vec3) -> (m: Mat4)
    requires
        vec_in(scale, FX_POSE_BOUND as int),
        vec_in(rotation, FX_POSE_BOUND as int),
        vec_in(pos, FX_POSE_BOUND as int),
    ensures
        m == compose_s(scale, rotation, pos),
        mat4_wf(m),
{
    let r = rot_from_euler(rotation);
    let linear = Mat3 {
        xx: mul_rot_pose(r.xx, scale.x),
        yx: mul_rot_pose(r.yx, scale.x),
        zx: mul_rot_pose(r.zx, scale.x),
        xy: mul_rot_pose(r.xy, scale.y),
        yy: mul_rot_pose(r.yy, scale.y),
        zy: mul_rot_pose(r.zy, scale.y),
        xz: mul_rot_pose(r.xz, scale.z),
        yz: mul_rot_pose(r.yz, scale.z),
        zz: mul_rot_pose(r.zz, scale.z),
    };
    Mat4 { linear, translation: pos }
}

/// Magnitude bound for a rotation-matrix apply: each output component
/// is at most six times the input bound.
pub proof fn lemma_rot_apply_bound(m: Mat3, v: Vec3, b: int)
    requires
        mat_in(m, FX_ROT_BOUND as int),
        vec_in(v, b),
        0 <= b,
    ensures
        vec_in(apply_linear_s(m, v), 6 * b),
        -6 * b <= div_trunc(m.xx * v.x + m.xy * v.y + m.xz * v.z, FX_ONE as int) <= 6 * b,
        -6 * b <= div_trunc(m.yx * v.x + m.yy * v.y + m.yz * v.z, FX_ONE as int) <= 6 * b,
        -6 * b <= div_trunc(m.zx * v.x + m.zy * v.y + m.zz * v.z, FX_ONE as int) <= 6 * b,
{
    let rb = FX_ROT_BOUND as int;
    let one = FX_ONE as int;
    lemma_prod_bound(m.xx as int, v.x as int, rb, b);
    lemma_prod_bound(m.xy as int, v.y as int, rb, b);
    lemma_prod_bound(m.xz as int, v.z as int, rb, b);
    lemma_prod_bound(m.yx as int, v.x as int, rb, b);
    lemma_prod_bound(m.yy as int, v.y as int, rb, b);
    lemma_prod_bound(m.yz as int, v.z as int, rb, b);
    lemma_prod_bound(m.zx as int, v.x as int, rb, b);
    lemma_prod_bound(m.zy as int, v.y as int, rb, b);
    lemma_prod_bound(m.zz as int, v.z as int, rb, b);
    assert(3 * (rb * b) == (6 * b) * one) by (nonlinear_arith)
        requires
            rb == 0x2_0000,
            one == 65536,
    ;
    lemma_div_trunc_bound(m.xx * v.x + m.xy * v.y + m.xz * v.z, one, (6 * b) * one);
    lemma_div_trunc_bound(m.yx * v.x + m.yy * v.y + m.yz * v.z, one, (6 * b) * one);
    lemma_div_trunc_bound(m.zx * v.x + m.zy * v.y + m.zz * v.z, one, (6 * b) * one);
    vstd::arithmetic::div_mod::lemma_div_multiples_vanish(6 * b, one);
    assert((6 * b) * one == one * (6 * b)) by (nonlinear_arith);
}

/// Apply a rotation matrix to a vector.
pub fn rot_apply(m: &Mat3, v: Vec3) -> (r: Vec3)
    requires
        mat_in(*m, FX_ROT_BOUND as int),
        vec_in(v, 0x2_0000_0000_0000),
    ensures
        r == apply_linear_s(*m, v),
        vec_in(r, 6 * 0x2_0000_0000_0000int),
{
    proof {
        lemma_rot_apply_bound(*m, v, 0x2_0000_0000_0000);
        let rb = FX_ROT_BOUND as int;
        let vb = 0x2_0000_0000_0000int;
        lemma_prod_bound(m.xx as int, v.x as int, rb, vb);
        lemma_prod_bound(m.xy as int, v.y as int, rb, vb);
        lemma_prod_bound(m.xz as int, v.z as int, rb, vb);
        lemma_prod_bound(m.yx as int, v.x as int, rb, vb);
        lemma_prod_bound(m.yy as int, v.y as int, rb, vb);
        lemma_prod_bound(m.yz as int, v.z as int, rb, vb);
        lemma_prod_bound(m.zx as int, v.x as int, rb, vb);
        lemma_prod_bound(m.zy as int, v.y as int, rb, vb);
        lemma_prod_bound(m.zz as int, v.z as int, rb, vb);
    }
    let rx: i128 = (m.xx as i128) * (v.x as i128) + (m.xy as i128) * (v.y as i128) + (
    m.xz as i128) * (v.z as i128);
    let ry: i128 = (m.yx as i128) * (v.x as i128) + (m.yy as i128) * (v.y as i128) + (
    m.yz as i128) * (v.z as i128);
    let rz: i128 = (m.zx as i128) * (v.x as i128) + (m.zy as i128) * (v.y as i128) + (
    m.zz as i128) * (v.z as i128);
    Vec3 {
        x: div_i128(rx, FX_ONE as i128) as i64,
        y: div_i128(ry, FX_ONE as i128) as i64,
        z: div_i128(rz, FX_ONE as i128) as i64,
    }
}

/// Transpose a matrix (the inverse of an exact rotation).
pub fn transpose(m: &Mat3) -> (r: Mat3)
    ensures
        r == transpose_s(*m),
{
    Mat3 {
        xx: m.xx,
        xy: m.yx,
        xz: m.zx,
        yx: m.xy,
        yy: m.yy,
        yz: m.zy,
        zx: m.xz,
        zy: m.yz,
        zz: m.zz,
    }
}

/// Determinant of the linear part, exactly, in a wide intermediate.
pub fn det_wide(m: &Mat3) -> (r: i128)
    requires
        mat_in(*m, FX_MAT_BOUND as int),
    ensures
        r as int == det_s(*m),
{
    proof {
        let mb = FX_MAT_BOUND as int;
        lemma_prod_bound(m.yy as int, m.zz as int, mb, mb);
        lemma_prod_bound(m.yz as int, m.zy as int, mb, mb);
        lemma_prod_bound(m.yx as int, m.zz as int, mb, mb);
        lemma_prod_bound(m.yz as int, m.zx as int, mb, mb);
        lemma_prod_bound(m.yx as int, m.zy as int, mb, mb);
        lemma_prod_bound(m.yy as int, m.zx as int, mb, mb);
        lemma_prod_bound(m.xx as int, m.yy * m.zz - m.yz * m.zy, mb, 2 * mb * mb);
        lemma_prod_bound(m.xy as int, m.yx * m.zz - m.yz * m.zx, mb, 2 * mb * mb);
        lemma_prod_bound(m.xz as int, m.yx * m.zy - m.yy * m.zx, mb, 2 * mb * mb);
    }
    let c1: i128 = (m.yy as i128) * (m.zz as i128) - (m.yz as i128) * (m.zy as i128);
    let c2: i128 = (m.yx as i128) * (m.zz as i128) - (m.yz as i128) * (m.zx as i128);
    let c3: i128 = (m.yx as i128) * (m.zy as i128) - (m.yy as i128) * (m.zx as i128);
    (m.xx as i128) * c1 - (m.xy as i128) * c2 + (m.xz as i128) * c3
}

} // verus!
