//! The composited transform: position, XYZ Euler rotation in
//! fixed-point degrees, and scale, kept in step with an affine matrix.
//!
//! Every field setter rebuilds the matrix before it returns, so the two
//! representations never diverge between public calls. Overwriting the
//! matrix goes the other way: the fields are refilled from a
//! decomposition, and a singular matrix is rejected without touching
//! anything.

use crate::decomp::{decompose, euler_of_s, scale_of_s, FX_DECOMP_BOUND};
use crate::mat::{compose, compose_s, det_s, mat4_wf, mat_in, Mat4};
use crate::vec3::{vec_in, Vec3};
use crate::fixed::FX_POSE_BOUND;
use vstd::prelude::*;

verus! {

/// The matrix handed to `set_matrix` has a singular linear part, so no
/// scale and rotation can be read back from it.
#[derive(Clone, Copy, PartialEq, Eq, Structural, Debug)]
pub struct DecompositionError;

/// A position, rotation and scale together with their composed affine
/// matrix.
#[derive(Clone, Copy, PartialEq, Eq, Structural, Debug)]
pub struct MatrixContainer {
    pub mat4: Mat4,
    pub pos: Vec3,
    pub rotation: Vec3,
    pub scale: Vec3,
}

/// The state after rebuilding the matrix from the pose fields.
pub open spec fn sync_matrix_s(t: MatrixContainer) -> MatrixContainer {
    MatrixContainer { mat4: compose_s(t.scale, t.rotation, t.pos), ..t }
}

/// The state after overwriting one pose field and resyncing.
pub open spec fn set_pos_s(t: MatrixContainer, p: Vec3) -> MatrixContainer {
    sync_matrix_s(MatrixContainer { pos: p, ..t })
}

pub open spec fn set_rotation_s(t: MatrixContainer, r: Vec3) -> MatrixContainer {
    sync_matrix_s(MatrixContainer { rotation: r, ..t })
}

pub open spec fn set_scale_s(t: MatrixContainer, s: Vec3) -> MatrixContainer {
    sync_matrix_s(MatrixContainer { scale: s, ..t })
}

impl MatrixContainer {
    /// The pose fields lie within the pose bound.
    pub open spec fn fields_wf(self) -> bool {
        &&& vec_in(self.pos, FX_POSE_BOUND as int)
        &&& vec_in(self.rotation, FX_POSE_BOUND as int)
        &&& vec_in(self.scale, FX_POSE_BOUND as int)
    }

    /// The matrix agrees with the composition of the pose fields.
    pub open spec fn synced(self) -> bool {
        self.mat4 == compose_s(self.scale, self.rotation, self.pos)
    }

    /// Well-formed: bounded fields and a bounded matrix.
    pub open spec fn wf(self) -> bool {
        self.fields_wf() && mat4_wf(self.mat4)
    }

    /// Build a transform from an explicit initial pose; the matrix is
    /// composed before the value is returned.
    pub fn new(pos: Vec3, rotation: Vec3, scale: Vec3) -> (t: MatrixContainer)
        requires
            vec_in(pos, FX_POSE_BOUND as int),
            vec_in(rotation, FX_POSE_BOUND as int),
            vec_in(scale, FX_POSE_BOUND as int),
        ensures
            t.pos == pos && t.rotation == rotation && t.scale == scale,
            t.synced(),
            t.wf(),
    {
        let mat4 = compose(scale, rotation, pos);
        MatrixContainer { mat4, pos, rotation, scale }
    }

    /// Rebuild the matrix from the pose fields.
    pub fn sync_matrix(&mut self)
        requires
            old(self).fields_wf(),
        ensures
            *final(self) == sync_matrix_s(*old(self)),
            final(self).synced(),
            final(self).wf(),
    {
        self.mat4 = compose(self.scale, self.rotation, self.pos);
    }

    /// Refill the pose fields from the matrix by decomposition. Fails,
    /// changing nothing, exactly when the linear part is singular.
    pub fn sync_fields(&mut self) -> (r: Result<(), DecompositionError>)
        requires
            mat_in(old(self).mat4.linear, FX_DECOMP_BOUND as int),
            vec_in(old(self).mat4.translation, FX_POSE_BOUND as int),
        ensures
            r is Ok <==> det_s(old(self).mat4.linear) != 0,
            r is Ok ==> *final(self) == (MatrixContainer {
                mat4: old(self).mat4,
                pos: old(self).mat4.translation,
                rotation: euler_of_s(old(self).mat4.linear),
                scale: scale_of_s(old(self).mat4.linear),
            }) && final(self).fields_wf(),
            r is Err ==> *final(self) == *old(self),
    {
        match decompose(&self.mat4.linear) {
            Some((s, e)) => {
                self.scale = s;
                self.rotation = e;
                self.pos = self.mat4.translation;
                Ok(())
            },
            None => Err(DecompositionError),
        }
    }

    /// The current matrix.
    pub fn get_matrix(&self) -> (m: Mat4)
        ensures
            m == self.mat4,
    {
        self.mat4
    }

    /// Overwrite the matrix, then refill position, rotation and scale
    /// from its decomposition. A singular matrix is rejected and the
    /// previous state is kept in full.
    pub fn set_matrix(&mut self, matrix: Mat4) -> (r: Result<(), DecompositionError>)
        requires
            mat_in(matrix.linear, FX_DECOMP_BOUND as int),
            vec_in(matrix.translation, FX_POSE_BOUND as int),
        ensures
            r is Ok <==> det_s(matrix.linear) != 0,
            r is Ok ==> *final(self) == (MatrixContainer {
                mat4: matrix,
                pos: matrix.translation,
                rotation: euler_of_s(matrix.linear),
                scale: scale_of_s(matrix.linear),
            }) && final(self).wf(),
            r is Err ==> *final(self) == *old(self),
    {
        match decompose(&matrix.linear) {
            Some((s, e)) => {
                self.mat4 = matrix;
                self.scale = s;
                self.rotation = e;
                self.pos = matrix.translation;
                Ok(())
            },
            None => Err(DecompositionError),
        }
    }

    /// The current position.
    pub fn get_pos_vec(&self) -> (p: Vec3)
        ensures
            p == self.pos,
    {
        self.pos
    }

    /// The current position, componentwise.
    pub fn get_pos(&self) -> (p: (i64, i64, i64))
        ensures
            p == (self.pos.x, self.pos.y, self.pos.z),
    {
        (self.pos.x, self.pos.y, self.pos.z)
    }

    /// Overwrite the position and resync the matrix.
    pub fn set_pos_vec(&mut self, pos: Vec3)
        requires
            old(self).fields_wf(),
            vec_in(pos, FX_POSE_BOUND as int),
        ensures
            *final(self) == set_pos_s(*old(self), pos),
            final(self).synced(),
            final(self).wf(),
    {
        self.pos = pos;
        self.sync_matrix();
    }

    /// Overwrite the position, componentwise.
    pub fn set_pos(&mut self, x: i64, y: i64, z: i64)
        requires
            old(self).fields_wf(),
            vec_in(Vec3 { x, y, z }, FX_POSE_BOUND as int),
        ensures
            *final(self) == set_pos_s(*old(self), Vec3 { x, y, z }),
            final(self).synced(),
            final(self).wf(),
    {
        self.set_pos_vec(Vec3 { x, y, z });
    }

    /// Add a translation to the position and resync the matrix.
    pub fn translate_vec(&mut self, translation: Vec3)
        requires
            old(self).fields_wf(),
            vec_in(
                Vec3 {
                    x: (old(self).pos.x + translation.x) as i64,
                    y: (old(self).pos.y + translation.y) as i64,
                    z: (old(self).pos.z + translation.z) as i64,
                },
                FX_POSE_BOUND as int,
            ),
            i64::MIN <= old(self).pos.x + translation.x <= i64::MAX,
            i64::MIN <= old(self).pos.y + translation.y <= i64::MAX,
            i64::MIN <= old(self).pos.z + translation.z <= i64::MAX,
        ensures
            *final(self) == set_pos_s(
                *old(self),
                Vec3 {
                    x: (old(self).pos.x + translation.x) as i64,
                    y: (old(self).pos.y + translation.y) as i64,
                    z: (old(self).pos.z + translation.z) as i64,
                },
            ),
            final(self).synced(),
            final(self).wf(),
    {
        self.pos = self.pos.plus(translation);
        self.sync_matrix();
    }

    /// Add a translation, componentwise.
    pub fn translate(&mut self, x: i64, y: i64, z: i64)
        requires
            old(self).fields_wf(),
            vec_in(
                Vec3 {
                    x: (old(self).pos.x + x) as i64,
                    y: (old(self).pos.y + y) as i64,
                    z: (old(self).pos.z + z) as i64,
                },
                FX_POSE_BOUND as int,
            ),
            i64::MIN <= old(self).pos.x + x <= i64::MAX,
            i64::MIN <= old(self).pos.y + y <= i64::MAX,
            i64::MIN <= old(self).pos.z + z <= i64::MAX,
        ensures
            *final(self) == set_pos_s(
                *old(self),
                Vec3 {
                    x: (old(self).pos.x + x) as i64,
                    y: (old(self).pos.y + y) as i64,
                    z: (old(self).pos.z + z) as i64,
                },
            ),
            final(self).synced(),
            final(self).wf(),
    {
        self.translate_vec(Vec3 { x, y, z });
    }

    /// The current rotation, XYZ Euler fixed-point degrees.
    pub fn get_rotation_vec(&self) -> (r: Vec3)
        ensures
            r == self.rotation,
    {
        self.rotation
    }

    /// The current rotation, componentwise.
    pub fn get_rotation(&self) -> (r: (i64, i64, i64))
        ensures
            r == (self.rotation.x, self.rotation.y, self.rotation.z),
    {
        (self.rotation.x, self.rotation.y, self.rotation.z)
    }

    /// Overwrite the rotation and resync the matrix.
    pub fn set_rotation_vec(&mut self, rotation: Vec3)
        requires
            old(self).fields_wf(),
            vec_in(rotation, FX_POSE_BOUND as int),
        ensures
            *final(self) == set_rotation_s(*old(self), rotation),
            final(self).synced(),
            final(self).wf(),
    {
        self.rotation = rotation;
        self.sync_matrix();
    }

    /// Overwrite the rotation, componentwise.
    pub fn set_rotation(&mut self, x: i64, y: i64, z: i64)
        requires
            old(self).fields_wf(),
            vec_in(Vec3 { x, y, z }, FX_POSE_BOUND as int),
        ensures
            *final(self) == set_rotation_s(*old(self), Vec3 { x, y, z }),
            final(self).synced(),
            final(self).wf(),
    {
        self.set_rotation_vec(Vec3 { x, y, z });
    }

    /// Add Euler angles componentwise and resync. This is deliberately
    /// not quaternion composition: repeated rotation about unaligned
    /// axes accumulates gimbal artifacts, and callers rely on the
    /// componentwise reading.
    pub fn rotate_vec(&mut self, rotation: Vec3)
        requires
            old(self).fields_wf(),
            vec_in(
                Vec3 {
                    x: (old(self).rotation.x + rotation.x) as i64,
                    y: (old(self).rotation.y + rotation.y) as i64,
                    z: (old(self).rotation.z + rotation.z) as i64,
                },
                FX_POSE_BOUND as int,
            ),
            i64::MIN <= old(self).rotation.x + rotation.x <= i64::MAX,
            i64::MIN <= old(self).rotation.y + rotation.y <= i64::MAX,
            i64::MIN <= old(self).rotation.z + rotation.z <= i64::MAX,
        ensures
            *final(self) == set_rotation_s(
                *old(self),
                Vec3 {
                    x: (old(self).rotation.x + rotation.x) as i64,
                    y: (old(self).rotation.y + rotation.y) as i64,
                    z: (old(self).rotation.z + rotation.z) as i64,
                },
            ),
            final(self).synced(),
            final(self).wf(),
    {
        self.rotation = self.rotation.plus(rotation);
        self.sync_matrix();
    }

    /// Add Euler angles, componentwise.
    pub fn rotate(&mut self, x: i64, y: i64, z: i64)
        requires
            old(self).fields_wf(),
            vec_in(
                Vec3 {
                    x: (old(self).rotation.x + x) as i64,
                    y: (old(self).rotation.y + y) as i64,
                    z: (old(self).rotation.z + z) as i64,
                },
                FX_POSE_BOUND as int,
            ),
            i64::MIN <= old(self).rotation.x + x <= i64::MAX,
            i64::MIN <= old(self).rotation.y + y <= i64::MAX,
            i64::MIN <= old(self).rotation.z + z <= i64::MAX,
        ensures
            *final(self) == set_rotation_s(
                *old(self),
                Vec3 {
                    x: (old(self).rotation.x + x) as i64,
                    y: (old(self).rotation.y + y) as i64,
                    z: (old(self).rotation.z + z) as i64,
                },
            ),
            final(self).synced(),
            final(self).wf(),
    {
        self.rotate_vec(Vec3 { x, y, z });
    }

    /// The current scale.
    pub fn get_scale_vec(&self) -> (s: Vec3)
        ensures
            s == self.scale,
    {
        self.scale
    }

    /// The current scale, componentwise.
    pub fn get_scale(&self) -> (s: (i64, i64, i64))
        ensures
            s == (self.scale.x, self.scale.y, self.scale.z),
    {
        (self.scale.x, self.scale.y, self.scale.z)
    }

    /// Overwrite the scale and resync the matrix. Zero and negative
    /// components pass through unchanged; no clamping happens here.
    pub fn set_scale_vec(&mut self, scale: Vec3)
        requires
            old(self).fields_wf(),
            vec_in(scale, FX_POSE_BOUND as int),
        ensures
            *final(self) == set_scale_s(*old(self), scale),
            final(self).synced(),
            final(self).wf(),
    {
        self.scale = scale;
        self.sync_matrix();
    }

    /// Overwrite the scale, componentwise.
    pub fn set_scale(&mut self, x: i64, y: i64, z: i64)
        requires
            old(self).fields_wf(),
            vec_in(Vec3 { x, y, z }, FX_POSE_BOUND as int),
        ensures
            *final(self) == set_scale_s(*old(self), Vec3 { x, y, z }),
            final(self).synced(),
            final(self).wf(),
    {
        self.set_scale_vec(Vec3 { x, y, z });
    }

    /// Add to the scale componentwise and resync the matrix.
    pub fn scale_vec(&mut self, scale: Vec3)
        requires
            old(self).fields_wf(),
            vec_in(
                Vec3 {
                    x: (old(self).scale.x + scale.x) as i64,
                    y: (old(self).scale.y + scale.y) as i64,
                    z: (old(self).scale.z + scale.z) as i64,
                },
                FX_POSE_BOUND as int,
            ),
            i64::MIN <= old(self).scale.x + scale.x <= i64::MAX,
            i64::MIN <= old(self).scale.y + scale.y <= i64::MAX,
            i64::MIN <= old(self).scale.z + scale.z <= i64::MAX,
        ensures
            *final(self) == set_scale_s(
                *old(self),
                Vec3 {
                    x: (old(self).scale.x + scale.x) as i64,
                    y: (old(self).scale.y + scale.y) as i64,
                    z: (old(self).scale.z + scale.z) as i64,
                },
            ),
            final(self).synced(),
            final(self).wf(),
    {
        self.scale = self.scale.plus(scale);
        self.sync_matrix();
    }

    /// Add to the scale, componentwise.
    pub fn scale(&mut self, x: i64, y: i64, z: i64)
        requires
            old(self).fields_wf(),
            vec_in(
                Vec3 {
                    x: (old(self).scale.x + x) as i64,
                    y: (old(self).scale.y + y) as i64,
                    z: (old(self).scale.z + z) as i64,
                },
                FX_POSE_BOUND as int,
            ),
            i64::MIN <= old(self).scale.x + x <= i64::MAX,
            i64::MIN <= old(self).scale.y + y <= i64::MAX,
            i64::MIN <= old(self).scale.z + z <= i64::MAX,
        ensures
            *final(self) == set_scale_s(
                *old(self),
                Vec3 {
                    x: (old(self).scale.x + x) as i64,
                    y: (old(self).scale.y + y) as i64,
                    z: (old(self).scale.z + z) as i64,
                },
            ),
            final(self).synced(),
            final(self).wf(),
    {
        self.scale_vec(Vec3 { x, y, z });
    }
}

/// Law: whatever the starting state, setting position, rotation and
/// scale in turn leaves the matrix equal to the scale-rotate-translate
/// composition of exactly the values set.
pub proof fn lemma_pose_setters_compose(t: MatrixContainer, p: Vec3, r: Vec3, s: Vec3)
    ensures
        set_scale_s(set_rotation_s(set_pos_s(t, p), r), s).mat4 == compose_s(s, r, p),
        set_scale_s(set_rotation_s(set_pos_s(t, p), r), s).pos == p,
        set_scale_s(set_rotation_s(set_pos_s(t, p), r), s).rotation == r,
        set_scale_s(set_rotation_s(set_pos_s(t, p), r), s).scale == s,
{
}

/// Law (round trip, axis-aligned case): a matrix composed from a
/// positive scale, zero rotation and any bounded position decomposes
/// back to exactly that scale, zero rotation and position, so writing
/// such a matrix with `set_matrix` and reading the pose back is
/// lossless. With a nonzero rotation the fixed-point trigonometry
/// rounds, and the round trip is only approximate: composing with
/// rotation (0, 30, 0) degrees, for instance, recovers the angle only
/// to within a fraction of a degree (the tests check such cases with a
/// tolerance).
pub proof fn lemma_axis_aligned_round_trip(s: Vec3, p: Vec3)
    requires
        0 < s.x <= FX_POSE_BOUND,
        0 < s.y <= FX_POSE_BOUND,
        0 < s.z <= FX_POSE_BOUND,
    ensures
        ({
            let m = compose_s(s, Vec3 { x: 0, y: 0, z: 0 }, p);
            &&& det_s(m.linear) != 0
            &&& scale_of_s(m.linear) == s
            &&& euler_of_s(m.linear) == (Vec3 { x: 0, y: 0, z: 0 })
            &&& m.translation == p
        }),
{
    let zero = Vec3 { x: 0, y: 0, z: 0 };
    let one = crate::fixed::FX_ONE as int;
    crate::trig::lemma_sin_zero();
    crate::trig::lemma_cos_zero();
    assert(65536int * 65536int == 4294967296) by (nonlinear_arith);
    assert(65536int * 0int == 0) by (nonlinear_arith);
    assert(0int * 65536int == 0) by (nonlinear_arith);
    assert(0int * 0int == 0) by (nonlinear_arith);
    let rm = crate::mat::rot_from_euler_s(zero);
    assert(rm == crate::mat::identity_s());
    let m = compose_s(s, zero, p);
    let l = m.linear;
    vstd::arithmetic::div_mod::lemma_div_multiples_vanish(s.x as int, one);
    vstd::arithmetic::div_mod::lemma_div_multiples_vanish(s.y as int, one);
    vstd::arithmetic::div_mod::lemma_div_multiples_vanish(s.z as int, one);
    assert(one * (s.x as int) == (s.x as int) * one) by (nonlinear_arith);
    assert(one * (s.y as int) == (s.y as int) * one) by (nonlinear_arith);
    assert(one * (s.z as int) == (s.z as int) * one) by (nonlinear_arith);
    assert(0 <= (s.x as int) * one && 0 <= (s.y as int) * one && 0 <= (s.z as int) * one)
        by (nonlinear_arith)
        requires
            0 < s.x && 0 < s.y && 0 < s.z,
            one == 65536,
    ;
    assert(l.xx == s.x && l.yy == s.y && l.zz == s.z);
    assert(l.xy == 0 && l.xz == 0 && l.yx == 0 && l.yz == 0 && l.zx == 0 && l.zy == 0);
    assert(det_s(l) == (s.x as int) * ((s.y as int) * (s.z as int)));
    assert(0 < (s.x as int) * ((s.y as int) * (s.z as int))) by (nonlinear_arith)
        requires
            0 < s.x && 0 < s.y && 0 < s.z,
    ;
    crate::fixed::lemma_sq_nonneg(s.x as int);
    crate::fixed::lemma_sq_nonneg(s.y as int);
    crate::fixed::lemma_sq_nonneg(s.z as int);
    crate::fixed::lemma_isqrt_square(s.x as int);
    crate::fixed::lemma_isqrt_square(s.y as int);
    crate::fixed::lemma_isqrt_square(s.z as int);
    assert(l.xx * l.xx + l.yx * l.yx + l.zx * l.zx == (s.x as int) * (s.x as int));
    let sc = scale_of_s(l);
    assert(sc == s);
    let r = crate::decomp::rot_of_s(l);
    vstd::arithmetic::div_mod::lemma_div_multiples_vanish(one, s.x as int);
    vstd::arithmetic::div_mod::lemma_div_multiples_vanish(one, s.y as int);
    vstd::arithmetic::div_mod::lemma_div_multiples_vanish(one, s.z as int);
    vstd::arithmetic::div_mod::lemma_div_of0(s.x as int);
    vstd::arithmetic::div_mod::lemma_div_of0(s.y as int);
    vstd::arithmetic::div_mod::lemma_div_of0(s.z as int);
    assert(0int * one == 0) by (nonlinear_arith);
    assert(r.xx == 65536 && r.yy == 65536 && r.zz == 65536);
    assert(r.xy == 0 && r.xz == 0 && r.yx == 0 && r.yz == 0 && r.zx == 0 && r.zy == 0);
    crate::decomp::lemma_asin_zero();
    crate::decomp::lemma_atan2_zero(65536);
    assert(euler_of_s(l) == (Vec3 { x: 0, y: 0, z: 0 }));
}

/// Law: resyncing the matrix twice without a field change in between
/// gives the same state, and the same matrix, as resyncing once.
pub proof fn lemma_sync_matrix_idempotent(t: MatrixContainer)
    ensures
        sync_matrix_s(sync_matrix_s(t)) == sync_matrix_s(t),
{
}

} // verus!
