//! The scene object: a renderable asset reference, a composited
//! transform, a tint and render layer, and an optional collider. Pose
//! mutation delegates to the transform; the containment queries carry
//! world-space data into local space and test it against the asset's
//! bounds, rescaled by the current scale.

use crate::bounds::{bounds_wf, capsule_in_bounds_s, point_in_bounds_s, Bounds};
use crate::collider::{
    capsule_from_bounds, capsule_from_bounds_s, capsule_in, CapsuleCollider, Collider,
    ColliderType, FX_SCALED_BOUND,
};
use crate::decomp::{euler_of_s, scale_of_s, sdiv_s, FX_DECOMP_BOUND};
use crate::fixed::{
    div_i128, fx_mul_s, lemma_div_trunc_bound, lemma_prod_bound, FX_MAT_BOUND, FX_ONE,
    FX_POINT_BOUND, FX_POSE_BOUND, FX_SHAPE_BOUND,
};
use crate::mat::{
    apply_linear_s, det3_s, det_s, mat4_wf, mat_in, rot_apply, rot_from_euler, rot_from_euler_s,
    transpose, transpose_s, Mat4,
};
use crate::transform::{
    set_pos_s, set_rotation_s, set_scale_s, DecompositionError, MatrixContainer,
};
use crate::vec3::{vec_in, Vec3};
use vstd::prelude::*;

verus! {

/// A tint with 16.16 fixed-point channels; one whole unit is full
/// intensity.
#[derive(Clone, Copy, PartialEq, Eq, Structural, Debug)]
pub struct Color {
    pub r: i64,
    pub g: i64,
    pub b: i64,
    pub a: i64,
}

/// Which camera layers render the object.
#[derive(Clone, Copy, PartialEq, Eq, Structural, Debug)]
pub enum RenderLayer {
    Layer0,
    Layer1,
    Layer2,
    Layer3,
}

/// A reference to an immutable, shareable renderable asset: an opaque
/// handle for the renderer, plus the asset's local bounds as plain
/// values. Many scene objects may carry the same descriptor.
#[derive(Clone, Copy, PartialEq, Eq, Structural, Debug)]
pub struct ModelAsset {
    pub handle: u64,
    pub bounds: Bounds,
}

/// Everything the external renderer consumes for one draw: the current
/// matrix, the tint and the layer.
#[derive(Clone, Copy, PartialEq, Eq, Structural, Debug)]
pub struct DrawCall {
    pub matrix: Mat4,
    pub tint: Color,
    pub render_layer: RenderLayer,
}

/// A scene object.
pub struct Model {
    pub model: ModelAsset,
    pub matrix: MatrixContainer,
    pub tint: Color,
    pub render_layer: RenderLayer,
    pub collider: Option<Collider>,
}

/// The asset's own bounds, rescaled componentwise by the current scale.
pub open spec fn get_bounds_s(m: Model) -> Bounds {
    let s = m.matrix.scale;
    let b = m.model.bounds;
    Bounds {
        center: Vec3 {
            x: fx_mul_s(b.center.x as int, s.x as int) as i64,
            y: fx_mul_s(b.center.y as int, s.y as int) as i64,
            z: fx_mul_s(b.center.z as int, s.z as int) as i64,
        },
        dimensions: Vec3 {
            x: fx_mul_s(b.dimensions.x as int, s.x as int) as i64,
            y: fx_mul_s(b.dimensions.y as int, s.y as int) as i64,
            z: fx_mul_s(b.dimensions.z as int, s.z as int) as i64,
        },
    }
}

/// The capsule derived from an object's current scaled bounds, placed
/// by the object's rotation and position.
pub open spec fn from_object_s(m: Model) -> CapsuleCollider {
    capsule_from_bounds_s(
        get_bounds_s(m),
        rot_from_euler_s(m.matrix.rotation),
        m.matrix.pos,
    )
}

/// The Cramer solution of `linear * v == point - translation`, scaled
/// to 16.16: the world point carried into local space by the full
/// inverse, scale included. Meaningful when the determinant is nonzero.
pub open spec fn local_sol_s(m: Mat4, p: Vec3) -> (int, int, int) {
    let l = m.linear;
    let bx = p.x - m.translation.x;
    let by = p.y - m.translation.y;
    let bz = p.z - m.translation.z;
    let d = det_s(l);
    let dx = det3_s(
        bx,
        l.xy as int,
        l.xz as int,
        by,
        l.yy as int,
        l.yz as int,
        bz,
        l.zy as int,
        l.zz as int,
    );
    let dy = det3_s(
        l.xx as int,
        bx,
        l.xz as int,
        l.yx as int,
        by,
        l.yz as int,
        l.zx as int,
        bz,
        l.zz as int,
    );
    let dz = det3_s(
        l.xx as int,
        l.xy as int,
        bx,
        l.yx as int,
        l.yy as int,
        by,
        l.zx as int,
        l.zy as int,
        bz,
    );
    let one = FX_ONE as int;
    (sdiv_s(dx * one, d), sdiv_s(dy * one, d), sdiv_s(dz * one, d))
}

/// Whether a world point falls in the object's scaled bounds after the
/// full inverse transform.
pub open spec fn contains_s(m: Model, p: Vec3) -> bool {
    let l = local_sol_s(m.matrix.mat4, p);
    point_in_bounds_s(get_bounds_s(m), Vec3 { x: l.0 as i64, y: l.1 as i64, z: l.2 as i64 })
}

/// Whether a world capsule touches the object's scaled bounds after the
/// rotation-and-translation-only inverse transform (scale excluded: the
/// capsule is already in world-scaled units).
pub open spec fn capsule_intersects_s(m: Model, c: CapsuleCollider) -> bool {
    let rt = transpose_s(rot_from_euler_s(m.matrix.rotation));
    let t = m.matrix.pos;
    let v1 = Vec3 {
        x: (c.point1.x - t.x) as i64,
        y: (c.point1.y - t.y) as i64,
        z: (c.point1.z - t.z) as i64,
    };
    let v2 = Vec3 {
        x: (c.point2.x - t.x) as i64,
        y: (c.point2.y - t.y) as i64,
        z: (c.point2.z - t.z) as i64,
    };
    capsule_in_bounds_s(
        get_bounds_s(m),
        apply_linear_s(rt, v1),
        apply_linear_s(rt, v2),
        c.radius as int,
    )
}

impl Model {
    /// Well-formed: the transform's fields and matrix are bounded and
    /// the asset's bounds are pose data.
    pub open spec fn wf(self) -> bool {
        &&& self.matrix.fields_wf()
        &&& mat4_wf(self.matrix.mat4)
        &&& vec_in(self.model.bounds.center, FX_POSE_BOUND as int)
        &&& vec_in(self.model.bounds.dimensions, FX_POSE_BOUND as int)
    }

    /// A fresh scene object for an asset: zero position and rotation,
    /// unit scale, opaque white tint, default layer, no collider.
    pub fn create_from_asset(asset: ModelAsset) -> (m: Model)
        requires
            vec_in(asset.bounds.center, FX_POSE_BOUND as int),
            vec_in(asset.bounds.dimensions, FX_POSE_BOUND as int),
        ensures
            m.model == asset,
            m.matrix.pos == (Vec3 { x: 0, y: 0, z: 0 }),
            m.matrix.rotation == (Vec3 { x: 0, y: 0, z: 0 }),
            m.matrix.scale == (Vec3 { x: FX_ONE as i64, y: FX_ONE as i64, z: FX_ONE as i64 }),
            m.matrix.synced(),
            m.tint == (Color { r: FX_ONE as i64, g: FX_ONE as i64, b: FX_ONE as i64, a: FX_ONE as i64 }),
            m.render_layer == RenderLayer::Layer0,
            m.collider is None,
            m.wf(),
    {
        let zero = Vec3 { x: 0, y: 0, z: 0 };
        let unit = Vec3 { x: FX_ONE, y: FX_ONE, z: FX_ONE };
        Model {
            model: asset,
            matrix: MatrixContainer::new(zero, zero, unit),
            tint: Color { r: FX_ONE, g: FX_ONE, b: FX_ONE, a: FX_ONE },
            render_layer: RenderLayer::Layer0,
            collider: None,
        }
    }

    /// Everything the renderer needs for this frame's draw of the
    /// object; handing it over is the caller's side effect, and nothing
    /// here changes.
    pub fn draw(&self) -> (d: DrawCall)
        ensures
            d.matrix == self.matrix.mat4,
            d.tint == self.tint,
            d.render_layer == self.render_layer,
    {
        DrawCall { matrix: self.matrix.mat4, tint: self.tint, render_layer: self.render_layer }
    }

    /// The asset's bounds rescaled by the current world scale.
    pub fn get_bounds(&self) -> (b: Bounds)
        requires
            self.wf(),
        ensures
            b == get_bounds_s(*self),
            vec_in(b.center, FX_SCALED_BOUND as int),
            vec_in(b.dimensions, FX_SCALED_BOUND as int),
            bounds_wf(b),
    {
        proof {
            lemma_scaled_bound(self.model.bounds.center.x as int, self.matrix.scale.x as int);
            lemma_scaled_bound(self.model.bounds.center.y as int, self.matrix.scale.y as int);
            lemma_scaled_bound(self.model.bounds.center.z as int, self.matrix.scale.z as int);
            lemma_scaled_bound(self.model.bounds.dimensions.x as int, self.matrix.scale.x as int);
            lemma_scaled_bound(self.model.bounds.dimensions.y as int, self.matrix.scale.y as int);
            lemma_scaled_bound(self.model.bounds.dimensions.z as int, self.matrix.scale.z as int);
        }
        Bounds {
            center: self.model.bounds.center.mul_fx(self.matrix.scale),
            dimensions: self.model.bounds.dimensions.mul_fx(self.matrix.scale),
        }
    }

    /// Whether a world point is inside the object: the point is carried
    /// into local space by the full inverse (scale included) and tested
    /// against the scaled bounds, boundary inclusive.
    pub fn contains(&self, point: Vec3) -> (r: bool)
        requires
            self.wf(),
            vec_in(point, FX_POSE_BOUND as int),
            det_s(self.matrix.mat4.linear) != 0,
            ({
                let l = local_sol_s(self.matrix.mat4, point);
                -(FX_POINT_BOUND as int) <= l.0 <= FX_POINT_BOUND as int
                    && -(FX_POINT_BOUND as int) <= l.1 <= FX_POINT_BOUND as int && -(
                FX_POINT_BOUND as int) <= l.2 <= FX_POINT_BOUND as int
            }),
        ensures
            r == contains_s(*self, point),
    {
        let m = &self.matrix.mat4;
        let bx: i64 = point.x - m.translation.x;
        let by: i64 = point.y - m.translation.y;
        let bz: i64 = point.z - m.translation.z;
        let l = &m.linear;
        let d: i128 = det3_wide(l.xx, l.xy, l.xz, l.yx, l.yy, l.yz, l.zx, l.zy, l.zz);
        let dx: i128 = det3_wide(bx, l.xy, l.xz, by, l.yy, l.yz, bz, l.zy, l.zz);
        let dy: i128 = det3_wide(l.xx, bx, l.xz, l.yx, by, l.yz, l.zx, bz, l.zz);
        let dz: i128 = det3_wide(l.xx, l.xy, bx, l.yx, l.yy, by, l.zx, l.zy, bz);
        let qx: i64 = scaled_quotient(dx, d);
        let qy: i64 = scaled_quotient(dy, d);
        let qz: i64 = scaled_quotient(dz, d);
        let local = Vec3 { x: qx, y: qy, z: qz };
        self.get_bounds().bounds_point_contains(local)
    }

    /// Dispatch an intersection test against this object's bounds on
    /// the collider's variant.
    pub fn collider_intersects(&self, collider: &Collider) -> (r: bool)
        requires
            self.wf(),
            *collider matches Collider::CapsuleCollider(c) && capsule_in(c, FX_SHAPE_BOUND as int),
        ensures
            ({
                let Collider::CapsuleCollider(c) = *collider;
                r == capsule_intersects_s(*self, c)
            }),
    {
        match collider {
            Collider::CapsuleCollider(c) => self.capsule_intersects(c),
        }
    }

    /// Whether a world capsule touches the object's scaled bounds. The
    /// inverse used here is rotation and translation only: the capsule
    /// was derived in world-scaled units already.
    pub fn capsule_intersects(&self, capsule_collider: &CapsuleCollider) -> (r: bool)
        requires
            self.wf(),
            capsule_in(*capsule_collider, FX_SHAPE_BOUND as int),
        ensures
            r == capsule_intersects_s(*self, *capsule_collider),
    {
        let rm = rot_from_euler(self.matrix.rotation);
        let rt = transpose(&rm);
        let t = self.matrix.pos;
        let v1 = capsule_collider.point1.minus(t);
        let v2 = capsule_collider.point2.minus(t);
        let p1 = rot_apply(&rt, v1);
        let p2 = rot_apply(&rt, v2);
        proof {
            crate::mat::lemma_rot_apply_bound(transpose_s(rot_from_euler_s(self.matrix.rotation)), v1, 0x2_0000_0000_0000);
            crate::mat::lemma_rot_apply_bound(transpose_s(rot_from_euler_s(self.matrix.rotation)), v2, 0x2_0000_0000_0000);
        }
        self.get_bounds().bounds_capsule_contains(p1, p2, capsule_collider.radius)
    }

    /// Regenerate the collider from the current world-space bounds,
    /// replacing any existing one. The tag picks the shape; today every
    /// shape is a capsule.
    pub fn set_collider(&mut self, collider: ColliderType)
        requires
            old(self).wf(),
        ensures
            final(self).collider == Some(
                Collider::CapsuleCollider(from_object_s(*old(self))),
            ),
            final(self).model == old(self).model,
            final(self).matrix == old(self).matrix,
            final(self).tint == old(self).tint,
            final(self).render_layer == old(self).render_layer,
    {
        let c = CapsuleCollider::from_object(self);
        self.collider = Some(Collider::CapsuleCollider(c));
    }

    /// A copy of the collider, regenerated from the current bounds
    /// first, so the result reflects the pose as it is now, not as it
    /// was when the collider was set. Nothing if no collider was set.
    pub fn get_collider(&mut self) -> (r: Option<Collider>)
        requires
            old(self).wf(),
        ensures
            old(self).collider is None ==> r is None && *final(self) == *old(self),
            old(self).collider is Some ==> {
                &&& r == Some(Collider::CapsuleCollider(from_object_s(*old(self))))
                &&& final(self).collider == r
                &&& final(self).model == old(self).model
                &&& final(self).matrix == old(self).matrix
                &&& final(self).tint == old(self).tint
                &&& final(self).render_layer == old(self).render_layer
            },
    {
        match self.collider {
            None => None,
            Some(existing) => {
                self.set_collider(existing.get_type());
                match self.collider {
                    Some(c) => Some(c),
                    None => None,
                }
            },
        }
    }
}

impl Model {
    /// The current position.
    pub fn get_pos_vec(&self) -> (p: Vec3)
        ensures
            p == self.matrix.pos,
    {
        self.matrix.get_pos_vec()
    }

    /// Overwrite the position and resync the matrix.
    pub fn set_pos_vec(&mut self, pos: Vec3)
        requires
            old(self).wf(),
            vec_in(pos, FX_POSE_BOUND as int),
        ensures
            final(self).matrix == set_pos_s(old(self).matrix, pos),
            final(self).model == old(self).model,
            final(self).tint == old(self).tint,
            final(self).render_layer == old(self).render_layer,
            final(self).collider == old(self).collider,
            final(self).wf(),
    {
        self.matrix.set_pos_vec(pos);
    }

    /// Add a translation to the position and resync the matrix.
    pub fn translate_vec(&mut self, translation: Vec3)
        requires
            old(self).wf(),
            vec_in(
                Vec3 {
                    x: (old(self).matrix.pos.x + translation.x) as i64,
                    y: (old(self).matrix.pos.y + translation.y) as i64,
                    z: (old(self).matrix.pos.z + translation.z) as i64,
                },
                FX_POSE_BOUND as int,
            ),
            i64::MIN <= old(self).matrix.pos.x + translation.x <= i64::MAX,
            i64::MIN <= old(self).matrix.pos.y + translation.y <= i64::MAX,
            i64::MIN <= old(self).matrix.pos.z + translation.z <= i64::MAX,
        ensures
            final(self).matrix == set_pos_s(
                old(self).matrix,
                Vec3 {
                    x: (old(self).matrix.pos.x + translation.x) as i64,
                    y: (old(self).matrix.pos.y + translation.y) as i64,
                    z: (old(self).matrix.pos.z + translation.z) as i64,
                },
            ),
            final(self).model == old(self).model,
            final(self).tint == old(self).tint,
            final(self).render_layer == old(self).render_layer,
            final(self).collider == old(self).collider,
            final(self).wf(),
    {
        self.matrix.translate_vec(translation);
    }

    /// The current rotation.
    pub fn get_rotation_vec(&self) -> (r: Vec3)
        ensures
            r == self.matrix.rotation,
    {
        self.matrix.get_rotation_vec()
    }

    /// Overwrite the rotation and resync the matrix.
    pub fn set_rotation_vec(&mut self, rotation: Vec3)
        requires
            old(self).wf(),
            vec_in(rotation, FX_POSE_BOUND as int),
        ensures
            final(self).matrix == set_rotation_s(old(self).matrix, rotation),
            final(self).model == old(self).model,
            final(self).tint == old(self).tint,
            final(self).render_layer == old(self).render_layer,
            final(self).collider == old(self).collider,
            final(self).wf(),
    {
        self.matrix.set_rotation_vec(rotation);
    }

    /// Add Euler angles componentwise and resync the matrix.
    pub fn rotate_vec(&mut self, rotation: Vec3)
        requires
            old(self).wf(),
            vec_in(
                Vec3 {
                    x: (old(self).matrix.rotation.x + rotation.x) as i64,
                    y: (old(self).matrix.rotation.y + rotation.y) as i64,
                    z: (old(self).matrix.rotation.z + rotation.z) as i64,
                },
                FX_POSE_BOUND as int,
            ),
            i64::MIN <= old(self).matrix.rotation.x + rotation.x <= i64::MAX,
            i64::MIN <= old(self).matrix.rotation.y + rotation.y <= i64::MAX,
            i64::MIN <= old(self).matrix.rotation.z + rotation.z <= i64::MAX,
        ensures
            final(self).matrix == set_rotation_s(
                old(self).matrix,
                Vec3 {
                    x: (old(self).matrix.rotation.x + rotation.x) as i64,
                    y: (old(self).matrix.rotation.y + rotation.y) as i64,
                    z: (old(self).matrix.rotation.z + rotation.z) as i64,
                },
            ),
            final(self).model == old(self).model,
            final(self).tint == old(self).tint,
            final(self).render_layer == old(self).render_layer,
            final(self).collider == old(self).collider,
            final(self).wf(),
    {
        self.matrix.rotate_vec(rotation);
    }

    /// The current scale.
    pub fn get_scale_vec(&self) -> (s: Vec3)
        ensures
            s == self.matrix.scale,
    {
        self.matrix.get_scale_vec()
    }

    /// Overwrite the scale and resync the matrix.
    pub fn set_scale_vec(&mut self, scale: Vec3)
        requires
            old(self).wf(),
            vec_in(scale, FX_POSE_BOUND as int),
        ensures
            final(self).matrix == set_scale_s(old(self).matrix, scale),
            final(self).model == old(self).model,
            final(self).tint == old(self).tint,
            final(self).render_layer == old(self).render_layer,
            final(self).collider == old(self).collider,
            final(self).wf(),
    {
        self.matrix.set_scale_vec(scale);
    }

    /// Add to the scale componentwise and resync the matrix.
    pub fn scale_vec(&mut self, scale: Vec3)
        requires
            old(self).wf(),
            vec_in(
                Vec3 {
                    x: (old(self).matrix.scale.x + scale.x) as i64,
                    y: (old(self).matrix.scale.y + scale.y) as i64,
                    z: (old(self).matrix.scale.z + scale.z) as i64,
                },
                FX_POSE_BOUND as int,
            ),
            i64::MIN <= old(self).matrix.scale.x + scale.x <= i64::MAX,
            i64::MIN <= old(self).matrix.scale.y + scale.y <= i64::MAX,
            i64::MIN <= old(self).matrix.scale.z + scale.z <= i64::MAX,
        ensures
            final(self).matrix == set_scale_s(
                old(self).matrix,
                Vec3 {
                    x: (old(self).matrix.scale.x + scale.x) as i64,
                    y: (old(self).matrix.scale.y + scale.y) as i64,
                    z: (old(self).matrix.scale.z + scale.z) as i64,
                },
            ),
            final(self).model == old(self).model,
            final(self).tint == old(self).tint,
            final(self).render_layer == old(self).render_layer,
            final(self).collider == old(self).collider,
            final(self).wf(),
    {
        self.matrix.scale_vec(scale);
    }

    /// The current matrix.
    pub fn get_matrix(&self) -> (m: Mat4)
        ensures
            m == self.matrix.mat4,
    {
        self.matrix.get_matrix()
    }

    /// Overwrite the matrix and refill the pose fields from its
    /// decomposition; a singular matrix is rejected unchanged.
    pub fn set_matrix(&mut self, matrix: Mat4) -> (r: Result<(), DecompositionError>)
        requires
            mat_in(matrix.linear, FX_DECOMP_BOUND as int),
            vec_in(matrix.translation, FX_POSE_BOUND as int),
        ensures
            r is Ok <==> det_s(matrix.linear) != 0,
            r is Ok ==> final(self).matrix == (MatrixContainer {
                mat4: matrix,
                pos: matrix.translation,
                rotation: euler_of_s(matrix.linear),
                scale: scale_of_s(matrix.linear),
            }),
            r is Err ==> final(self).matrix == old(self).matrix,
            final(self).model == old(self).model,
            final(self).tint == old(self).tint,
            final(self).render_layer == old(self).render_layer,
            final(self).collider == old(self).collider,
    {
        self.matrix.set_matrix(matrix)
    }
}

impl CapsuleCollider {
    /// Derive the capsule enclosing an object's current world-space
    /// bounds: endpoints along the scaled box's longest axis, carried
    /// to world space by the object's rotation and position.
    pub fn from_object(obj: &Model) -> (c: CapsuleCollider)
        requires
            obj.wf(),
        ensures
            c == from_object_s(*obj),
            capsule_in(c, FX_SHAPE_BOUND as int),
    {
        let b = obj.get_bounds();
        let rm = rot_from_euler(obj.matrix.rotation);
        capsule_from_bounds(&b, &rm, obj.matrix.pos)
    }
}

/// A product of two pose-bounded scalars, scaled back, stays within the
/// scaled-shape bound.
proof fn lemma_scaled_bound(a: int, b: int)
    requires
        -(FX_POSE_BOUND as int) <= a <= FX_POSE_BOUND as int,
        -(FX_POSE_BOUND as int) <= b <= FX_POSE_BOUND as int,
    ensures
        -(FX_SCALED_BOUND as int) <= fx_mul_s(a, b) <= FX_SCALED_BOUND as int,
{
    lemma_prod_bound(a, b, FX_POSE_BOUND as int, FX_POSE_BOUND as int);
    lemma_div_trunc_bound(a * b, FX_ONE as int, 0x4000_0000int * 0x4000_0000);
}

/// Determinant of rows `(a1 a2 a3; b1 b2 b3; c1 c2 c3)`, exactly.
#[verifier::rlimit(30)]
fn det3_wide(
    a1: i64,
    a2: i64,
    a3: i64,
    b1: i64,
    b2: i64,
    b3: i64,
    c1: i64,
    c2: i64,
    c3: i64,
) -> (r: i128)
    requires
        -(FX_MAT_BOUND as int) <= a1 <= FX_MAT_BOUND as int,
        -(FX_MAT_BOUND as int) <= a2 <= FX_MAT_BOUND as int,
        -(FX_MAT_BOUND as int) <= a3 <= FX_MAT_BOUND as int,
        -(FX_MAT_BOUND as int) <= b1 <= FX_MAT_BOUND as int,
        -(FX_MAT_BOUND as int) <= b2 <= FX_MAT_BOUND as int,
        -(FX_MAT_BOUND as int) <= b3 <= FX_MAT_BOUND as int,
        -(FX_MAT_BOUND as int) <= c1 <= FX_MAT_BOUND as int,
        -(FX_MAT_BOUND as int) <= c2 <= FX_MAT_BOUND as int,
        -(FX_MAT_BOUND as int) <= c3 <= FX_MAT_BOUND as int,
    ensures
        r as int == det3_s(
            a1 as int,
            a2 as int,
            a3 as int,
            b1 as int,
            b2 as int,
            b3 as int,
            c1 as int,
            c2 as int,
            c3 as int,
        ),
        -0x8_0000_0000_0000_0000_0000_0000 <= r <= 0x8_0000_0000_0000_0000_0000_0000,
{
    proof {
        let mb = FX_MAT_BOUND as int;
        lemma_prod_bound(b2 as int, c3 as int, mb, mb);
        lemma_prod_bound(b3 as int, c2 as int, mb, mb);
        lemma_prod_bound(b1 as int, c3 as int, mb, mb);
        lemma_prod_bound(b3 as int, c1 as int, mb, mb);
        lemma_prod_bound(b1 as int, c2 as int, mb, mb);
        lemma_prod_bound(b2 as int, c1 as int, mb, mb);
        lemma_prod_bound(a1 as int, b2 * c3 - b3 * c2, mb, 2 * mb * mb);
        lemma_prod_bound(a2 as int, b1 * c3 - b3 * c1, mb, 2 * mb * mb);
        lemma_prod_bound(a3 as int, b1 * c2 - b2 * c1, mb, 2 * mb * mb);
    }
    let m1: i128 = (b2 as i128) * (c3 as i128) - (b3 as i128) * (c2 as i128);
    let m2: i128 = (b1 as i128) * (c3 as i128) - (b3 as i128) * (c1 as i128);
    let m3: i128 = (b1 as i128) * (c2 as i128) - (b2 as i128) * (c1 as i128);
    (a1 as i128) * m1 - (a2 as i128) * m2 + (a3 as i128) * m3
}

/// The Cramer quotient `num * one / d` for a nonzero signed divisor.
fn scaled_quotient(num: i128, d: i128) -> (q: i64)
    requires
        d != 0,
        -0x8_0000_0000_0000_0000_0000_0000 <= num <= 0x8_0000_0000_0000_0000_0000_0000,
        -0x8_0000_0000_0000_0000_0000_0000 <= d <= 0x8_0000_0000_0000_0000_0000_0000,
        -(FX_POINT_BOUND as int) <= sdiv_s((num as int) * (FX_ONE as int), d as int) <= (
        FX_POINT_BOUND as int),
    ensures
        q as int == sdiv_s((num as int) * (FX_ONE as int), d as int),
{
    proof {
        lemma_prod_bound(num as int, 65536int, 0x8_0000_0000_0000_0000_0000_0000, 65536);
    }
    let scaled: i128 = num * (FX_ONE as i128);
    let w: i128 = if d > 0 {
        div_i128(scaled, d)
    } else {
        div_i128(-scaled, -d)
    };
    w as i64
}

} // verus!
