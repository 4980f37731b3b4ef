//! Collision shapes derived from an object's bounds. The one shape
//! today is a capsule; the dispatch is a tagged union with a single
//! exhaustive match, open to more variants.
//!
//! Capsule-against-capsule runs the classic closest-points-of-two-
//! segments computation (clamped 2x2 solve with endpoint fixups) in
//! exact integer arithmetic and compares the squared distance against
//! the squared sum of radii.

use crate::bounds::{dist2_s, lerp_s, Bounds};
use crate::fixed::{
    clamp_s, div_i128, div_trunc, isqrt, isqrt_s, lemma_div_trunc_bound, lemma_prod_bound,
    lemma_sq_nonneg, FX_ONE, FX_ROT_BOUND, FX_SHAPE_BOUND,
};
use crate::mat::{apply_linear_s, mat_in, rot_apply, Mat3};
use crate::vec3::{vec_in, Vec3};
use vstd::prelude::*;
use vstd::arithmetic::div_mod::lemma_div_pos_is_pos;

verus! {

/// Bound on capsule data fed to the pair test: 2^25, a neighborhood of
/// about 512 whole units, within which the fourth-power intermediates
/// of the segment-pair solve stay inside `i128`.
pub const FX_PAIR_BOUND: i64 = 0x200_0000;

/// The tag of a collider variant, used to regenerate a same-shaped
/// collider after a pose change.
#[derive(Clone, Copy, PartialEq, Eq, Structural, Debug)]
pub enum ColliderType {
    Capsule,
}

/// A swept sphere between two world-space points.
#[derive(Clone, Copy, PartialEq, Eq, Structural, Debug)]
pub struct CapsuleCollider {
    pub point1: Vec3,
    pub point2: Vec3,
    pub radius: i64,
}

/// A collision shape.
#[derive(Clone, Copy, PartialEq, Eq, Structural, Debug)]
pub enum Collider {
    CapsuleCollider(CapsuleCollider),
}

/// Capsule data within the pair-test neighborhood.
pub open spec fn capsule_in(c: CapsuleCollider, m: int) -> bool {
    vec_in(c.point1, m) && vec_in(c.point2, m) && 0 <= c.radius <= m
}

/// The clamped 16.16 parameters of the closest points of the segments
/// `p1..p2` and `q1..q2`, start points winning on degeneracy and exact
/// parallels treated as aligned.
pub open spec fn seg_pair_st_s(p1: Vec3, p2: Vec3, q1: Vec3, q2: Vec3) -> (int, int) {
    let one = FX_ONE as int;
    let d1x = p2.x - p1.x;
    let d1y = p2.y - p1.y;
    let d1z = p2.z - p1.z;
    let d2x = q2.x - q1.x;
    let d2y = q2.y - q1.y;
    let d2z = q2.z - q1.z;
    let rx = p1.x - q1.x;
    let ry = p1.y - q1.y;
    let rz = p1.z - q1.z;
    let a = d1x * d1x + d1y * d1y + d1z * d1z;
    let e = d2x * d2x + d2y * d2y + d2z * d2z;
    let f = d2x * rx + d2y * ry + d2z * rz;
    if a == 0 && e == 0 {
        (0, 0)
    } else if a == 0 {
        (0, clamp_s(div_trunc(f * one, e), 0, one))
    } else {
        let c = d1x * rx + d1y * ry + d1z * rz;
        if e == 0 {
            (clamp_s(div_trunc(-c * one, a), 0, one), 0)
        } else {
            let b = d1x * d2x + d1y * d2y + d1z * d2z;
            let denom = a * e - b * b;
            let s0 = if denom > 0 {
                clamp_s(div_trunc((b * f - c * e) * one, denom), 0, one)
            } else {
                0
            };
            let t0 = div_trunc(b * s0 + f * one, e);
            if t0 < 0 {
                (clamp_s(div_trunc(-c * one, a), 0, one), 0)
            } else if t0 > one {
                (clamp_s(div_trunc((b - c) * one, a), 0, one), one)
            } else {
                (s0, t0)
            }
        }
    }
}

/// Squared distance between the closest points of the two capsules'
/// core segments.
pub open spec fn seg_pair_dist2_s(p1: Vec3, p2: Vec3, q1: Vec3, q2: Vec3) -> int {
    let st = seg_pair_st_s(p1, p2, q1, q2);
    let ax = lerp_s(p1.x as int, p2.x - p1.x, st.0);
    let ay = lerp_s(p1.y as int, p2.y - p1.y, st.0);
    let az = lerp_s(p1.z as int, p2.z - p1.z, st.0);
    let bx = lerp_s(q1.x as int, q2.x - q1.x, st.1);
    let by = lerp_s(q1.y as int, q2.y - q1.y, st.1);
    let bz = lerp_s(q1.z as int, q2.z - q1.z, st.1);
    dist2_s(ax, ay, az, bx, by, bz)
}

/// Two capsules touch when their core segments come within the sum of
/// the radii.
pub open spec fn capsules_intersect_s(c1: CapsuleCollider, c2: CapsuleCollider) -> bool {
    seg_pair_dist2_s(c1.point1, c1.point2, c2.point1, c2.point2) <= (c1.radius + c2.radius) * (
    c1.radius + c2.radius)
}

impl CapsuleCollider {
    /// Whether this capsule touches another: the minimum distance
    /// between the core segments is at most the sum of the radii.
    pub fn intersects_capsule(&self, other: &CapsuleCollider) -> (r: bool)
        requires
            capsule_in(*self, FX_PAIR_BOUND as int),
            capsule_in(*other, FX_PAIR_BOUND as int),
        ensures
            r == capsules_intersect_s(*self, *other),
    {
        let st = seg_pair_st(self.point1, self.point2, other.point1, other.point2);
        let ax = pair_lerp(self.point1.x, self.point2.x - self.point1.x, st.0);
        let ay = pair_lerp(self.point1.y, self.point2.y - self.point1.y, st.0);
        let az = pair_lerp(self.point1.z, self.point2.z - self.point1.z, st.0);
        let bx = pair_lerp(other.point1.x, other.point2.x - other.point1.x, st.1);
        let by = pair_lerp(other.point1.y, other.point2.y - other.point1.y, st.1);
        let bz = pair_lerp(other.point1.z, other.point2.z - other.point1.z, st.1);
        let ex: i128 = (ax as i128) - (bx as i128);
        let ey: i128 = (ay as i128) - (by as i128);
        let ez: i128 = (az as i128) - (bz as i128);
        let rr: i128 = (self.radius as i128) + (other.radius as i128);
        proof {
            lemma_prod_bound(ex as int, ex as int, 0x1000_0000, 0x1000_0000);
            lemma_prod_bound(ey as int, ey as int, 0x1000_0000, 0x1000_0000);
            lemma_prod_bound(ez as int, ez as int, 0x1000_0000, 0x1000_0000);
            lemma_prod_bound(rr as int, rr as int, 0x400_0000, 0x400_0000);
        }
        ex * ex + ey * ey + ez * ez <= rr * rr
    }

    /// The variant tag.
    pub fn get_type(&self) -> (t: ColliderType)
        ensures
            t == ColliderType::Capsule,
    {
        ColliderType::Capsule
    }
}

impl Collider {
    /// The variant tag, used to regenerate a same-shaped collider.
    pub fn get_type(&self) -> (t: ColliderType)
        ensures
            t == ColliderType::Capsule,
    {
        match self {
            Collider::CapsuleCollider(_) => ColliderType::Capsule,
        }
    }

    /// Dispatch an intersection test on the variant pair.
    pub fn intersects(&self, other: &Collider) -> (r: bool)
        requires
            *self matches Collider::CapsuleCollider(c) && capsule_in(c, FX_PAIR_BOUND as int),
            *other matches Collider::CapsuleCollider(c) && capsule_in(c, FX_PAIR_BOUND as int),
        ensures
            ({
                let Collider::CapsuleCollider(c1) = *self;
                let Collider::CapsuleCollider(c2) = *other;
                r == capsules_intersect_s(c1, c2)
            }),
    {
        match (self, other) {
            (Collider::CapsuleCollider(c1), Collider::CapsuleCollider(c2)) => c1.intersects_capsule(
                c2,
            ),
        }
    }
}

/// A vector dotted with itself is nonnegative.
proof fn lemma_self_dot_nonneg(v: Vec3)
    ensures
        0 <= v.dot_s(v),
{
    lemma_sq_nonneg(v.x as int);
    lemma_sq_nonneg(v.y as int);
    lemma_sq_nonneg(v.z as int);
}

/// Clamped 16.16 quotient `num / d` for a positive divisor.
fn clamp_t(num: i128, d: i128) -> (t: i64)
    requires
        0 < d,
        -0x4000_0000_0000_0000_0000_0000_0000 <= num <= 0x4000_0000_0000_0000_0000_0000_0000,
    ensures
        t as int == clamp_s(div_trunc((num as int) * (FX_ONE as int), d as int), 0, FX_ONE as int),
        0 <= t <= FX_ONE,
{
    proof {
        lemma_prod_bound(num as int, 65536int, 0x4000_0000_0000_0000_0000_0000_0000, 65536);
    }
    let scaled: i128 = num * (FX_ONE as i128);
    let q: i128 = div_i128(scaled, d);
    let c: i128 = if q < 0 {
        0
    } else if q > FX_ONE as i128 {
        FX_ONE as i128
    } else {
        q
    };
    c as i64
}

/// One coordinate of a segment point at a clamped parameter, within the
/// pair-test neighborhood.
fn pair_lerp(a: i64, d: i64, t: i64) -> (r: i64)
    requires
        -(FX_PAIR_BOUND as int) <= a <= FX_PAIR_BOUND as int,
        -2 * (FX_PAIR_BOUND as int) <= d <= 2 * (FX_PAIR_BOUND as int),
        0 <= t <= FX_ONE,
    ensures
        r as int == lerp_s(a as int, d as int, t as int),
        -0x800_0000 <= r <= 0x800_0000,
{
    proof {
        lemma_prod_bound(t as int, d as int, FX_ONE as int, 2 * (FX_PAIR_BOUND as int));
        lemma_div_trunc_bound(
            (t as int) * (d as int),
            FX_ONE as int,
            65536int * 0x400_0000,
        );
    }
    let p: i128 = (t as i128) * (d as i128);
    let q: i128 = div_i128(p, FX_ONE as i128);
    a + (q as i64)
}

/// Closest-point parameters of two segments, exec mirror of
/// `seg_pair_st_s`.
fn seg_pair_st(p1: Vec3, p2: Vec3, q1: Vec3, q2: Vec3) -> (st: (i64, i64))
    requires
        vec_in(p1, FX_PAIR_BOUND as int),
        vec_in(p2, FX_PAIR_BOUND as int),
        vec_in(q1, FX_PAIR_BOUND as int),
        vec_in(q2, FX_PAIR_BOUND as int),
    ensures
        (st.0 as int, st.1 as int) == seg_pair_st_s(p1, p2, q1, q2),
        0 <= st.0 <= FX_ONE,
        0 <= st.1 <= FX_ONE,
{
    let d1 = p2.minus(p1);
    let d2 = q2.minus(q1);
    let rv = p1.minus(q1);
    proof {
        lemma_self_dot_nonneg(d1);
        lemma_self_dot_nonneg(d2);
        crate::vec3::lemma_dot_bound(d1, d1, 0x400_0000, 0x400_0000);
        crate::vec3::lemma_dot_bound(d2, d2, 0x400_0000, 0x400_0000);
        crate::vec3::lemma_dot_bound(d2, rv, 0x400_0000, 0x400_0000);
        crate::vec3::lemma_dot_bound(d1, rv, 0x400_0000, 0x400_0000);
        crate::vec3::lemma_dot_bound(d1, d2, 0x400_0000, 0x400_0000);
    }
    let a: i128 = d1.dot_wide(d1);
    let e: i128 = d2.dot_wide(d2);
    let f: i128 = d2.dot_wide(rv);
    if a == 0 && e == 0 {
        return (0, 0);
    }
    if a == 0 {
        return (0, clamp_t(f, e));
    }
    let c: i128 = d1.dot_wide(rv);
    if e == 0 {
        return (clamp_t(-c, a), 0);
    }
    let b: i128 = d1.dot_wide(d2);
    proof {
        lemma_prod_bound(a as int, e as int, 0x40_0000_0000_0000, 0x40_0000_0000_0000);
        lemma_prod_bound(b as int, b as int, 0x40_0000_0000_0000, 0x40_0000_0000_0000);
        lemma_prod_bound(b as int, f as int, 0x40_0000_0000_0000, 0x40_0000_0000_0000);
        lemma_prod_bound(c as int, e as int, 0x40_0000_0000_0000, 0x40_0000_0000_0000);
    }
    let denom: i128 = a * e - b * b;
    let s0: i64 = if denom > 0 {
        clamp_t(b * f - c * e, denom)
    } else {
        0
    };
    proof {
        lemma_prod_bound(b as int, s0 as int, 0x40_0000_0000_0000, 65536);
        lemma_prod_bound(f as int, 65536int, 0x40_0000_0000_0000, 65536);
    }
    let tnum: i128 = b * (s0 as i128) + f * (FX_ONE as i128);
    let t0: i128 = div_i128(tnum, e);
    if t0 < 0 {
        (clamp_t(-c, a), 0)
    } else if t0 > FX_ONE as i128 {
        (clamp_t(b - c, a), FX_ONE)
    } else {
        (s0, t0 as i64)
    }
}

/// The world-space capsule that stands for a box with the given scaled
/// bounds, rotation and translation: endpoints along the box's longest
/// axis, radius rounded up to cover the cross-section's half-diagonal.
pub open spec fn capsule_from_bounds_s(b: Bounds, rot: Mat3, pos: Vec3) -> CapsuleCollider {
    let c = b.center;
    let d = b.dimensions;
    let ends = if d.x >= d.y && d.x >= d.z {
        (
            Vec3 { x: (c.x - div_trunc(d.x as int, 2)) as i64, y: c.y, z: c.z },
            Vec3 { x: (c.x + div_trunc(d.x as int, 2)) as i64, y: c.y, z: c.z },
            isqrt_s(d.y * d.y + d.z * d.z),
        )
    } else if d.y >= d.x && d.y >= d.z {
        (
            Vec3 { x: c.x, y: (c.y - div_trunc(d.y as int, 2)) as i64, z: c.z },
            Vec3 { x: c.x, y: (c.y + div_trunc(d.y as int, 2)) as i64, z: c.z },
            isqrt_s(d.x * d.x + d.z * d.z),
        )
    } else {
        (
            Vec3 { x: c.x, y: c.y, z: (c.z - div_trunc(d.z as int, 2)) as i64 },
            Vec3 { x: c.x, y: c.y, z: (c.z + div_trunc(d.z as int, 2)) as i64 },
            isqrt_s(d.x * d.x + d.y * d.y),
        )
    };
    let w1 = apply_linear_s(rot, ends.0);
    let w2 = apply_linear_s(rot, ends.1);
    CapsuleCollider {
        point1: Vec3 {
            x: (w1.x + pos.x) as i64,
            y: (w1.y + pos.y) as i64,
            z: (w1.z + pos.z) as i64,
        },
        point2: Vec3 {
            x: (w2.x + pos.x) as i64,
            y: (w2.y + pos.y) as i64,
            z: (w2.z + pos.z) as i64,
        },
        radius: (div_trunc(ends.2, 2) + 1) as i64,
    }
}

/// Bound on the scaled bounds a capsule is derived from: 2^44, the
/// product of two pose-bounded scalars.
pub const FX_SCALED_BOUND: i64 = 0x1000_0000_0000;

/// Squared cross-section diagonal, exactly.
fn cross_norm2(a: i64, b: i64) -> (r: i128)
    requires
        -(FX_SCALED_BOUND as int) <= a <= FX_SCALED_BOUND as int,
        -(FX_SCALED_BOUND as int) <= b <= FX_SCALED_BOUND as int,
    ensures
        r as int == a * a + b * b,
        0 <= r <= 0x200_0000_0000_0000_0000_0000,
{
    proof {
        lemma_prod_bound(a as int, a as int, FX_SCALED_BOUND as int, FX_SCALED_BOUND as int);
        lemma_prod_bound(b as int, b as int, FX_SCALED_BOUND as int, FX_SCALED_BOUND as int);
        lemma_sq_nonneg(a as int);
        lemma_sq_nonneg(b as int);
    }
    (a as i128) * (a as i128) + (b as i128) * (b as i128)
}

/// Half the integer square root of a squared cross diagonal, rounded up
/// so the capsule's cross-section covers the box's.
fn cross_radius(a: i64, b: i64) -> (r: i64)
    requires
        -(FX_SCALED_BOUND as int) <= a <= FX_SCALED_BOUND as int,
        -(FX_SCALED_BOUND as int) <= b <= FX_SCALED_BOUND as int,
    ensures
        r as int == div_trunc(isqrt_s(a * a + b * b), 2) + 1,
        1 <= r <= FX_SHAPE_BOUND,
{
    let n: i128 = cross_norm2(a, b);
    proof {
        crate::fixed::lemma_isqrt_s(n as int);
        lemma_isqrt_croot_below(n as int);
        lemma_div_pos_is_pos(isqrt_s(n as int), 2);
        lemma_div_trunc_bound(isqrt_s(n as int), 2, 0x2000_0000_0000);
    }
    let q: i128 = isqrt(n as u128) as i128;
    (q / 2) as i64 + 1
}

/// The square root of a squared cross diagonal stays well under the
/// shape bound.
proof fn lemma_isqrt_croot_below(n: int)
    requires
        0 <= n <= 0x200_0000_0000_0000_0000_0000,
    ensures
        0 <= isqrt_s(n) <= 0x2000_0000_0000,
{
    crate::fixed::lemma_isqrt_s(n);
    let r = isqrt_s(n);
    if r > 0x2000_0000_0000 {
        assert(0x2000_0000_0000 * 0x2000_0000_0000 < r * r) by (nonlinear_arith)
            requires
                0x2000_0000_0000int < r,
        ;
    }
}

/// Derive the world-space capsule for a box with the given scaled
/// bounds, rotated and translated by the object's pose.
pub fn capsule_from_bounds(b: &Bounds, rot: &Mat3, pos: Vec3) -> (c: CapsuleCollider)
    requires
        vec_in(b.center, FX_SCALED_BOUND as int),
        vec_in(b.dimensions, FX_SCALED_BOUND as int),
        mat_in(*rot, FX_ROT_BOUND as int),
        vec_in(pos, crate::fixed::FX_POSE_BOUND as int),
    ensures
        c == capsule_from_bounds_s(*b, *rot, pos),
        capsule_in(c, FX_SHAPE_BOUND as int),
{
    let cx = b.center.x;
    let cy = b.center.y;
    let cz = b.center.z;
    let d = b.dimensions;
    let (e1, e2, radius): (Vec3, Vec3, i64) = if d.x >= d.y && d.x >= d.z {
        let h = d.x / 2;
        (
            Vec3 { x: cx - h, y: cy, z: cz },
            Vec3 { x: cx + h, y: cy, z: cz },
            cross_radius(d.y, d.z),
        )
    } else if d.y >= d.x && d.y >= d.z {
        let h = d.y / 2;
        (
            Vec3 { x: cx, y: cy - h, z: cz },
            Vec3 { x: cx, y: cy + h, z: cz },
            cross_radius(d.x, d.z),
        )
    } else {
        let h = d.z / 2;
        (
            Vec3 { x: cx, y: cy, z: cz - h },
            Vec3 { x: cx, y: cy, z: cz + h },
            cross_radius(d.x, d.y),
        )
    };
    proof {
        crate::mat::lemma_rot_apply_bound(*rot, e1, 0x2000_0000_0000);
        crate::mat::lemma_rot_apply_bound(*rot, e2, 0x2000_0000_0000);
    }
    let w1 = rot_apply(rot, e1);
    let w2 = rot_apply(rot, e2);
    CapsuleCollider {
        point1: Vec3 { x: w1.x + pos.x, y: w1.y + pos.y, z: w1.z + pos.z },
        point2: Vec3 { x: w2.x + pos.x, y: w2.y + pos.y, z: w2.z + pos.z },
        radius,
    }
}

/// Law: the derived capsule fully contains its source box. Stated for
/// the case where x is the longest axis (the other two are symmetric):
/// any point of the box projects onto the capsule's core segment
/// within its span, and its cross-section offset from the axis is
/// inside the radius, so the point lies in the capsule.
pub proof fn lemma_capsule_covers_box(b: Bounds, p: Vec3)
    requires
        0 <= b.dimensions.y,
        0 <= b.dimensions.z,
        b.dimensions.x >= b.dimensions.y,
        b.dimensions.x >= b.dimensions.z,
        crate::bounds::point_in_bounds_s(b, p),
    ensures
        ({
            let h = div_trunc(b.dimensions.x as int, 2);
            let r = div_trunc(
                isqrt_s(b.dimensions.y * b.dimensions.y + b.dimensions.z * b.dimensions.z),
                2,
            ) + 1;
            &&& b.center.x - h <= p.x <= b.center.x + h
            &&& (p.y - b.center.y) * (p.y - b.center.y) + (p.z - b.center.z) * (p.z
                - b.center.z) <= r * r
        }),
{
    let dx = b.dimensions.x as int;
    let dy = b.dimensions.y as int;
    let dz = b.dimensions.z as int;
    let k = crate::fixed::mag(p.x - b.center.x);
    vstd::arithmetic::div_mod::lemma_div_is_ordered(2 * k, dx, 2);
    vstd::arithmetic::div_mod::lemma_div_multiples_vanish(k, 2);
    let u = p.y - b.center.y;
    let v = p.z - b.center.z;
    assert(4 * (u * u) <= dy * dy) by (nonlinear_arith)
        requires
            2 * u <= dy && -dy <= 2 * u,
            0 <= dy,
    ;
    assert(4 * (v * v) <= dz * dz) by (nonlinear_arith)
        requires
            2 * v <= dz && -dz <= 2 * v,
            0 <= dz,
    ;
    let n = dy * dy + dz * dz;
    crate::fixed::lemma_sq_nonneg(dy);
    crate::fixed::lemma_sq_nonneg(dz);
    crate::fixed::lemma_isqrt_s(n);
    let s = isqrt_s(n);
    vstd::arithmetic::div_mod::lemma_fundamental_div_mod(s, 2);
    vstd::arithmetic::div_mod::lemma_mod_bound(s, 2);
    vstd::arithmetic::div_mod::lemma_div_pos_is_pos(s, 2);
    let r = s / 2 + 1;
    assert(2 * r >= s + 1);
    assert(n < (s + 1) * (s + 1));
    assert((s + 1) * (s + 1) <= (2 * r) * (2 * r)) by (nonlinear_arith)
        requires
            0 <= s + 1 <= 2 * r,
    ;
    assert((2 * r) * (2 * r) == 4 * (r * r)) by (nonlinear_arith);
}

} // verus!
