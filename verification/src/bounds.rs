//! Axis-aligned bounds in an object's local space, with exact
//! point-containment and capsule-intersection queries.
//!
//! The capsule test follows the classic clamped-projection scheme: find
//! the point of the capsule's core segment nearest the box center, clamp
//! it into the box per axis, then compare the distance from the segment
//! back to that clamped point against the radius. All of it is integer
//! arithmetic, compared in squared form, so the answer is exact for the
//! fixed-point data.

use crate::fixed::{
    clamp_s, div_i128, div_trunc, fx_clamp, lemma_div_trunc_bound, lemma_prod_bound, mag, FX_ONE,
    FX_POINT_BOUND, FX_SHAPE_BOUND,
};
use crate::vec3::{vec_in, Vec3};
use vstd::prelude::*;

verus! {

/// An axis-aligned box: a center and full extents (not half-extents).
#[derive(Clone, Copy, PartialEq, Eq, Structural, Debug)]
pub struct Bounds {
    pub center: Vec3,
    pub dimensions: Vec3,
}

/// Shape data within the shape bound.
pub open spec fn bounds_wf(b: Bounds) -> bool {
    vec_in(b.center, FX_SHAPE_BOUND as int) && vec_in(b.dimensions, FX_SHAPE_BOUND as int)
}

/// Inclusive containment: the point is within half the extent of the
/// center on every axis. A negative extent contains nothing.
pub open spec fn point_in_bounds_s(b: Bounds, p: Vec3) -> bool {
    &&& 2 * mag(p.x - b.center.x) <= b.dimensions.x
    &&& 2 * mag(p.y - b.center.y) <= b.dimensions.y
    &&& 2 * mag(p.z - b.center.z) <= b.dimensions.z
}

/// Clamped segment parameter (16.16, in `[0, 1]`) of the point nearest
/// a query, from the squared segment length `dd` and the projection
/// numerator `num`. A degenerate segment yields the start point.
pub open spec fn seg_t_s(dd: int, num: int) -> int {
    if dd == 0 {
        0
    } else {
        clamp_s(div_trunc(num * (FX_ONE as int), dd), 0, FX_ONE as int)
    }
}

/// One coordinate of the segment point at parameter `t`.
pub open spec fn lerp_s(a: int, d: int, t: int) -> int {
    a + div_trunc(t * d, FX_ONE as int)
}

/// Squared distance between two points given componentwise.
pub open spec fn dist2_s(ax: int, ay: int, az: int, bx: int, by: int, bz: int) -> int {
    (ax - bx) * (ax - bx) + (ay - by) * (ay - by) + (az - bz) * (az - bz)
}

/// Capsule-versus-box intersection: the swept sphere from `p1` to `p2`
/// of the given radius touches the box.
pub open spec fn capsule_in_bounds_s(b: Bounds, p1: Vec3, p2: Vec3, radius: int) -> bool {
    let dx = p2.x - p1.x;
    let dy = p2.y - p1.y;
    let dz = p2.z - p1.z;
    let dd = dx * dx + dy * dy + dz * dz;
    let t1 = seg_t_s(
        dd,
        (b.center.x - p1.x) * dx + (b.center.y - p1.y) * dy + (b.center.z - p1.z) * dz,
    );
    let s1x = lerp_s(p1.x as int, dx, t1);
    let s1y = lerp_s(p1.y as int, dy, t1);
    let s1z = lerp_s(p1.z as int, dz, t1);
    let qx = clamp_s(
        s1x,
        b.center.x - div_trunc(b.dimensions.x as int, 2),
        b.center.x + div_trunc(b.dimensions.x as int, 2),
    );
    let qy = clamp_s(
        s1y,
        b.center.y - div_trunc(b.dimensions.y as int, 2),
        b.center.y + div_trunc(b.dimensions.y as int, 2),
    );
    let qz = clamp_s(
        s1z,
        b.center.z - div_trunc(b.dimensions.z as int, 2),
        b.center.z + div_trunc(b.dimensions.z as int, 2),
    );
    let t2 = seg_t_s(dd, (qx - p1.x) * dx + (qy - p1.y) * dy + (qz - p1.z) * dz);
    let ux = lerp_s(p1.x as int, dx, t2);
    let uy = lerp_s(p1.y as int, dy, t2);
    let uz = lerp_s(p1.z as int, dz, t2);
    dist2_s(ux, uy, uz, qx, qy, qz) <= radius * radius
}

/// Sphere-versus-box intersection: the sphere at `p` of the given
/// radius touches the box (distance to the clamped point within radius).
pub open spec fn sphere_in_bounds_s(b: Bounds, p: Vec3, radius: int) -> bool {
    let qx = clamp_s(
        p.x as int,
        b.center.x - div_trunc(b.dimensions.x as int, 2),
        b.center.x + div_trunc(b.dimensions.x as int, 2),
    );
    let qy = clamp_s(
        p.y as int,
        b.center.y - div_trunc(b.dimensions.y as int, 2),
        b.center.y + div_trunc(b.dimensions.y as int, 2),
    );
    let qz = clamp_s(
        p.z as int,
        b.center.z - div_trunc(b.dimensions.z as int, 2),
        b.center.z + div_trunc(b.dimensions.z as int, 2),
    );
    dist2_s(p.x as int, p.y as int, p.z as int, qx, qy, qz) <= radius * radius
}

impl Bounds {
    pub fn new(center: Vec3, dimensions: Vec3) -> (b: Bounds)
        ensures
            b == (Bounds { center, dimensions }),
    {
        Bounds { center, dimensions }
    }

    /// Whether a local-space point lies in the box, boundary included.
    pub fn bounds_point_contains(&self, point: Vec3) -> (r: bool)
        ensures
            r == point_in_bounds_s(*self, point),
    {
        let dx: i128 = (point.x as i128) - (self.center.x as i128);
        let dy: i128 = (point.y as i128) - (self.center.y as i128);
        let dz: i128 = (point.z as i128) - (self.center.z as i128);
        let ax: i128 = if dx < 0 {
            -dx
        } else {
            dx
        };
        let ay: i128 = if dy < 0 {
            -dy
        } else {
            dy
        };
        let az: i128 = if dz < 0 {
            -dz
        } else {
            dz
        };
        2 * ax <= self.dimensions.x as i128 && 2 * ay <= self.dimensions.y as i128 && 2 * az
            <= self.dimensions.z as i128
    }

    /// Whether the capsule from `p1` to `p2` with the given radius
    /// touches the box. Exact for the degenerate segment `p1 == p2`,
    /// where it is the sphere test.
    pub fn bounds_capsule_contains(&self, p1: Vec3, p2: Vec3, radius: i64) -> (r: bool)
        requires
            bounds_wf(*self),
            vec_in(p1, FX_POINT_BOUND as int),
            vec_in(p2, FX_POINT_BOUND as int),
            0 <= radius <= FX_SHAPE_BOUND,
        ensures
            r == capsule_in_bounds_s(*self, p1, p2, radius as int),
    {
        let dx: i64 = p2.x - p1.x;
        let dy: i64 = p2.y - p1.y;
        let dz: i64 = p2.z - p1.z;
        proof {
            lemma_prod_bound(dx as int, dx as int, 0x20_0000_0000_0000, 0x20_0000_0000_0000);
            lemma_prod_bound(dy as int, dy as int, 0x20_0000_0000_0000, 0x20_0000_0000_0000);
            lemma_prod_bound(dz as int, dz as int, 0x20_0000_0000_0000, 0x20_0000_0000_0000);
            crate::fixed::lemma_sq_nonneg(dx as int);
            crate::fixed::lemma_sq_nonneg(dy as int);
            crate::fixed::lemma_sq_nonneg(dz as int);
        }
        let dd: i128 = (dx as i128) * (dx as i128) + (dy as i128) * (dy as i128) + (dz as i128) * (
        dz as i128);
        let num1: i128 = dot_diff(self.center.x, p1.x, dx) + dot_diff(self.center.y, p1.y, dy)
            + dot_diff(self.center.z, p1.z, dz);
        let t1: i64 = seg_t(dd, num1);
        let s1x: i64 = lerp(p1.x, dx, t1);
        let s1y: i64 = lerp(p1.y, dy, t1);
        let s1z: i64 = lerp(p1.z, dz, t1);
        let qx: i64 = fx_clamp(
            s1x,
            self.center.x - self.dimensions.x / 2,
            self.center.x + self.dimensions.x / 2,
        );
        let qy: i64 = fx_clamp(
            s1y,
            self.center.y - self.dimensions.y / 2,
            self.center.y + self.dimensions.y / 2,
        );
        let qz: i64 = fx_clamp(
            s1z,
            self.center.z - self.dimensions.z / 2,
            self.center.z + self.dimensions.z / 2,
        );
        let num2: i128 = dot_diff(qx, p1.x, dx) + dot_diff(qy, p1.y, dy) + dot_diff(qz, p1.z, dz);
        let t2: i64 = seg_t(dd, num2);
        let ux: i64 = lerp(p1.x, dx, t2);
        let uy: i64 = lerp(p1.y, dy, t2);
        let uz: i64 = lerp(p1.z, dz, t2);
        proof {
            lemma_prod_bound(ux - qx, ux - qx, 0x100_0000_0000_0000, 0x100_0000_0000_0000);
            lemma_prod_bound(uy - qy, uy - qy, 0x100_0000_0000_0000, 0x100_0000_0000_0000);
            lemma_prod_bound(uz - qz, uz - qz, 0x100_0000_0000_0000, 0x100_0000_0000_0000);
            lemma_prod_bound(radius as int, radius as int, FX_SHAPE_BOUND as int, FX_SHAPE_BOUND as int);
        }
        let ex: i128 = (ux as i128) - (qx as i128);
        let ey: i128 = (uy as i128) - (qy as i128);
        let ez: i128 = (uz as i128) - (qz as i128);
        ex * ex + ey * ey + ez * ez <= (radius as i128) * (radius as i128)
    }
}

/// One projection term `(a - p) * d`, exactly.
fn dot_diff(a: i64, p: i64, d: i64) -> (r: i128)
    requires
        -0x40_0000_0000_0000 <= a <= 0x40_0000_0000_0000,
        -0x20_0000_0000_0000 <= p <= 0x20_0000_0000_0000,
        -0x20_0000_0000_0000 <= d <= 0x20_0000_0000_0000,
    ensures
        r as int == (a - p) * d,
        -0x60_0000_0000_0000 * 0x20_0000_0000_0000 <= r <= 0x60_0000_0000_0000
            * 0x20_0000_0000_0000,
{
    proof {
        lemma_prod_bound((a - p) as int, d as int, 0x60_0000_0000_0000, 0x20_0000_0000_0000);
    }
    ((a as i128) - (p as i128)) * (d as i128)
}

/// Clamped segment parameter from squared length and numerator.
fn seg_t(dd: i128, num: i128) -> (t: i64)
    requires
        0 <= dd,
        -0x4000_0000_0000_0000_0000_0000_0000 <= num <= 0x4000_0000_0000_0000_0000_0000_0000,
    ensures
        t as int == seg_t_s(dd as int, num as int),
        0 <= t <= FX_ONE,
{
    if dd == 0 {
        return 0;
    }
    proof {
        lemma_prod_bound(num as int, 65536int, 0x4000_0000_0000_0000_0000_0000_0000, 65536);
    }
    let scaled: i128 = num * (FX_ONE as i128);
    let q: i128 = div_i128(scaled, dd);
    let c: i128 = if q < 0 {
        0
    } else if q > FX_ONE as i128 {
        FX_ONE as i128
    } else {
        q
    };
    c as i64
}

/// One coordinate of the segment point at parameter `t`.
fn lerp(a: i64, d: i64, t: i64) -> (r: i64)
    requires
        -0x20_0000_0000_0000 <= a <= 0x20_0000_0000_0000,
        -0x20_0000_0000_0000 <= d <= 0x20_0000_0000_0000,
        0 <= t <= FX_ONE,
    ensures
        r as int == lerp_s(a as int, d as int, t as int),
        -0x40_0000_0000_0000 <= r <= 0x40_0000_0000_0000,
{
    proof {
        lemma_prod_bound(t as int, d as int, FX_ONE as int, 0x20_0000_0000_0000);
        lemma_div_trunc_bound(
            (t as int) * (d as int),
            FX_ONE as int,
            65536int * 0x20_0000_0000_0000,
        );
    }
    let p: i128 = (t as i128) * (d as i128);
    let q: i128 = div_i128(p, FX_ONE as i128);
    a + (q as i64)
}

/// Law: a point lying exactly on a box face, and within the box on the
/// other axes, is classified as contained; the boundary is inclusive.
pub proof fn lemma_face_point_contained(b: Bounds, p: Vec3)
    requires
        0 <= b.dimensions.x,
        2 * (p.x - b.center.x) == b.dimensions.x,
        2 * mag(p.y - b.center.y) <= b.dimensions.y,
        2 * mag(p.z - b.center.z) <= b.dimensions.z,
    ensures
        point_in_bounds_s(b, p),
{
}

/// Law: a degenerate capsule whose endpoints coincide behaves exactly
/// like the sphere-versus-box test at that point with the same radius.
pub proof fn lemma_degenerate_capsule_is_sphere(b: Bounds, p: Vec3, radius: int)
    ensures
        capsule_in_bounds_s(b, p, p, radius) == sphere_in_bounds_s(b, p, radius),
{
    assert(seg_t_s(0, (b.center.x - p.x) * 0 + (b.center.y - p.y) * 0 + (b.center.z - p.z) * 0)
        == 0);
    assert(div_trunc(0int * 0, FX_ONE as int) == 0);
}

} // verus!
