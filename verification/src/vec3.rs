//! Three-component vectors of 16.16 fixed-point scalars.

use crate::fixed::{fx_mul, fx_mul_s, lemma_prod_bound};
use vstd::prelude::*;

verus! {

/// A point or direction; each component is a 16.16 fixed-point scalar.
#[derive(Clone, Copy, PartialEq, Eq, Structural, Debug)]
pub struct Vec3 {
    pub x: i64,
    pub y: i64,
    pub z: i64,
}

/// Every component of `v` has magnitude at most `m`.
pub open spec fn vec_in(v: Vec3, m: int) -> bool {
    &&& -m <= v.x <= m
    &&& -m <= v.y <= m
    &&& -m <= v.z <= m
}

/// Componentwise bounds on two vectors bound their dot product.
pub proof fn lemma_dot_bound(a: Vec3, b: Vec3, m: int, n: int)
    requires
        vec_in(a, m),
        vec_in(b, n),
    ensures
        -(3 * (m * n)) <= a.dot_s(b) <= 3 * (m * n),
{
    lemma_prod_bound(a.x as int, b.x as int, m, n);
    lemma_prod_bound(a.y as int, b.y as int, m, n);
    lemma_prod_bound(a.z as int, b.z as int, m, n);
}

impl Vec3 {
    /// The dot product, as an unbounded integer (scale: fixed-point squared).
    pub open spec fn dot_s(self, o: Vec3) -> int {
        self.x * o.x + self.y * o.y + self.z * o.z
    }

    /// Componentwise fixed-point product, as spec values.
    pub open spec fn mul_fx_s(self, o: Vec3) -> (int, int, int) {
        (fx_mul_s(self.x as int, o.x as int),
        fx_mul_s(self.y as int, o.y as int),
        fx_mul_s(self.z as int, o.z as int))
    }

    pub fn new(x: i64, y: i64, z: i64) -> (r: Vec3)
        ensures
            r == (Vec3 { x, y, z }),
    {
        Vec3 { x, y, z }
    }

    /// Componentwise sum.
    pub fn plus(self, o: Vec3) -> (r: Vec3)
        requires
            i64::MIN <= self.x + o.x <= i64::MAX,
            i64::MIN <= self.y + o.y <= i64::MAX,
            i64::MIN <= self.z + o.z <= i64::MAX,
        ensures
            r.x == self.x + o.x,
            r.y == self.y + o.y,
            r.z == self.z + o.z,
    {
        Vec3 { x: self.x + o.x, y: self.y + o.y, z: self.z + o.z }
    }

    /// Componentwise difference.
    pub fn minus(self, o: Vec3) -> (r: Vec3)
        requires
            i64::MIN <= self.x - o.x <= i64::MAX,
            i64::MIN <= self.y - o.y <= i64::MAX,
            i64::MIN <= self.z - o.z <= i64::MAX,
        ensures
            r.x == self.x - o.x,
            r.y == self.y - o.y,
            r.z == self.z - o.z,
    {
        Vec3 { x: self.x - o.x, y: self.y - o.y, z: self.z - o.z }
    }

    /// Componentwise fixed-point product (used to rescale bounds).
    pub fn mul_fx(self, o: Vec3) -> (r: Vec3)
        requires
            vec_in(self, crate::fixed::FX_POSE_BOUND as int),
            vec_in(o, crate::fixed::FX_POSE_BOUND as int),
        ensures
            (r.x as int, r.y as int, r.z as int) == self.mul_fx_s(o),
    {
        proof {
            lemma_prod_bound(self.x as int, o.x as int, 0x4000_0000, 0x4000_0000);
            lemma_prod_bound(self.y as int, o.y as int, 0x4000_0000, 0x4000_0000);
            lemma_prod_bound(self.z as int, o.z as int, 0x4000_0000, 0x4000_0000);
        }
        Vec3 {
            x: fx_mul(self.x, o.x),
            y: fx_mul(self.y, o.y),
            z: fx_mul(self.z, o.z),
        }
    }

    /// The dot product, computed exactly in a wide intermediate.
    pub fn dot_wide(self, o: Vec3) -> (r: i128)
        requires
            vec_in(self, 0x4000_0000_0000_0000),
            vec_in(o, 0x4000_0000_0000_0000),
        ensures
            r as int == self.dot_s(o),
    {
        proof {
            lemma_prod_bound(
                self.x as int,
                o.x as int,
                0x4000_0000_0000_0000,
                0x4000_0000_0000_0000,
            );
            lemma_prod_bound(
                self.y as int,
                o.y as int,
                0x4000_0000_0000_0000,
                0x4000_0000_0000_0000,
            );
            lemma_prod_bound(
                self.z as int,
                o.z as int,
                0x4000_0000_0000_0000,
                0x4000_0000_0000_0000,
            );
        }
        (self.x as i128) * (o.x as i128) + (self.y as i128) * (o.y as i128) + (self.z as i128) * (
        o.z as i128)
    }
}

} // verus!
