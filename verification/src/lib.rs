//! Scene-object layer for an XR renderer: a composited transform
//! (position, Euler rotation in degrees, scale, kept in sync with an
//! affine matrix), axis-aligned bounds with point and capsule
//! containment queries, and capsule colliders for interaction tests.
//!
//! All geometry is carried in signed 16.16 fixed-point scalars, so every
//! computation here is exact integer arithmetic with a precise contract.
//! Conversion from and to floating-point vector types is the caller's
//! concern and stays outside this crate.

pub mod bounds;
pub mod collider;
pub mod decomp;
pub mod fixed;
pub mod mat;
pub mod model;
pub mod transform;
pub mod trig;
pub mod vec3;
