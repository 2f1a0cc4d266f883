//! Collider shape tags.
//!
//! The shape parameters (radius, extents, vertices) are floating-point
//! geometry and live with the embedding; the tag decides which parameters a
//! collider reads and which contact routine handles it.

use vstd::prelude::*;

verus! {

/// The convex primitive a collider is.
#[derive(Clone, Copy, PartialEq, Eq, Structural, Debug)]
pub enum ColliderType {
    /// A ball given by its radius.
    Sphere,
    /// A half-space given by its outward normal.
    Plane,
    /// A box given by its size.
    Cuboid,
    /// A Y-axis cylinder given by radius and height.
    Cylinder,
    /// A Y-axis cone given by radius and height.
    Cone,
    /// A Y-axis capsule given by radius and height.
    Capsule,
    /// A triangle given by its three vertices.
    Triangle,
}

impl ColliderType {
    /// A half-space has no rotational inertia: its inertia tensor is zero
    /// and its inverse is taken as zero.
    pub fn has_rotational_inertia(self) -> (r: bool)
        ensures
            r == (self != ColliderType::Plane),
    {
        self != ColliderType::Plane
    }
}

} // verus!
