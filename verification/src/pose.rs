//! Pose components carried as IEEE-754 bit patterns.
//!
//! The discrete core never interprets a coordinate numerically: it only
//! stores, compares and moves poses and velocities between records. Holding
//! each scalar as the bit pattern of the embedding's 32-bit float keeps that
//! bookkeeping exact — two scalars are the same value exactly when their
//! patterns are equal, which is also the equality the backing store uses.

use vstd::prelude::*;

verus! {

/// Bit pattern of the 32-bit float `1.0`.
pub const ONE_BITS: u32 = 0x3F80_0000;

/// A 3-vector, each component the bit pattern of a 32-bit float.
#[derive(Clone, Copy, PartialEq, Eq, Structural, Debug, Hash)]
pub struct Vec3Bits {
    pub x: u32,
    pub y: u32,
    pub z: u32,
}

impl Vec3Bits {
    /// The zero vector: `0.0` has bit pattern 0.
    pub fn zero() -> (v: Vec3Bits)
        ensures
            v == (Vec3Bits { x: 0u32, y: 0u32, z: 0u32 }),
    {
        Vec3Bits { x: 0, y: 0, z: 0 }
    }
}

/// A quaternion, each component the bit pattern of a 32-bit float.
#[derive(Clone, Copy, PartialEq, Eq, Structural, Debug, Hash)]
pub struct QuatBits {
    pub x: u32,
    pub y: u32,
    pub z: u32,
    pub w: u32,
}

impl QuatBits {
    /// The identity rotation `(0, 0, 0, 1)`.
    pub fn identity() -> (q: QuatBits)
        ensures
            q == (QuatBits { x: 0u32, y: 0u32, z: 0u32, w: ONE_BITS }),
    {
        QuatBits { x: 0, y: 0, z: 0, w: ONE_BITS }
    }
}

} // verus!
