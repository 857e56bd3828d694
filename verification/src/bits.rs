//! Bit patterns of real-valued quantities.
use vstd::prelude::*;

verus! {

/// Bit pattern of `0.0` in IEEE-754 binary32.
pub const ZERO_BITS: u32 = 0x0000_0000;

/// Bit pattern of `1.0` in IEEE-754 binary32.
pub const ONE_BITS: u32 = 0x3f80_0000;

/// A three-component vector whose components are IEEE-754 binary32 bit patterns.
#[derive(Clone, Copy, Debug, PartialEq, Eq, Structural)]
pub struct Vec3Bits {
    pub x: u32,
    pub y: u32,
    pub z: u32,
}

/// A quaternion `(x, y, z, w)` whose components are IEEE-754 binary32 bit patterns.
#[derive(Clone, Copy, Debug, PartialEq, Eq, Structural)]
pub struct QuatBits {
    pub x: u32,
    pub y: u32,
    pub z: u32,
    pub w: u32,
}

impl Vec3Bits {
    /// Builds a vector from three bit patterns.
    pub fn new(x: u32, y: u32, z: u32) -> (v: Vec3Bits)
        ensures
            v == (Vec3Bits { x, y, z }),
    {
        Vec3Bits { x, y, z }
    }

    /// The vector with every component `0.0`.
    pub open spec fn zero() -> Vec3Bits {
        Vec3Bits { x: ZERO_BITS, y: ZERO_BITS, z: ZERO_BITS }
    }

    /// The vector with every component `1.0`.
    pub open spec fn one() -> Vec3Bits {
        Vec3Bits { x: ONE_BITS, y: ONE_BITS, z: ONE_BITS }
    }

    /// The vector with every component equal to `s`.
    pub fn splat(s: u32) -> (v: Vec3Bits)
        ensures
            v == (Vec3Bits { x: s, y: s, z: s }),
    {
        Vec3Bits { x: s, y: s, z: s }
    }
}

impl QuatBits {
    /// The identity rotation `(0, 0, 0, 1)`.
    pub open spec fn identity() -> QuatBits {
        QuatBits { x: ZERO_BITS, y: ZERO_BITS, z: ZERO_BITS, w: ONE_BITS }
    }
}

} // verus!
