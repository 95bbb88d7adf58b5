//! Transform payloads.
//!
//! A wall entity carries a transform — translation, rotation, scale — in the
//! engine's float components. The logic here never computes with them; it
//! only records them when a scene is saved and hands them back when it is
//! loaded. Each component is therefore held as the raw bit pattern of the
//! engine's value, which round-trips exactly.

use vstd::prelude::*;

verus! {

/// The bit pattern of the engine's float one, for identity rotation and
/// scale components.
pub const FLOAT_ONE_BITS: u32 = 0x3f80_0000;

/// A float 3-vector payload, each component a raw bit pattern.
#[derive(PartialEq, Eq, Structural, Clone, Copy, Debug)]
pub struct Vec3Bits {
    pub x: u32,
    pub y: u32,
    pub z: u32,
}

/// A float quaternion payload, each component a raw bit pattern.
#[derive(PartialEq, Eq, Structural, Clone, Copy, Debug)]
pub struct QuatBits {
    pub x: u32,
    pub y: u32,
    pub z: u32,
    pub w: u32,
}

/// A whole transform payload: where a wall entity sits, as the engine
/// placed it.
#[derive(PartialEq, Eq, Structural, Clone, Copy, Debug)]
pub struct TransformBits {
    pub translation: Vec3Bits,
    pub rotation: QuatBits,
    pub scale: Vec3Bits,
}

impl TransformBits {
    /// The identity transform a freshly solidified wall is spawned with:
    /// zero translation, unit rotation, unit scale. A zero float component
    /// has the all-zero bit pattern.
    pub open spec fn identity_spec() -> TransformBits {
        TransformBits {
            translation: Vec3Bits { x: 0, y: 0, z: 0 },
            rotation: QuatBits { x: 0, y: 0, z: 0, w: FLOAT_ONE_BITS },
            scale: Vec3Bits { x: FLOAT_ONE_BITS, y: FLOAT_ONE_BITS, z: FLOAT_ONE_BITS },
        }
    }

    pub fn identity() -> (r: TransformBits)
        ensures
            r == Self::identity_spec(),
    {
        TransformBits {
            translation: Vec3Bits { x: 0, y: 0, z: 0 },
            rotation: QuatBits { x: 0, y: 0, z: 0, w: FLOAT_ONE_BITS },
            scale: Vec3Bits { x: FLOAT_ONE_BITS, y: FLOAT_ONE_BITS, z: FLOAT_ONE_BITS },
        }
    }
}

} // verus!
