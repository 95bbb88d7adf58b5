//! Locking motion to the play plane.
//!
//! The game plays on the plane of height zero: every locked body has its
//! height and its height-wise velocity zeroed each tick, and an angularly
//! locked body additionally keeps only its spin around the plane's normal.

use vstd::prelude::*;

use crate::transform::QuatBits;
use crate::vec3i::Vec3i;

verus! {

/// Marks a body as locked to the play plane; `angular` additionally locks
/// its rotation to spinning in the plane.
#[derive(PartialEq, Eq, Structural, Clone, Copy, Debug)]
pub struct ZLocked {
    pub angular: bool,
}

/// A body's linear and angular velocity.
#[derive(PartialEq, Eq, Structural, Clone, Copy, Debug)]
pub struct Velocity {
    pub linvel: Vec3i,
    pub angvel: Vec3i,
}

/// Locks a body's placement to the play plane: the height of its position
/// is zeroed, and under an angular lock the tilt components of its rotation
/// are zeroed too — a zeroed float component has the all-zero bit pattern —
/// leaving only spin around the plane's normal. Everything else is kept.
pub fn zlock_transform(translation: &mut Vec3i, rotation: &mut QuatBits, zlock: &ZLocked)
    ensures
        final(translation).x == old(translation).x,
        final(translation).y == old(translation).y,
        final(translation).z == 0,
        zlock.angular ==> *final(rotation) == (QuatBits {
            x: 0,
            y: 0,
            z: old(rotation).z,
            w: old(rotation).w,
        }),
        !zlock.angular ==> *final(rotation) == *old(rotation),
{
    translation.z = 0;
    if zlock.angular {
        rotation.x = 0;
        rotation.y = 0;
    }
}

/// Locks a velocity to the play plane: motion out of the plane is zeroed,
/// and under an angular lock only spin around the plane's normal survives.
pub fn zlock_velocity(velocity: &mut Velocity, zlock: &ZLocked)
    ensures
        final(velocity).linvel == (Vec3i { z: 0i64, ..old(velocity).linvel }),
        zlock.angular ==> final(velocity).angvel == (Vec3i {
            x: 0i64,
            y: 0i64,
            z: old(velocity).angvel.z,
        }),
        !zlock.angular ==> final(velocity).angvel == old(velocity).angvel,
{
    velocity.linvel.z = 0;
    if zlock.angular {
        velocity.angvel.x = 0;
        velocity.angvel.y = 0;
    }
}

} // verus!
