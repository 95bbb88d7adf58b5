//! Collision group masks.
//!
//! The physics engine lets two bodies interact only when each one's
//! membership mask overlaps the other's filter mask. The game hands it these
//! masks; the rules below pin down which kinds of entity can ever touch.

use vstd::prelude::*;

verus! {

pub const PLAYER: u32 = 0x1;

pub const ENEMY: u32 = 0x2;

pub const BULLET: u32 = 0x4;

pub const WALL: u32 = 0x8;

pub const EDITOR_HANDLE: u32 = 0x10;

pub const ALL: u32 = 0xffff_ffff;

pub const NONE: u32 = 0;

/// A body's collision memberships and the groups it is willing to touch.
#[derive(PartialEq, Eq, Structural, Clone, Copy, Debug)]
pub struct CollisionGroups {
    pub memberships: u32,
    pub filters: u32,
}

impl CollisionGroups {
    /// The physics engine's pairwise rule: the two bodies interact when each
    /// one's memberships overlap the other's filters.
    pub open spec fn interacts_spec(a: CollisionGroups, b: CollisionGroups) -> bool {
        (a.memberships & b.filters) != 0 && (b.memberships & a.filters) != 0
    }

    pub fn new(memberships: u32, filters: u32) -> (r: CollisionGroups)
        ensures
            r == (CollisionGroups { memberships, filters }),
    {
        CollisionGroups { memberships, filters }
    }

    pub fn interacts(self, other: CollisionGroups) -> (r: bool)
        ensures
            r == Self::interacts_spec(self, other),
    {
        (self.memberships & other.filters) != 0 && (other.memberships & self.filters) != 0
    }
}

/// The groups a bullet's hit ray is cast with: a bullet belongs to the bullet
/// group and hits everything except other bullets.
pub fn bullet_ray_groups() -> (r: CollisionGroups)
    ensures
        r.memberships == BULLET,
        r.filters == ALL & !BULLET,
{
    CollisionGroups { memberships: BULLET, filters: ALL & !BULLET }
}

/// Editor handles collide with nothing; they exist only to be picked by the
/// editor's own cursor ray.
pub fn editor_handle_groups() -> (r: CollisionGroups)
    ensures
        r.memberships == EDITOR_HANDLE,
        r.filters == NONE,
{
    CollisionGroups { memberships: EDITOR_HANDLE, filters: NONE }
}

/// Bullets never hit each other: two bodies carrying the bullet ray groups do
/// not interact.
pub proof fn lemma_bullets_ignore_bullets()
    ensures
        !CollisionGroups::interacts_spec(
            CollisionGroups { memberships: BULLET, filters: ALL & !BULLET },
            CollisionGroups { memberships: BULLET, filters: ALL & !BULLET },
        ),
{
    assert((BULLET & (ALL & !BULLET)) == 0) by (bit_vector);
}

/// An editor handle interacts with no body at all, whatever that body's
/// masks are.
pub proof fn lemma_editor_handles_touch_nothing(other: CollisionGroups)
    ensures
        !CollisionGroups::interacts_spec(
            CollisionGroups { memberships: EDITOR_HANDLE, filters: NONE },
            other,
        ),
{
    let m = other.memberships;
    assert((m & 0u32) == 0) by (bit_vector);
}

} // verus!
