//! Weapons and the cooldown rule.
//!
//! A weapon fires when its trigger is set and its cooldown has elapsed. The
//! trigger is consumed on every armed tick, fired or not; a successful shot
//! pushes the next allowed shot one cooldown into the future. Time is
//! counted in integer ticks.

use vstd::prelude::*;

use crate::color::Rgba;

verus! {

/// The largest time value the cooldown arithmetic is stated for.
pub const TIME_LIMIT: u64 = 0x4000_0000_0000_0000;

/// A float payload carried for the renderer or physics, as the raw bit
/// pattern of the engine's value; the logic never computes with it.
#[derive(PartialEq, Eq, Structural, Clone, Copy, Debug)]
pub struct FloatBits {
    pub bits: u32,
}

/// A weapon's firing state and its bullet parameters. `velocity` and
/// `spread` are carried payloads; only the cooldown bookkeeping is computed
/// here.
#[derive(PartialEq, Eq, Structural, Clone, Copy, Debug)]
pub struct Weapon {
    pub cooldown: u64,
    pub next_shot: u64,
    pub damage: i64,
    pub velocity: FloatBits,
    pub spread: FloatBits,
    pub color: Rgba,
}

/// Whether the weapon's owner wants to fire this tick.
#[derive(PartialEq, Eq, Structural, Clone, Copy, Debug, Default)]
pub struct WeaponTrigger(pub bool);

impl Weapon {
    pub open spec fn wf(self) -> bool {
        self.cooldown <= TIME_LIMIT && self.next_shot <= TIME_LIMIT
    }

    /// A set trigger fires exactly when the cooldown has elapsed.
    pub open spec fn fires_spec(self, trigger: WeaponTrigger, now: u64) -> bool {
        trigger.0 && now >= self.next_shot
    }
}

/// One tick of the shooting system for one weapon: consumes the trigger,
/// and on a shot pushes the next allowed shot one cooldown past now. The
/// caller spawns the bullet exactly when this returns true.
pub fn shoot(weapon: &mut Weapon, trigger: &mut WeaponTrigger, now: u64) -> (fired: bool)
    requires
        old(weapon).wf(),
        now <= TIME_LIMIT,
    ensures
        fired == old(weapon).fires_spec(*old(trigger), now),
        final(trigger).0 == false,
        fired ==> *final(weapon) == (Weapon {
            next_shot: (now + old(weapon).cooldown) as u64,
            ..*old(weapon)
        }),
        !fired ==> *final(weapon) == *old(weapon),
{
    if !trigger.0 {
        return false;
    }
    trigger.0 = false;
    if now < weapon.next_shot {
        return false;
    }
    weapon.next_shot = now + weapon.cooldown;
    true
}

/// The rate limit: when a shot fires at one tick, no shot can fire again
/// before a full cooldown has passed.
pub proof fn lemma_cooldown_rate_limit(
    w0: Weapon,
    t0: WeaponTrigger,
    now0: u64,
    w1: Weapon,
    t1: WeaponTrigger,
    now1: u64,
)
    requires
        w0.wf(),
        now0 <= TIME_LIMIT,
        w0.fires_spec(t0, now0),
        w1 == (Weapon { next_shot: (now0 + w0.cooldown) as u64, ..w0 }),
        w1.fires_spec(t1, now1),
    ensures
        now1 >= now0 + w0.cooldown,
{
}

} // verus!
