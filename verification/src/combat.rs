//! Combat resolution: bullet hits and contact damage.
//!
//! Two independent hit paths share one gate: damage passes unless both sides
//! carry a team and the attacker's team may not damage the target's. A side
//! without team data is treated as always damageable — absence of a team is
//! not an error. Health is counted in integer hit points.

use vstd::prelude::*;

use crate::team::Team;

verus! {

/// The magnitude bound on health and damage values; keeping both inside it
/// makes every subtraction below exact.
pub const HEALTH_LIMIT: i64 = 1_000_000_000;

/// A projectile and the hit points it takes off what it hits.
#[derive(PartialEq, Eq, Structural, Clone, Copy, Debug)]
pub struct Bullet {
    pub damage: i64,
}

/// An entity that can take damage.
#[derive(PartialEq, Eq, Structural, Clone, Copy, Debug)]
pub struct Damageable {
    pub health: i64,
    pub max_health: i64,
}

/// An entity that damages whatever it touches.
#[derive(PartialEq, Eq, Structural, Clone, Copy, Debug)]
pub struct ContactDamage {
    pub damage: i64,
}

impl Bullet {
    pub open spec fn wf(self) -> bool {
        0 <= self.damage <= HEALTH_LIMIT
    }
}

impl ContactDamage {
    pub open spec fn wf(self) -> bool {
        0 <= self.damage <= HEALTH_LIMIT
    }
}

impl Damageable {
    /// Health never exceeds the maximum and both stay inside the bound;
    /// health may go below zero, where the entity counts as dead.
    pub open spec fn wf(self) -> bool {
        &&& -HEALTH_LIMIT <= self.health <= self.max_health
        &&& 0 <= self.max_health <= HEALTH_LIMIT
    }

    /// Dead means zero or fewer hit points.
    pub open spec fn is_dead_spec(self) -> bool {
        self.health <= 0
    }

    pub fn is_dead(&self) -> (r: bool)
        ensures
            r == self.is_dead_spec(),
    {
        self.health <= 0
    }

    /// What taking `damage` hit points leaves: the plain difference, held at
    /// the lower bound so the value stays well formed.
    pub open spec fn damaged_spec(self, damage: i64) -> Damageable {
        if self.health - damage < -HEALTH_LIMIT {
            Damageable { health: (-HEALTH_LIMIT) as i64, ..self }
        } else {
            Damageable { health: (self.health - damage) as i64, ..self }
        }
    }

    /// Takes `damage` hit points off.
    pub fn take_damage(&mut self, damage: i64)
        requires
            old(self).wf(),
            0 <= damage <= HEALTH_LIMIT,
        ensures
            *final(self) == old(self).damaged_spec(damage),
            final(self).wf(),
            final(self).health <= old(self).health,
            old(self).is_dead_spec() ==> final(self).is_dead_spec(),
    {
        if self.health - damage < -HEALTH_LIMIT {
            self.health = -HEALTH_LIMIT;
        } else {
            self.health = self.health - damage;
        }
    }
}

/// The shared gate of both hit paths: damage passes unless both sides carry
/// a team and the attacker's may not damage the target's.
pub open spec fn damage_allowed_spec(attacker: Option<Team>, target: Option<Team>) -> bool {
    !(attacker matches Some(a) && target matches Some(t) && !Team::can_damage_spec(a, t))
}

/// Whether damage passes between an attacker and a target, either of which
/// may carry no team.
pub fn damage_allowed(attacker: Option<Team>, target: Option<Team>) -> (r: bool)
    ensures
        r == damage_allowed_spec(attacker, target),
{
    match (attacker, target) {
        (Some(a), Some(t)) => a.can_damage(&t),
        _ => true,
    }
}

/// Missing team data degrades gracefully: when either side carries no team,
/// damage is always allowed.
pub proof fn lemma_teamless_is_damageable(attacker: Option<Team>, target: Option<Team>)
    requires
        attacker is None || target is None,
    ensures
        damage_allowed_spec(attacker, target),
{
}

/// What a bullet's short ray brought back: the entity it struck, that
/// entity's team if it has one, and its health if it can take damage.
#[derive(PartialEq, Eq, Structural, Clone, Copy, Debug)]
pub struct RayHit {
    pub target: u64,
    pub target_team: Option<Team>,
    pub target_health: Option<Damageable>,
    pub target_takes_impulse: bool,
}

/// How one bullet's tick resolves.
#[derive(PartialEq, Eq, Structural, Clone, Copy, Debug)]
pub enum BulletOutcome {
    /// The ray struck nothing; the bullet flies on.
    Miss,
    /// The ray struck a teammate; the bullet flies on untouched.
    Blocked,
    /// The bullet despawns; the target's new health, where it had any, and
    /// whether a knockback impulse is applied.
    Impact { target: u64, new_health: Option<Damageable>, knockback: bool },
}

/// How one bullet's tick must resolve: a miss flies on, a hit on a teammate
/// is blocked, and any other hit despawns the bullet, takes the bullet's
/// damage off a damageable target, and knocks an impulse-taking target back.
pub open spec fn bullet_outcome_spec(
    bullet: Bullet,
    bullet_team: Option<Team>,
    hit: Option<RayHit>,
) -> BulletOutcome {
    match hit {
        None => BulletOutcome::Miss,
        Some(h) => if !damage_allowed_spec(bullet_team, h.target_team) {
            BulletOutcome::Blocked
        } else {
            BulletOutcome::Impact {
                target: h.target,
                new_health: match h.target_health {
                    Some(d) => Some(d.damaged_spec(bullet.damage)),
                    None => None,
                },
                knockback: h.target_takes_impulse,
            }
        },
    }
}

/// Resolves one bullet against what its ray struck.
pub fn collide_bullet(bullet: &Bullet, bullet_team: Option<Team>, hit: Option<RayHit>) -> (r:
    BulletOutcome)
    requires
        bullet.wf(),
        hit matches Some(h) ==> (h.target_health matches Some(d) ==> d.wf()),
    ensures
        r == bullet_outcome_spec(*bullet, bullet_team, hit),
{
    let h = match hit {
        None => {
            return BulletOutcome::Miss;
        },
        Some(h) => h,
    };
    if !damage_allowed(bullet_team, h.target_team) {
        return BulletOutcome::Blocked;
    }
    let new_health = match h.target_health {
        Some(mut d) => {
            d.take_damage(bullet.damage);
            Some(d)
        },
        None => None,
    };
    BulletOutcome::Impact { target: h.target, new_health, knockback: h.target_takes_impulse }
}

/// One bullet of the bullet system's tick: the bullet, its team, and what
/// its ray struck.
#[derive(PartialEq, Eq, Structural, Clone, Copy, Debug)]
pub struct BulletQuery {
    pub bullet: Bullet,
    pub team: Option<Team>,
    pub hit: Option<RayHit>,
}

impl BulletQuery {
    pub open spec fn wf(self) -> bool {
        &&& self.bullet.wf()
        &&& self.hit matches Some(h) ==> (h.target_health matches Some(d) ==> d.wf())
    }
}

/// Resolves every bullet of one tick, each against what its own ray struck.
pub fn collide_bullets(bullets: &Vec<BulletQuery>) -> (r: Vec<BulletOutcome>)
    requires
        forall|i: int| 0 <= i < bullets@.len() ==> (#[trigger] bullets@[i]).wf(),
    ensures
        r@.len() == bullets@.len(),
        forall|i: int|
            0 <= i < bullets@.len() ==> #[trigger] r@[i] == bullet_outcome_spec(
                bullets@[i].bullet,
                bullets@[i].team,
                bullets@[i].hit,
            ),
{
    let mut r: Vec<BulletOutcome> = Vec::new();
    let mut i: usize = 0;
    while i < bullets.len()
        invariant
            i <= bullets@.len(),
            r@.len() == i,
            forall|j: int| 0 <= j < bullets@.len() ==> (#[trigger] bullets@[j]).wf(),
            forall|j: int|
                0 <= j < i ==> #[trigger] r@[j] == bullet_outcome_spec(
                    bullets@[j].bullet,
                    bullets@[j].team,
                    bullets@[j].hit,
                ),
        decreases bullets@.len() - i,
    {
        let q = bullets[i];
        r.push(collide_bullet(&q.bullet, q.team, q.hit));
        i = i + 1;
    }
    r
}

/// One active contact, as the physics engine reports it: the two colliders
/// of the pair.
#[derive(PartialEq, Eq, Structural, Clone, Copy, Debug)]
pub struct ContactPair {
    pub collider1: u64,
    pub collider2: u64,
}

/// The collider on the other side of a contact pair from the given entity.
pub fn other_collider(pair: ContactPair, entity: u64) -> (r: u64)
    ensures
        r == if pair.collider1 == entity {
            pair.collider2
        } else {
            pair.collider1
        },
{
    if pair.collider1 == entity {
        pair.collider2
    } else {
        pair.collider1
    }
}

/// Resolves one touch of a contact-damage source against a damageable
/// target: the target loses the source's damage exactly when the team gate
/// passes.
pub fn contact_damage_system(
    source: &ContactDamage,
    source_team: Option<Team>,
    target: &mut Damageable,
    target_team: Option<Team>,
) -> (damaged: bool)
    requires
        source.wf(),
        old(target).wf(),
    ensures
        damaged == damage_allowed_spec(source_team, target_team),
        damaged ==> *final(target) == old(target).damaged_spec(source.damage),
        !damaged ==> *final(target) == *old(target),
        final(target).wf(),
{
    if damage_allowed(source_team, target_team) {
        target.take_damage(source.damage);
        true
    } else {
        false
    }
}

/// The identifiers of exactly the dead entities, in order: those with zero
/// or fewer hit points left.
pub open spec fn dead_entities_spec(entities: Seq<(u64, Damageable)>) -> Seq<u64>
    decreases entities.len(),
{
    if entities.len() == 0 {
        Seq::empty()
    } else {
        let prefix = dead_entities_spec(entities.drop_last());
        if entities.last().1.is_dead_spec() {
            prefix.push(entities.last().0)
        } else {
            prefix
        }
    }
}

/// Picks the entities to despawn: exactly those whose health has reached
/// zero or fallen below it.
pub fn despawn_if_dead(entities: &Vec<(u64, Damageable)>) -> (dead: Vec<u64>)
    ensures
        dead@ == dead_entities_spec(entities@),
{
    let mut dead: Vec<u64> = Vec::new();
    let mut i: usize = 0;
    while i < entities.len()
        invariant
            i <= entities@.len(),
            dead@ == dead_entities_spec(entities@.take(i as int)),
        decreases entities@.len() - i,
    {
        let e = entities[i];
        if e.1.is_dead() {
            dead.push(e.0);
        }
        i = i + 1;
        proof {
            assert(entities@.take(i as int).drop_last() =~= entities@.take(i - 1));
        }
    }
    proof {
        assert(entities@.take(entities@.len() as int) =~= entities@);
    }
    dead
}

} // verus!
