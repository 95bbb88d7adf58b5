//! Combat resolution: the team gate, bullet impacts, contact damage, and
//! death cleanup.

use emitter::collision_groups::{
    bullet_ray_groups, editor_handle_groups, CollisionGroups, ALL, BULLET, ENEMY, PLAYER, WALL,
};
use emitter::combat::{
    collide_bullet, collide_bullets, contact_damage_system, damage_allowed, despawn_if_dead,
    other_collider, Bullet, BulletOutcome, BulletQuery, ContactDamage, ContactPair, Damageable,
    RayHit,
};
use emitter::team::Team;

#[test]
fn can_damage_matrix() {
    // a teamless entity damages and is damaged by everything
    assert!(Team::Neutral.can_damage(&Team::Neutral));
    assert!(Team::Neutral.can_damage(&Team::Player));
    assert!(Team::Neutral.can_damage(&Team::Enemy));
    assert!(Team::Player.can_damage(&Team::Neutral));
    assert!(Team::Enemy.can_damage(&Team::Neutral));
    // same non-neutral teams never damage each other
    assert!(!Team::Player.can_damage(&Team::Player));
    assert!(!Team::Enemy.can_damage(&Team::Enemy));
    // distinct non-neutral teams always can
    assert!(Team::Player.can_damage(&Team::Enemy));
    assert!(Team::Enemy.can_damage(&Team::Player));
}

#[test]
fn default_team_is_neutral() {
    assert_eq!(Team::default(), Team::Neutral);
}

#[test]
fn damage_gate_degrades_gracefully() {
    // a missing team on either side allows damage
    assert!(damage_allowed(None, Some(Team::Player)));
    assert!(damage_allowed(Some(Team::Player), None));
    assert!(damage_allowed(None, None));
    // only two present, incompatible teams block it
    assert!(!damage_allowed(Some(Team::Enemy), Some(Team::Enemy)));
    assert!(damage_allowed(Some(Team::Player), Some(Team::Enemy)));
}

#[test]
fn bullet_miss_flies_on() {
    let b = Bullet { damage: 1 };
    assert_eq!(collide_bullet(&b, Some(Team::Player), None), BulletOutcome::Miss);
}

#[test]
fn bullet_blocked_by_own_team() {
    let b = Bullet { damage: 1 };
    let hit = RayHit {
        target: 9,
        target_team: Some(Team::Player),
        target_health: Some(Damageable { health: 5, max_health: 5 }),
        target_takes_impulse: true,
    };
    assert_eq!(collide_bullet(&b, Some(Team::Player), Some(hit)), BulletOutcome::Blocked);
}

#[test]
fn bullet_impact_damages_and_knocks_back() {
    let b = Bullet { damage: 2 };
    let hit = RayHit {
        target: 9,
        target_team: Some(Team::Enemy),
        target_health: Some(Damageable { health: 5, max_health: 5 }),
        target_takes_impulse: true,
    };
    assert_eq!(
        collide_bullet(&b, Some(Team::Player), Some(hit)),
        BulletOutcome::Impact {
            target: 9,
            new_health: Some(Damageable { health: 3, max_health: 5 }),
            knockback: true,
        }
    );
}

#[test]
fn bullet_impact_on_teamless_target() {
    // a team-less wall still stops the bullet; nothing takes damage
    let b = Bullet { damage: 2 };
    let hit = RayHit {
        target: 4,
        target_team: None,
        target_health: None,
        target_takes_impulse: false,
    };
    assert_eq!(
        collide_bullet(&b, Some(Team::Player), Some(hit)),
        BulletOutcome::Impact { target: 4, new_health: None, knockback: false }
    );
}

#[test]
fn teamless_bullet_damages_anything() {
    let b = Bullet { damage: 1 };
    let hit = RayHit {
        target: 2,
        target_team: Some(Team::Player),
        target_health: Some(Damageable { health: 3, max_health: 3 }),
        target_takes_impulse: false,
    };
    assert_eq!(
        collide_bullet(&b, None, Some(hit)),
        BulletOutcome::Impact {
            target: 2,
            new_health: Some(Damageable { health: 2, max_health: 3 }),
            knockback: false,
        }
    );
}

#[test]
fn collide_bullets_resolves_each_bullet() {
    let enemy_hit = RayHit {
        target: 7,
        target_team: Some(Team::Enemy),
        target_health: Some(Damageable { health: 1, max_health: 1 }),
        target_takes_impulse: true,
    };
    let friendly_hit = RayHit { target_team: Some(Team::Player), ..enemy_hit };
    let bullets = vec![
        BulletQuery { bullet: Bullet { damage: 1 }, team: Some(Team::Player), hit: None },
        BulletQuery {
            bullet: Bullet { damage: 1 },
            team: Some(Team::Player),
            hit: Some(friendly_hit),
        },
        BulletQuery {
            bullet: Bullet { damage: 1 },
            team: Some(Team::Player),
            hit: Some(enemy_hit),
        },
    ];
    assert_eq!(
        collide_bullets(&bullets),
        vec![
            BulletOutcome::Miss,
            BulletOutcome::Blocked,
            BulletOutcome::Impact {
                target: 7,
                new_health: Some(Damageable { health: 0, max_health: 1 }),
                knockback: true,
            },
        ]
    );
}

#[test]
fn contact_damage_respects_team_gate() {
    let cd = ContactDamage { damage: 1 };
    let mut target = Damageable { health: 10, max_health: 10 };

    // the enemy touches the player: damage passes
    assert!(contact_damage_system(&cd, Some(Team::Enemy), &mut target, Some(Team::Player)));
    assert_eq!(target.health, 9);

    // an enemy touching an enemy does nothing
    assert!(!contact_damage_system(&cd, Some(Team::Enemy), &mut target, Some(Team::Enemy)));
    assert_eq!(target.health, 9);

    // a team-less target is damaged
    assert!(contact_damage_system(&cd, Some(Team::Enemy), &mut target, None));
    assert_eq!(target.health, 8);
}

#[test]
fn other_collider_picks_the_partner() {
    let pair = ContactPair { collider1: 3, collider2: 8 };
    assert_eq!(other_collider(pair, 3), 8);
    assert_eq!(other_collider(pair, 8), 3);
}

#[test]
fn take_damage_is_exact_subtraction() {
    let mut d = Damageable { health: 2, max_health: 2 };
    d.take_damage(5);
    // health passes zero; the entity is dead
    assert_eq!(d.health, -3);
    assert!(d.is_dead());
}

#[test]
fn despawn_if_dead_picks_exactly_the_dead() {
    let entities = vec![
        (1u64, Damageable { health: 2, max_health: 2 }),
        (2u64, Damageable { health: 0, max_health: 2 }),
        (3u64, Damageable { health: -1, max_health: 2 }),
        (4u64, Damageable { health: 1, max_health: 2 }),
    ];
    assert_eq!(despawn_if_dead(&entities), vec![2, 3]);
}

#[test]
fn bullets_never_hit_bullets() {
    let bullet = bullet_ray_groups();
    assert_eq!(bullet.memberships, BULLET);
    assert_eq!(bullet.filters, ALL & !BULLET);
    assert!(!bullet.interacts(bullet));
    // but a bullet does hit walls, players and enemies
    let wall = CollisionGroups::new(WALL, ALL);
    assert!(bullet.interacts(wall));
    let player = CollisionGroups::new(PLAYER, ALL);
    assert!(bullet.interacts(player));
    let enemy = CollisionGroups::new(ENEMY, ALL);
    assert!(bullet.interacts(enemy));
}

#[test]
fn editor_handles_touch_nothing() {
    let handle = editor_handle_groups();
    let wall = CollisionGroups::new(WALL, ALL);
    assert!(!handle.interacts(wall));
    assert!(!handle.interacts(handle));
}
