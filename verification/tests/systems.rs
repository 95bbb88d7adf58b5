//! The smaller per-tick systems: chasing, shooting, plane locking, and the
//! editor viewport arithmetic.

use emitter::chase::{chase_action_system, chase_scorer_system, ChaseState, PlayerChaser};
use emitter::color::Rgba;
use emitter::transform::QuatBits;
use emitter::vec3i::Vec3i;
use emitter::viewport::{
    cursor_to_viewport, in_viewport, viewport_center_cursor, viewport_cursor_offset, Viewport,
};
use emitter::weapon::{shoot, FloatBits, Weapon, WeaponTrigger};
use emitter::zlock::{zlock_transform, zlock_velocity, Velocity, ZLocked};

fn p(x: i64, y: i64, z: i64) -> Vec3i {
    Vec3i::new(x, y, z)
}

fn test_weapon() -> Weapon {
    Weapon {
        cooldown: 200,
        next_shot: 0,
        damage: 1,
        velocity: FloatBits { bits: 0 },
        spread: FloatBits { bits: 0 },
        color: Rgba::new(0, 0, 0, 0),
    }
}

#[test]
fn vector_arithmetic_is_exact() {
    assert_eq!(p(1, 2, 3).add(p(10, 20, 30)), p(11, 22, 33));
    assert_eq!(p(1, 2, 3).sub(p(10, 20, 30)), p(-9, -18, -27));
    assert_eq!(p(0, 0, 0).dist_sq(p(3, 4, 12)), 169);
}

#[test]
fn chase_scores_within_radius() {
    let chaser = PlayerChaser { max_proximity: 15, los: true };
    let enemy = p(0, 0, 0);
    // 14 away: strictly inside the radius
    assert!(chase_scorer_system(enemy, &vec![p(14, 0, 0)], &chaser));
    // exactly on the radius: not strictly closer, no score
    assert!(!chase_scorer_system(enemy, &vec![p(15, 0, 0)], &chaser));
    // one of several players inside suffices
    assert!(chase_scorer_system(
        enemy,
        &vec![p(100, 0, 0), p(0, 10, 0)],
        &chaser
    ));
    // nobody around
    assert!(!chase_scorer_system(enemy, &vec![], &chaser));
}

#[test]
fn chase_action_lifecycle() {
    let enemy = p(0, 0, 0);
    let player = Some(p(10, 5, 0));

    // a requested chase starts executing without steering yet
    let (state, steer) = chase_action_system(ChaseState::Requested, enemy, player);
    assert_eq!(state, ChaseState::Executing);
    assert_eq!(steer, None);

    // an executing chase steers toward the player
    let (state, steer) = chase_action_system(ChaseState::Executing, enemy, player);
    assert_eq!(state, ChaseState::Executing);
    assert_eq!(steer, Some(p(10, 5, 0)));

    // cancellation fails the action rather than halting motion
    let (state, steer) = chase_action_system(ChaseState::Cancelled, enemy, player);
    assert_eq!(state, ChaseState::Failure);
    assert_eq!(steer, None);

    // other states are left alone
    let (state, steer) = chase_action_system(ChaseState::Success, enemy, player);
    assert_eq!(state, ChaseState::Success);
    assert_eq!(steer, None);
}

#[test]
fn shoot_consumes_trigger_and_respects_cooldown() {
    let mut w = test_weapon();
    let mut t = WeaponTrigger(true);

    // the first shot fires and pushes the next one out
    assert!(shoot(&mut w, &mut t, 1000));
    assert!(!t.0);
    assert_eq!(w.next_shot, 1200);

    // pulling again inside the cooldown consumes the trigger without firing
    t.0 = true;
    assert!(!shoot(&mut w, &mut t, 1100));
    assert!(!t.0);
    assert_eq!(w.next_shot, 1200);

    // a released trigger never fires
    assert!(!shoot(&mut w, &mut t, 5000));

    // after the cooldown the weapon fires again
    t.0 = true;
    assert!(shoot(&mut w, &mut t, 1200));
    assert_eq!(w.next_shot, 1400);
}

#[test]
fn zlock_pins_motion_to_the_plane() {
    let mut translation = p(3, 4, 9);
    let mut rotation = QuatBits { x: 11, y: 12, z: 13, w: 14 };
    zlock_transform(&mut translation, &mut rotation, &ZLocked { angular: true });
    assert_eq!(translation, p(3, 4, 0));
    // the angular lock zeroes the tilt components and keeps the spin
    assert_eq!(rotation, QuatBits { x: 0, y: 0, z: 13, w: 14 });

    let mut translation = p(3, 4, 9);
    let mut rotation = QuatBits { x: 11, y: 12, z: 13, w: 14 };
    zlock_transform(&mut translation, &mut rotation, &ZLocked { angular: false });
    assert_eq!(translation, p(3, 4, 0));
    assert_eq!(rotation, QuatBits { x: 11, y: 12, z: 13, w: 14 });

    let mut v = Velocity { linvel: p(1, 2, 3), angvel: p(4, 5, 6) };
    zlock_velocity(&mut v, &ZLocked { angular: true });
    assert_eq!(v.linvel, p(1, 2, 0));
    assert_eq!(v.angvel, p(0, 0, 6));

    let mut v = Velocity { linvel: p(1, 2, 3), angvel: p(4, 5, 6) };
    zlock_velocity(&mut v, &ZLocked { angular: false });
    assert_eq!(v.linvel, p(1, 2, 0));
    assert_eq!(v.angvel, p(4, 5, 6));
}

#[test]
fn viewport_offset_flips_the_vertical_axis() {
    let vp = Viewport { pos_x: 100, pos_y: 50, size_x: 800, size_y: 600 };
    let off = viewport_cursor_offset(&vp, 1080);
    assert_eq!(off, (100, 430));

    let local = cursor_to_viewport((500, 500), &vp, 1080);
    assert_eq!(local, (400, 70));
}

#[test]
fn viewport_bounds_test() {
    let vp = Viewport { pos_x: 0, pos_y: 0, size_x: 800, size_y: 600 };
    assert!(in_viewport((0, 0), &vp));
    assert!(in_viewport((800, 600), &vp));
    assert!(!in_viewport((801, 0), &vp));
    assert!(!in_viewport((0, -1), &vp));
}

#[test]
fn viewport_center_in_cursor_coordinates() {
    let vp = Viewport { pos_x: 100, pos_y: 50, size_x: 800, size_y: 600 };
    let center = viewport_center_cursor(&vp, 1080);
    assert_eq!(center, (500, 730));
}
