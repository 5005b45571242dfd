//! Tests of enemies, aiming and projectiles.

use echoed_footsteps::Enemy;
use echoed_footsteps::Projectile;
use echoed_footsteps::StaticCollider;
use echoed_footsteps::Timer;
use echoed_footsteps::Vec2;
use echoed_footsteps::Wall;
use echoed_footsteps::aim;
use echoed_footsteps::config::PROJECTILE_SPEED;
use echoed_footsteps::config::SHOOT_PERIOD_MAX;
use echoed_footsteps::config::SHOOT_PERIOD_MIN;
use echoed_footsteps::config::SHOOT_PHASE_MAX;
use echoed_footsteps::facing;
use echoed_footsteps::out_of_window;
use echoed_footsteps::projectile_displacement;
use echoed_footsteps::projectile_hits_wall;
use echoed_footsteps::shoot_tick;

fn v(x: i64, y: i64) -> Vec2 {
    Vec2 { x, y }
}

#[test]
fn enemy_spawns_within_random_ranges() {
    // The random draws must land in their fixed ranges every time.
    for _ in 0..32 {
        let e = Enemy::new();
        assert!(e.shoot_timer.duration >= SHOOT_PERIOD_MIN);
        assert!(e.shoot_timer.duration < SHOOT_PERIOD_MAX);
        assert!(e.shoot_timer.elapsed < SHOOT_PHASE_MAX);
        assert!(e.offset < 50);
        assert!(!e.can_see_player);
    }
}

#[test]
fn enemy_phases_are_not_in_lockstep() {
    // The random draws must actually vary: with 64 enemies the chance of
    // every offset agreeing is negligible, so a degenerate source that
    // always returned the range's lower bound would fail here.
    let offsets: Vec<usize> = (0..64).map(|_| Enemy::new().offset).collect();
    let first = offsets[0];
    assert!(offsets.iter().any(|o| *o != first));
}

#[test]
fn aim_scales_direction_exactly() {
    // A 3-4-5 triangle: distance 5000, so the scaled direction is exact.
    let r = aim(v(0, 0), v(3_000, 4_000));
    assert_eq!(r, Some(v(600, 800)));
    let r2 = aim(v(1_000, 1_000), v(-2_000, 5_000));
    assert_eq!(r2, Some(v(-600, 800)));
}

#[test]
fn aim_at_own_position_is_guarded() {
    assert_eq!(aim(v(7, 7), v(7, 7)), None);
}

#[test]
fn facing_keeps_previous_at_rest() {
    let prev = v(0, 1_000);
    assert_eq!(facing(v(0, 0), prev), prev);
    assert_eq!(facing(v(5_000, 0), prev), v(1_000, 0));
}

#[test]
fn shoot_fires_only_on_completion_with_sight() {
    let mut e = Enemy {
        shoot_timer: Timer::new(2_000_000),
        offset: 0,
        can_see_player: true,
    };
    // Not yet complete: no projectile.
    assert!(shoot_tick(&mut e, v(0, 0), v(3_000, 4_000), 1_999_999).is_none());
    // The next microsecond completes the period.
    let p = shoot_tick(&mut e, v(0, 0), v(3_000, 4_000), 1).unwrap();
    assert_eq!(p.direction, v(600, 800));
    assert_eq!(p.speed, PROJECTILE_SPEED);
    // Edge-triggered: immediately after, nothing fires.
    assert!(shoot_tick(&mut e, v(0, 0), v(3_000, 4_000), 1).is_none());
}

#[test]
fn shoot_holds_fire_without_sight() {
    let mut e = Enemy {
        shoot_timer: Timer::new(2_000_000),
        offset: 0,
        can_see_player: false,
    };
    assert!(shoot_tick(&mut e, v(0, 0), v(3_000, 4_000), 2_000_000).is_none());
    assert!(e.shoot_timer.just_finished);
}

#[test]
fn projectile_moves_at_fixed_speed() {
    let p = Projectile { direction: v(1_000, 0), speed: PROJECTILE_SPEED };
    // 0.1 s at 300 units/s is 30 units: 30_000 milliunits.
    assert_eq!(projectile_displacement(&p, 100_000), v(30_000, 0));
    let diag = Projectile { direction: v(600, 800), speed: PROJECTILE_SPEED };
    assert_eq!(projectile_displacement(&diag, 100_000), v(18_000, 24_000));
}

#[test]
fn window_bounds_are_strict() {
    assert!(!out_of_window(v(0, 0)));
    assert!(!out_of_window(v(1_200_000, 800_000)));
    assert!(out_of_window(v(1_200_001, 0)));
    assert!(out_of_window(v(0, -1)));
    assert!(out_of_window(v(-1, 0)));
    assert!(out_of_window(v(0, 800_001)));
}

#[test]
fn projectile_wall_hit() {
    let walls = vec![Wall {
        pos: v(100_000, 100_000),
        collider: StaticCollider { half_size: v(8_000, 8_000) },
    }];
    assert!(projectile_hits_wall(v(100_000, 108_500), &walls));
    assert!(!projectile_hits_wall(v(100_000, 120_000), &walls));
}
