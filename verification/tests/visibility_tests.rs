//! Tests of the ray-marched line-of-sight scan.

use echoed_footsteps::StaticCollider;
use echoed_footsteps::Vec2;
use echoed_footsteps::Wall;
use echoed_footsteps::can_see;
use echoed_footsteps::config::UNIT;
use echoed_footsteps::config::VIS_MAX_DISTANCE;
use echoed_footsteps::config::VIS_STEP;

fn v(x: i64, y: i64) -> Vec2 {
    Vec2 { x, y }
}

fn wall(x: i64, y: i64, hx: i64, hy: i64) -> Wall {
    Wall { pos: v(x, y), collider: StaticCollider { half_size: v(hx, hy) } }
}

#[test]
fn clear_line_within_range_is_seen() {
    let enemy = v(100_000, 100_000);
    let player = v(200_000, 100_000);
    let walls: Vec<Wall> = Vec::new();
    assert!(can_see(enemy, player, v(UNIT / 2, UNIT / 2), &walls, VIS_STEP, VIS_MAX_DISTANCE));
}

#[test]
fn wall_on_the_line_blocks_sight() {
    let enemy = v(100_000, 100_000);
    let player = v(200_000, 100_000);
    let walls = vec![wall(150_000, 100_000, 8_000, 30_000)];
    assert!(!can_see(enemy, player, v(UNIT / 2, UNIT / 2), &walls, VIS_STEP, VIS_MAX_DISTANCE));
    // Removing the wall restores sight.
    let none: Vec<Wall> = Vec::new();
    assert!(can_see(enemy, player, v(UNIT / 2, UNIT / 2), &none, VIS_STEP, VIS_MAX_DISTANCE));
}

#[test]
fn wall_off_the_line_does_not_block() {
    let enemy = v(100_000, 100_000);
    let player = v(200_000, 100_000);
    // Far above the sight line.
    let walls = vec![wall(150_000, 300_000, 8_000, 8_000)];
    assert!(can_see(enemy, player, v(UNIT / 2, UNIT / 2), &walls, VIS_STEP, VIS_MAX_DISTANCE));
}

#[test]
fn beyond_max_distance_is_blind() {
    let enemy = v(0, 0);
    let player = v(VIS_MAX_DISTANCE + 200_000, 0);
    let walls: Vec<Wall> = Vec::new();
    assert!(!can_see(enemy, player, v(UNIT / 2, UNIT / 2), &walls, VIS_STEP, VIS_MAX_DISTANCE));
}

#[test]
fn enemy_on_player_sees_it() {
    let p = v(123_000, 45_000);
    let walls: Vec<Wall> = Vec::new();
    assert!(can_see(p, p, v(UNIT / 2, UNIT / 2), &walls, VIS_STEP, VIS_MAX_DISTANCE));
}
