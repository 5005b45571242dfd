//! End-to-end tests of the world's tick pipeline.

use echoed_footsteps::DynamicCollider;
use echoed_footsteps::Enemy;
use echoed_footsteps::EnemyEnt;
use echoed_footsteps::GameEvent;
use echoed_footsteps::Goal;
use echoed_footsteps::Player;
use echoed_footsteps::PlayerEnt;
use echoed_footsteps::PlayerVelocityHistory;
use echoed_footsteps::SpawnKind;
use echoed_footsteps::SpawnRecord;
use echoed_footsteps::Timer;
use echoed_footsteps::Vec2;
use echoed_footsteps::Velocity;
use echoed_footsteps::World;
use echoed_footsteps::config::HISTORY_LEN;
use echoed_footsteps::config::UNIT;

fn v(x: i64, y: i64) -> Vec2 {
    Vec2 { x, y }
}

fn record(kind: SpawnKind, x: i64, y: i64) -> SpawnRecord {
    SpawnRecord { kind, pos: v(x, y), half_extent: v(0, 0) }
}

fn player_at(x: i64, y: i64) -> PlayerEnt {
    PlayerEnt {
        pos: v(x, y),
        velocity: Velocity(v(0, 0)),
        collider: DynamicCollider { half_size: v(UNIT / 2, UNIT / 2) },
        player: Player { used_left_foot: false },
        facing: v(0, 1_000),
    }
}

fn enemy_at(x: i64, y: i64, offset: usize) -> EnemyEnt {
    EnemyEnt {
        pos: v(x, y),
        velocity: Velocity(v(0, 0)),
        collider: DynamicCollider { half_size: v(UNIT / 2, UNIT / 2) },
        enemy: Enemy {
            shoot_timer: Timer::new(2_000_000),
            offset,
            can_see_player: false,
        },
        facing: v(0, 1_000),
    }
}

fn bare_world() -> World {
    World {
        player: None,
        enemies: Vec::new(),
        projectiles: Vec::new(),
        walls: Vec::new(),
        goal: None,
        history: PlayerVelocityHistory::new(HISTORY_LEN),
        footstep_timer: Timer::new(20_000),
        footstep_markers: Vec::new(),
        level_complete: false,
    }
}

#[test]
fn new_world_from_spawn_records() {
    let records = vec![
        record(SpawnKind::PlayerSpawner, 600_000, 400_000),
        record(SpawnKind::EnemySpawner, 200_000, 200_000),
        record(SpawnKind::EnemySpawner, 900_000, 600_000),
        SpawnRecord {
            kind: SpawnKind::WallSpawner,
            pos: v(400_000, 400_000),
            half_extent: v(16_000, 8_000),
        },
        record(SpawnKind::GoalMarker, 1_000_000, 700_000),
    ];
    let w = World::new(&records);
    assert_eq!(w.walls.len(), 5);  // 4 boundary walls + 1 from the records
    assert_eq!(w.walls[4].pos, v(400_000, 400_000));
    assert_eq!(w.walls[4].collider.half_size, v(16_000, 8_000));
    assert_eq!(w.enemies.len(), 2);
    assert_eq!(w.enemies[0].pos, v(200_000, 200_000));
    assert_eq!(w.enemies[1].pos, v(900_000, 600_000));
    let p = w.player.unwrap();
    assert_eq!(p.pos, v(600_000, 400_000));
    assert_eq!(w.goal.unwrap().pos, v(1_000_000, 700_000));
    assert!(w.projectiles.is_empty());
    assert!(!w.level_complete);
    // Boundary walls frame the window.
    assert_eq!(w.walls[0].pos, v(616_000, 8_000));
    assert_eq!(w.walls[1].pos, v(616_000, 824_000));
    assert_eq!(w.walls[2].pos, v(8_000, 416_000));
    assert_eq!(w.walls[3].pos, v(1_224_000, 416_000));
}

#[test]
fn end_to_end_pursuit_with_one_tick_lag() {
    // Player at the center, velocity history pre-filled with zeros; an enemy
    // samples the newest history slot. Constant rightward input.
    let mut w = bare_world();
    w.player = Some(player_at(600_000, 400_000));
    w.enemies.push(enemy_at(200_000, 200_000, 48));
    let input = Some(v(1_000, 0));
    let delta: u64 = 100_000;  // 0.1 s per tick

    let mut player_positions = vec![w.player.as_ref().unwrap().pos];
    let mut enemy_positions = vec![w.enemies[0].pos];
    let mut player_velocities = vec![v(0, 0)];
    let mut enemy_velocities = vec![v(0, 0)];
    for _ in 0..10 {
        w.tick(input, delta);
        player_positions.push(w.player.as_ref().unwrap().pos);
        enemy_positions.push(w.enemies[0].pos);
        player_velocities.push(w.player.as_ref().unwrap().velocity.0);
        enemy_velocities.push(w.enemies[0].velocity.0);
    }

    // The player accelerates rightward.
    assert!(player_velocities[1].x > 0);
    assert_eq!(player_velocities[1].y, 0);
    // Sampling the newest slot: the enemy's velocity after each tick equals
    // the player's velocity written the same tick.
    for k in 1..=10 {
        assert_eq!(enemy_velocities[k], player_velocities[k]);
    }
    // But the enemy moves one tick behind the player: during tick k it still
    // moved with the velocity sampled at tick k-1.
    for k in 2..=10 {
        let enemy_step = enemy_positions[k].x - enemy_positions[k - 1].x;
        let player_prev_step = player_positions[k - 1].x - player_positions[k - 2].x;
        assert_eq!(enemy_step, player_prev_step);
    }
    // The enemy had not moved at all on the first tick.
    assert_eq!(enemy_positions[1], enemy_positions[0]);

    // Low offsets still read pre-filled zeros after only 10 writes.
    assert_eq!(w.history.get(0), v(0, 0));
}

#[test]
fn shooting_pipeline_emits_event_and_projectile() {
    let mut w = bare_world();
    w.player = Some(player_at(600_000, 400_000));
    let mut e = enemy_at(600_000, 300_000, 0);
    // Make the shoot timer complete on the first tick.
    e.enemy.shoot_timer.set_elapsed(1_999_999);
    w.enemies.push(e);
    let events = w.tick(None, 100_000);
    assert!(events.contains(&GameEvent::Shoot));
    assert_eq!(w.projectiles.len(), 1);
    // Aimed straight up at the player.
    assert_eq!(w.projectiles[0].projectile.direction, v(0, 1_000));
}

#[test]
fn projectile_removed_on_wall_hit_with_event() {
    let mut w = World::new(&vec![record(SpawnKind::PlayerSpawner, 600_000, 400_000)]);
    // A projectile flying straight down toward the bottom boundary wall.
    w.projectiles.push(echoed_footsteps::ProjectileEnt {
        pos: v(600_000, 40_000),
        collider: DynamicCollider { half_size: v(1_000, 1_000) },
        projectile: echoed_footsteps::Projectile {
            direction: v(0, -1_000),
            speed: 300_000,
        },
    });
    let mut hit = false;
    for _ in 0..10 {
        let events = w.tick(None, 100_000);
        if events.contains(&GameEvent::ObstacleHit) {
            hit = true;
            assert!(w.projectiles.is_empty());
            break;
        }
    }
    assert!(hit, "the projectile must hit the bottom boundary wall");
}

#[test]
fn overlapping_enemies_squash_each_other() {
    let mut w = bare_world();
    w.player = Some(player_at(600_000, 400_000));
    w.enemies.push(enemy_at(200_000, 200_000, 0));
    w.enemies.push(enemy_at(205_000, 200_000, 0));  // overlapping the first
    w.enemies.push(enemy_at(900_000, 600_000, 0));  // far away, survives
    w.tick(None, 1_000);
    assert_eq!(w.enemies.len(), 1);
    assert_eq!(w.enemies[0].pos, v(900_000, 600_000));
}

#[test]
fn reaching_the_goal_completes_and_freezes_the_level() {
    let mut w = bare_world();
    w.player = Some(player_at(600_000, 400_000));
    w.goal = Some(Goal { pos: v(610_000, 400_000) });  // within the goal radius
    let events = w.tick(None, 1_000);
    assert_eq!(events.last(), Some(&GameEvent::LevelComplete));
    assert!(w.level_complete);
    assert_eq!(w.player.as_ref().unwrap().velocity.0, v(0, 0));
    assert_eq!(w.history.get(49), v(0, 0));
    // A completed level no longer ticks.
    let later = w.tick(Some(v(1_000, 0)), 100_000);
    assert!(later.is_empty());
}

#[test]
fn player_stops_flush_at_the_boundary_wall() {
    // Running right into the boundary wall: the resolver lands the player's
    // right edge exactly on the wall's left edge and keeps it there, while
    // the vertical axis is untouched.
    let mut w = World::new(&vec![record(SpawnKind::PlayerSpawner, 1_205_000, 416_000)]);
    // At a 16 millisecond tick the velocity stays below the wall thickness,
    // so the per-axis overlap test meets the wall instead of skipping it.
    for _ in 0..200 {
        w.tick(Some(v(1_000, 0)), 16_000);
    }
    let p = w.player.as_ref().unwrap();
    // The right boundary wall's left edge is at 1_216_000.
    assert_eq!(p.pos.x + UNIT / 2, 1_216_000);
    assert_eq!(p.pos.y, 416_000);
    // Velocity is still pushing into the wall; only the applied displacement
    // is corrected, each tick anew.
    assert!(p.velocity.0.x > 0);
}

#[test]
fn footstep_events_fire_while_moving() {
    let mut w = bare_world();
    w.player = Some(player_at(600_000, 400_000));
    let events = w.tick(Some(v(1_000, 0)), 100_000);
    // Velocity reaches 12_000 milliunits per tick on the first tick, which
    // is both above the footstep speed threshold and fast enough to finish
    // the recomputed 60_000 microsecond interval within a 100_000 tick.
    assert!(events.iter().any(|e| matches!(e, GameEvent::Footstep(_))));
    assert!(w.player.as_ref().unwrap().player.used_left_foot);
    // Each footstep leaves a marker that ages out after its fixed lifetime.
    assert_eq!(w.footstep_markers.len(), 1);
    assert_eq!(w.footstep_markers[0].age, 0);
    for _ in 0..49 {
        w.tick(None, 100_000);
    }
    assert!(w.footstep_markers.iter().all(|m| m.age < 5_000_000));
    let mut w2 = bare_world();
    w2.player = Some(player_at(600_000, 400_000));
    w2.footstep_markers.push(echoed_footsteps::FootstepMarker {
        pos: v(600_000, 400_000),
        foot_side: echoed_footsteps::FootSide::Left,
        age: 4_950_000,
    });
    w2.tick(None, 100_000);
    assert!(w2.footstep_markers.is_empty());
}
