//! Tests of the collision resolver.

use echoed_footsteps::StaticCollider;
use echoed_footsteps::Vec2;
use echoed_footsteps::Wall;
use echoed_footsteps::resolve;

fn v(x: i64, y: i64) -> Vec2 {
    Vec2 { x, y }
}

fn wall(x: i64, y: i64, hx: i64, hy: i64) -> Wall {
    Wall { pos: v(x, y), collider: StaticCollider { half_size: v(hx, hy) } }
}

#[test]
fn resolve_flush_left_face() {
    // Moving right into a wall: the x displacement is cut so the right edge
    // lands exactly on the wall's left edge; y is untouched.
    let pos = v(100_000, 100_000);
    let half = v(8_000, 8_000);
    let vel = v(20_000, 0);
    let walls = vec![wall(130_000, 100_000, 8_000, 8_000)];
    let t = resolve(pos, half, vel, &walls);
    assert_eq!(t, v(14_000, 0));
    // Flush: pos.x + t.x + half.x == wall left edge.
    assert_eq!(pos.x + t.x + half.x, 130_000 - 8_000);
}

#[test]
fn resolve_flush_top_face() {
    // Moving down onto a wall from above.
    let pos = v(100_000, 100_000);
    let half = v(8_000, 8_000);
    let vel = v(0, -20_000);
    let walls = vec![wall(100_000, 70_000, 8_000, 8_000)];
    let t = resolve(pos, half, vel, &walls);
    // Corrected so the bottom edge lands on the wall's top edge.
    assert_eq!(t, v(0, (70_000 + 8_000) - (100_000 - 8_000)));
    assert_eq!(pos.y + t.y - half.y, 70_000 + 8_000);
}

#[test]
fn resolve_without_collision_keeps_delta() {
    let pos = v(100_000, 100_000);
    let half = v(8_000, 8_000);
    let vel = v(5_000, -3_000);
    let walls = vec![wall(500_000, 500_000, 8_000, 8_000)];
    assert_eq!(resolve(pos, half, vel, &walls), vel);
}

#[test]
fn resolve_not_corrected_when_moving_away() {
    // Overlap at the next position, but the velocity points away from the
    // penetrated face on that axis: no correction.
    let pos = v(100_000, 100_000);
    let half = v(8_000, 8_000);
    // Moving left, but the wall is to the right of the next position.
    let vel = v(-2_000, 0);
    let walls = vec![wall(110_000, 100_000, 8_000, 8_000)];
    let t = resolve(pos, half, vel, &walls);
    // Next position 98_000 still overlaps the wall's left face region, and
    // Collision::Left pairs with a rightward velocity only.
    assert_eq!(t, vel);
}

#[test]
fn resolve_last_obstacle_wins() {
    // Two walls both penetrated on the x axis: the later one's correction
    // overwrites the earlier one's.
    let pos = v(100_000, 100_000);
    let half = v(8_000, 8_000);
    let vel = v(20_000, 0);
    let near = wall(130_000, 100_000, 8_000, 8_000);
    let far = wall(133_000, 100_000, 8_000, 8_000);
    let both = vec![near, far];
    let t = resolve(pos, half, vel, &both);
    // The far wall is processed last: flush against its left edge.
    assert_eq!(t.x, (133_000 - 8_000) - (100_000 + 8_000));
    let reversed = vec![far, near];
    let t2 = resolve(pos, half, vel, &reversed);
    assert_eq!(t2.x, (130_000 - 8_000) - (100_000 + 8_000));
}
