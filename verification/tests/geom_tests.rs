//! Tests of box overlap and collision-side classification.

use echoed_footsteps::Collision;
use echoed_footsteps::Vec2;
use echoed_footsteps::boxes_overlap;
use echoed_footsteps::collide;

fn v(x: i64, y: i64) -> Vec2 {
    Vec2 { x, y }
}

#[test]
fn overlap_strict_and_touching() {
    let half = v(1000, 1000);
    assert!(boxes_overlap(v(0, 0), half, v(1500, 0), half));
    // Touching edges do not overlap.
    assert!(!boxes_overlap(v(0, 0), half, v(2000, 0), half));
    assert!(!boxes_overlap(v(0, 0), half, v(0, 2000), half));
    assert!(!boxes_overlap(v(0, 0), half, v(5000, 0), half));
}

#[test]
fn collide_sides() {
    let a_half = v(1000, 1000);
    let b_half = v(1000, 1000);
    // Moving box to the left of the static box, penetrating its left edge.
    assert_eq!(collide(v(-1500, 0), a_half, v(0, 0), b_half), Some(Collision::Left));
    assert_eq!(collide(v(1500, 0), a_half, v(0, 0), b_half), Some(Collision::Right));
    assert_eq!(collide(v(0, -1500), a_half, v(0, 0), b_half), Some(Collision::Bottom));
    assert_eq!(collide(v(0, 1500), a_half, v(0, 0), b_half), Some(Collision::Top));
    // Far away: no collision at all.
    assert_eq!(collide(v(5000, 0), a_half, v(0, 0), b_half), None);
}

#[test]
fn collide_prefers_smaller_penetration() {
    let a_half = v(1000, 1000);
    let b_half = v(1000, 1000);
    // Deep on x (depth 1900), shallow on y (depth 300): the vertical face wins.
    assert_eq!(collide(v(-100, 1700), a_half, v(0, 0), b_half), Some(Collision::Top));
    // Shallow on x (depth 300), deep on y (depth 1900): the horizontal face wins.
    assert_eq!(collide(v(1700, 100), a_half, v(0, 0), b_half), Some(Collision::Right));
}

#[test]
fn collide_inside() {
    // A small box fully inside a large one straddles no edge.
    assert_eq!(
        collide(v(0, 0), v(100, 100), v(0, 0), v(10_000, 10_000)),
        Some(Collision::Inside)
    );
}
