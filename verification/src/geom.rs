//! Axis-aligned box overlap and collision-side classification.
//!
//! Boxes are given by a center position and nonnegative half-extents. Two
//! boxes collide when they overlap strictly on both axes; touching edges do
//! not count. When the moving box straddles exactly one edge of the static box
//! on an axis, that axis contributes a candidate face together with its
//! penetration depth, and the face with the smaller penetration wins (the
//! horizontal face on a tie). A moving box that straddles no edge of an axis
//! it overlaps is reported as `Inside`.

use vstd::prelude::*;

use crate::vec2::Vec2;
use crate::vec2::in_bounds;

verus! {

/// Largest coordinate or half-extent magnitude the box functions admit;
/// keeps every edge coordinate and depth difference within `i64`.
pub const BOX_LIMIT: i64 = 1_000_000_000_000;

/// The face of the static box that the moving box penetrated least:
/// `Left` means the moving box came from the left, `Bottom` from below.
/// `Inside` means no single face can be assigned.
#[derive(Clone, Copy, Debug, PartialEq, Eq, Structural)]
pub enum Collision {
    Left,
    Right,
    Top,
    Bottom,
    Inside,
}

/// Collision box of an immovable obstacle, by half-extents.
#[derive(Clone, Copy, Debug, PartialEq, Eq, Structural)]
pub struct StaticCollider {
    pub half_size: Vec2,
}

/// Collision box of a moving entity, by half-extents; fixed at spawn.
#[derive(Clone, Copy, Debug, PartialEq, Eq, Structural)]
pub struct DynamicCollider {
    pub half_size: Vec2,
}

/// A half-extent vector is valid when both components are nonnegative and
/// small enough for exact arithmetic.
pub open spec fn half_wf(half: Vec2) -> bool {
    0 <= half.x <= BOX_LIMIT && 0 <= half.y <= BOX_LIMIT
}

/// A position admitted to the geometric functions.
pub open spec fn pos_wf(pos: Vec2) -> bool {
    in_bounds(pos, BOX_LIMIT as int)
}

/// The boxes overlap strictly on both axes.
pub open spec fn overlaps(a_pos: Vec2, a_half: Vec2, b_pos: Vec2, b_half: Vec2) -> bool {
    &&& a_pos.x - a_half.x < b_pos.x + b_half.x
    &&& a_pos.x + a_half.x > b_pos.x - b_half.x
    &&& a_pos.y - a_half.y < b_pos.y + b_half.y
    &&& a_pos.y + a_half.y > b_pos.y - b_half.y
}

/// Candidate face on the horizontal axis: the moving box `a` straddles
/// exactly the left or the right edge of `b`. Paired with the penetration
/// depth past that edge.
pub open spec fn x_face(a_pos: Vec2, a_half: Vec2, b_pos: Vec2, b_half: Vec2) -> Option<
    (Collision, int),
> {
    let a_min = a_pos.x - a_half.x;
    let a_max = a_pos.x + a_half.x;
    let b_min = b_pos.x - b_half.x;
    let b_max = b_pos.x + b_half.x;
    if a_min < b_min && a_max > b_min && a_max < b_max {
        Some((Collision::Left, a_max - b_min))
    } else if a_min > b_min && a_min < b_max && a_max > b_max {
        Some((Collision::Right, b_max - a_min))
    } else {
        None
    }
}

/// Candidate face on the vertical axis, as `x_face`: `Bottom` when `a`
/// straddles the lower edge of `b`, `Top` the upper.
pub open spec fn y_face(a_pos: Vec2, a_half: Vec2, b_pos: Vec2, b_half: Vec2) -> Option<
    (Collision, int),
> {
    let a_min = a_pos.y - a_half.y;
    let a_max = a_pos.y + a_half.y;
    let b_min = b_pos.y - b_half.y;
    let b_max = b_pos.y + b_half.y;
    if a_min < b_min && a_max > b_min && a_max < b_max {
        Some((Collision::Bottom, a_max - b_min))
    } else if a_min > b_min && a_min < b_max && a_max > b_max {
        Some((Collision::Top, b_max - a_min))
    } else {
        None
    }
}

/// The collision verdict for moving box `a` against static box `b`: `None`
/// without overlap, otherwise the least-penetrated face, `Inside` when no
/// face qualifies.
pub open spec fn spec_collide(a_pos: Vec2, a_half: Vec2, b_pos: Vec2, b_half: Vec2) -> Option<
    Collision,
> {
    if !overlaps(a_pos, a_half, b_pos, b_half) {
        None
    } else {
        match (x_face(a_pos, a_half, b_pos, b_half), y_face(a_pos, a_half, b_pos, b_half)) {
            (Some((xc, xd)), Some((yc, yd))) => if yd < xd {
                Some(yc)
            } else {
                Some(xc)
            },
            (Some((xc, xd)), None) => Some(xc),
            (None, Some((yc, yd))) => Some(yc),
            (None, None) => Some(Collision::Inside),
        }
    }
}

/// Which face of static box `b` the moving box `a` collided with, if they
/// overlap at all.
pub fn collide(a_pos: Vec2, a_half: Vec2, b_pos: Vec2, b_half: Vec2) -> (r: Option<Collision>)
    requires
        pos_wf(a_pos),
        pos_wf(b_pos),
        half_wf(a_half),
        half_wf(b_half),
    ensures
        r == spec_collide(a_pos, a_half, b_pos, b_half),
{
    let a_min_x = a_pos.x - a_half.x;
    let a_max_x = a_pos.x + a_half.x;
    let b_min_x = b_pos.x - b_half.x;
    let b_max_x = b_pos.x + b_half.x;
    let a_min_y = a_pos.y - a_half.y;
    let a_max_y = a_pos.y + a_half.y;
    let b_min_y = b_pos.y - b_half.y;
    let b_max_y = b_pos.y + b_half.y;
    if !(a_min_x < b_max_x && a_max_x > b_min_x && a_min_y < b_max_y && a_max_y > b_min_y) {
        return None;
    }
    let x_hit_left = a_min_x < b_min_x && a_max_x > b_min_x && a_max_x < b_max_x;
    let x_hit_right = a_min_x > b_min_x && a_min_x < b_max_x && a_max_x > b_max_x;
    let y_hit_bottom = a_min_y < b_min_y && a_max_y > b_min_y && a_max_y < b_max_y;
    let y_hit_top = a_min_y > b_min_y && a_min_y < b_max_y && a_max_y > b_max_y;
    if x_hit_left || x_hit_right {
        let xc = if x_hit_left {
            Collision::Left
        } else {
            Collision::Right
        };
        let xd = if x_hit_left {
            a_max_x - b_min_x
        } else {
            b_max_x - a_min_x
        };
        if y_hit_bottom || y_hit_top {
            let yc = if y_hit_bottom {
                Collision::Bottom
            } else {
                Collision::Top
            };
            let yd = if y_hit_bottom {
                a_max_y - b_min_y
            } else {
                b_max_y - a_min_y
            };
            if yd < xd {
                Some(yc)
            } else {
                Some(xc)
            }
        } else {
            Some(xc)
        }
    } else {
        if y_hit_bottom || y_hit_top {
            let yc = if y_hit_bottom {
                Collision::Bottom
            } else {
                Collision::Top
            };
            Some(yc)
        } else {
            Some(Collision::Inside)
        }
    }
}

/// The overlap test alone, without face classification.
pub fn boxes_overlap(a_pos: Vec2, a_half: Vec2, b_pos: Vec2, b_half: Vec2) -> (r: bool)
    requires
        pos_wf(a_pos),
        pos_wf(b_pos),
        half_wf(a_half),
        half_wf(b_half),
    ensures
        r == overlaps(a_pos, a_half, b_pos, b_half),
{
    a_pos.x - a_half.x < b_pos.x + b_half.x && a_pos.x + a_half.x > b_pos.x - b_half.x
        && a_pos.y - a_half.y < b_pos.y + b_half.y && a_pos.y + a_half.y > b_pos.y - b_half.y
}

impl Default for DynamicCollider {
    /// One tile square, like the player's and the enemies' collision boxes.
    fn default() -> (r: Self)
        ensures
            r.half_size.x == crate::config::UNIT / 2,
            r.half_size.y == crate::config::UNIT / 2,
    {
        DynamicCollider { half_size: Vec2 { x: crate::config::UNIT / 2, y: crate::config::UNIT / 2 } }
    }
}

} // verus!
