//! Walls, the goal, and the level's entity spawn records.
//!
//! The level loader is an external collaborator: it hands the core plain
//! spawn records (kind, position, and for walls a half-extent), and the core
//! turns them into entities. The four boundary walls framing the playable
//! window are built here as well.

use vstd::prelude::*;

use crate::config::GEOM_LIMIT;
use crate::config::UNIT;
use crate::config::WINDOW_HEIGHT;
use crate::config::WINDOW_WIDTH;
use crate::geom::StaticCollider;
use crate::geom::half_wf;
use crate::vec2::Vec2;
use crate::vec2::in_bounds;

verus! {

/// An immovable obstacle: a position and a static collision box.
#[derive(Clone, Copy, Debug, PartialEq, Eq, Structural)]
pub struct Wall {
    pub pos: Vec2,
    pub collider: StaticCollider,
}

/// The level's goal marker; reaching it completes the level. It has no
/// collider: proximity alone counts.
#[derive(Clone, Copy, Debug, PartialEq, Eq, Structural)]
pub struct Goal {
    pub pos: Vec2,
}

/// A wall whose coordinates are small enough for all geometric functions.
pub open spec fn wall_wf(w: Wall) -> bool {
    &&& in_bounds(w.pos, GEOM_LIMIT as int)
    &&& half_wf(w.collider.half_size)
    &&& w.collider.half_size.x <= GEOM_LIMIT
    &&& w.collider.half_size.y <= GEOM_LIMIT
}

/// What an entity spawn record creates.
#[derive(Clone, Copy, Debug, PartialEq, Eq, Structural)]
pub enum SpawnKind {
    PlayerSpawner,
    EnemySpawner,
    GoalMarker,
    WallSpawner,
}

/// One entity spawn record from the level data: a kind, a position, and for
/// walls the half-extent of the collision box (ignored otherwise).
#[derive(Clone, Copy, Debug, PartialEq, Eq, Structural)]
pub struct SpawnRecord {
    pub kind: SpawnKind,
    pub pos: Vec2,
    pub half_extent: Vec2,
}

impl Wall {
    /// A wall at `pos` whose collision box has the given half-extent.
    pub fn new(pos: Vec2, half_size: Vec2) -> (r: Wall)
        ensures
            r.pos == pos,
            r.collider.half_size == half_size,
    {
        Wall { pos, collider: StaticCollider { half_size } }
    }
}

/// The wall below the playable window.
pub open spec fn spec_boundary_bottom() -> Wall {
    Wall {
        pos: Vec2 { x: 616_000, y: 8_000 },
        collider: StaticCollider { half_size: Vec2 { x: 600_000, y: 8_000 } },
    }
}

/// The wall above the playable window.
pub open spec fn spec_boundary_top() -> Wall {
    Wall {
        pos: Vec2 { x: 616_000, y: 824_000 },
        collider: StaticCollider { half_size: Vec2 { x: 600_000, y: 8_000 } },
    }
}

/// The wall left of the playable window.
pub open spec fn spec_boundary_left() -> Wall {
    Wall {
        pos: Vec2 { x: 8_000, y: 416_000 },
        collider: StaticCollider { half_size: Vec2 { x: 8_000, y: 400_000 } },
    }
}

/// The wall right of the playable window.
pub open spec fn spec_boundary_right() -> Wall {
    Wall {
        pos: Vec2 { x: 1_224_000, y: 416_000 },
        collider: StaticCollider { half_size: Vec2 { x: 8_000, y: 400_000 } },
    }
}

/// The four boundary walls framing the playable window: bottom, top, left,
/// right, in that order.
pub fn boundary_walls() -> (r: Vec<Wall>)
    ensures
        r@.len() == 4,
        r@[0] == spec_boundary_bottom(),
        r@[1] == spec_boundary_top(),
        r@[2] == spec_boundary_left(),
        r@[3] == spec_boundary_right(),
        forall|i: int| 0 <= i < 4 ==> wall_wf(#[trigger] r@[i]),
{
    let mut walls: Vec<Wall> = Vec::new();
    walls.push(
        Wall {
            pos: Vec2 { x: WINDOW_WIDTH / 2 + UNIT, y: UNIT / 2 },
            collider: StaticCollider { half_size: Vec2 { x: WINDOW_WIDTH / 2, y: UNIT / 2 } },
        },
    );
    walls.push(
        Wall {
            pos: Vec2 { x: WINDOW_WIDTH / 2 + UNIT, y: WINDOW_HEIGHT + UNIT + UNIT / 2 },
            collider: StaticCollider { half_size: Vec2 { x: WINDOW_WIDTH / 2, y: UNIT / 2 } },
        },
    );
    walls.push(
        Wall {
            pos: Vec2 { x: UNIT / 2, y: WINDOW_HEIGHT / 2 + UNIT },
            collider: StaticCollider { half_size: Vec2 { x: UNIT / 2, y: WINDOW_HEIGHT / 2 } },
        },
    );
    walls.push(
        Wall {
            pos: Vec2 { x: WINDOW_WIDTH + UNIT + UNIT / 2, y: WINDOW_HEIGHT / 2 + UNIT },
            collider: StaticCollider { half_size: Vec2 { x: UNIT / 2, y: WINDOW_HEIGHT / 2 } },
        },
    );
    walls
}

} // verus!
