//! Per-axis collision resolution for moving boxes against static obstacles.
//!
//! A moving entity's intended displacement for the tick is tested, at the
//! intended next position, against every obstacle. When a face is hit while
//! actually moving toward it, the displacement component on that axis is
//! rewritten so the entity's edge lands exactly flush with the obstacle's
//! edge; the other axis is left alone. Obstacles are processed independently
//! in order, each overwriting earlier corrections on the same axis, and every
//! overlap test uses the original intended position — the deliberate
//! last-obstacle-wins behaviour of the resolver.

use vstd::prelude::*;

use crate::config::GEOM_LIMIT;
use crate::environment::Wall;
use crate::environment::wall_wf;
use crate::geom::Collision;
use crate::geom::collide;
use crate::geom::spec_collide;
use crate::vec2::Vec2;
use crate::vec2::in_bounds;

verus! {

/// Componentwise sum, truncating on overflow; exact within bounds.
pub open spec fn vadd(a: Vec2, b: Vec2) -> Vec2 {
    Vec2 { x: (a.x + b.x) as i64, y: (a.y + b.y) as i64 }
}

/// The displacement after testing one obstacle: starting from the accumulated
/// displacement `t`, the component on a hit face's axis is replaced so the
/// edge lands flush, but only while the intended velocity pushes toward that
/// face; everything else passes through unchanged.
pub open spec fn correct_one(pos: Vec2, half: Vec2, vel: Vec2, t: Vec2, w: Wall) -> Vec2 {
    let next = vadd(pos, vel);
    let wh = w.collider.half_size;
    match spec_collide(next, half, w.pos, wh) {
        Some(c) => match c {
            Collision::Left => if vel.x > 0 {
                Vec2 { x: ((w.pos.x - wh.x) - (pos.x + half.x)) as i64, y: t.y }
            } else {
                t
            },
            Collision::Right => if vel.x < 0 {
                Vec2 { x: ((w.pos.x + wh.x) - (pos.x - half.x)) as i64, y: t.y }
            } else {
                t
            },
            Collision::Top => if vel.y < 0 {
                Vec2 { x: t.x, y: ((w.pos.y + wh.y) - (pos.y - half.y)) as i64 }
            } else {
                t
            },
            Collision::Bottom => if vel.y > 0 {
                Vec2 { x: t.x, y: ((w.pos.y - wh.y) - (pos.y + half.y)) as i64 }
            } else {
                t
            },
            Collision::Inside => t,
        },
        None => t,
    }
}

/// Folds `correct_one` over the remaining obstacles, starting from the
/// accumulated displacement `t`.
pub open spec fn spec_resolve_from(pos: Vec2, half: Vec2, vel: Vec2, walls: Seq<Wall>, t: Vec2)
    -> Vec2
    decreases walls.len(),
{
    if walls.len() == 0 {
        t
    } else {
        spec_resolve_from(pos, half, vel, walls.drop_first(), correct_one(pos, half, vel, t, walls[0]))
    }
}

/// The corrected displacement for intended displacement `vel` against all
/// obstacles, in order.
pub open spec fn spec_resolve(pos: Vec2, half: Vec2, vel: Vec2, walls: Seq<Wall>) -> Vec2 {
    spec_resolve_from(pos, half, vel, walls, vel)
}

/// Flush law: when the intended move penetrates a single obstacle through
/// exactly one face while actually moving toward that face, the corrected
/// displacement lands the entity's edge on the penetrated axis exactly on the
/// obstacle's opposing edge — zero overlap, zero gap — and leaves the
/// perpendicular axis untouched.
pub proof fn lemma_collision_flush(pos: Vec2, half: Vec2, vel: Vec2, w: Wall)
    requires
        resolve_wf(pos, half, vel),
        wall_wf(w),
    ensures
        ({
            let t = spec_resolve(pos, half, vel, seq![w]);
            let wh = w.collider.half_size;
            let c = spec_collide(vadd(pos, vel), half, w.pos, wh);
            &&& c == Some(Collision::Left) && vel.x > 0 ==> pos.x + t.x + half.x == w.pos.x - wh.x
                && t.y == vel.y
            &&& c == Some(Collision::Right) && vel.x < 0 ==> pos.x + t.x - half.x == w.pos.x + wh.x
                && t.y == vel.y
            &&& c == Some(Collision::Top) && vel.y < 0 ==> pos.y + t.y - half.y == w.pos.y + wh.y
                && t.x == vel.x
            &&& c == Some(Collision::Bottom) && vel.y > 0 ==> pos.y + t.y + half.y == w.pos.y
                - wh.y && t.x == vel.x
        }),
{
    let s = seq![w];
    assert(s.drop_first() =~= Seq::<Wall>::empty());
    assert(s[0] == w);
    let c1 = correct_one(pos, half, vel, vel, w);
    assert(spec_resolve_from(pos, half, vel, s, vel) == spec_resolve_from(
        pos,
        half,
        vel,
        s.drop_first(),
        c1,
    ));
    assert(spec_resolve_from(pos, half, vel, Seq::<Wall>::empty(), c1) == c1);
    assert(spec_resolve(pos, half, vel, s) == c1);
}

/// An entity admitted to the resolver: position, half-extent and velocity
/// bounded for exact arithmetic.
pub open spec fn resolve_wf(pos: Vec2, half: Vec2, vel: Vec2) -> bool {
    &&& in_bounds(pos, GEOM_LIMIT as int)
    &&& in_bounds(vel, GEOM_LIMIT as int)
    &&& 0 <= half.x <= GEOM_LIMIT
    &&& 0 <= half.y <= GEOM_LIMIT
}

/// Computes the collision-corrected displacement for one moving box: the
/// intended displacement `vel`, with each axis component rewritten to land
/// flush against the last obstacle whose face the move penetrates.
pub fn resolve(pos: Vec2, half: Vec2, vel: Vec2, walls: &Vec<Wall>) -> (corrected: Vec2)
    requires
        resolve_wf(pos, half, vel),
        forall|i: int| 0 <= i < walls@.len() ==> wall_wf(#[trigger] walls@[i]),
    ensures
        corrected == spec_resolve(pos, half, vel, walls@),
        in_bounds(corrected, 4 * GEOM_LIMIT as int),
{
    let next = Vec2 { x: pos.x + vel.x, y: pos.y + vel.y };
    assert(next == vadd(pos, vel));
    let mut t = vel;
    let n = walls.len();
    let mut i: usize = 0;
    proof {
        assert(walls@.skip(0) =~= walls@);
    }
    while i < n
        invariant
            n == walls@.len(),
            0 <= i <= n,
            resolve_wf(pos, half, vel),
            forall|k: int| 0 <= k < walls@.len() ==> wall_wf(#[trigger] walls@[k]),
            next == vadd(pos, vel),
            in_bounds(t, 4 * GEOM_LIMIT as int),
            spec_resolve_from(pos, half, vel, walls@.skip(i as int), t) == spec_resolve(
                pos,
                half,
                vel,
                walls@,
            ),
        decreases n - i,
    {
        let w = walls[i];
        let ghost rest = walls@.skip(i as int);
        let ghost t_old = t;
        proof {
            assert(rest[0] == walls@[i as int]);
            assert(rest.drop_first() =~= walls@.skip(i as int + 1));
        }
        match collide(next, half, w.pos, w.collider.half_size) {
            Some(c) => {
                match c {
                    Collision::Left => {
                        if vel.x > 0 {
                            t = Vec2 { x: (w.pos.x - w.collider.half_size.x) - (pos.x + half.x), y: t.y };
                        }
                    },
                    Collision::Right => {
                        if vel.x < 0 {
                            t = Vec2 { x: (w.pos.x + w.collider.half_size.x) - (pos.x - half.x), y: t.y };
                        }
                    },
                    Collision::Top => {
                        if vel.y < 0 {
                            t = Vec2 { x: t.x, y: (w.pos.y + w.collider.half_size.y) - (pos.y - half.y) };
                        }
                    },
                    Collision::Bottom => {
                        if vel.y > 0 {
                            t = Vec2 { x: t.x, y: (w.pos.y - w.collider.half_size.y) - (pos.y + half.y) };
                        }
                    },
                    Collision::Inside => {},
                }
            },
            None => {},
        }
        proof {
            assert(t == correct_one(pos, half, vel, t_old, rest[0]));
            assert(spec_resolve_from(pos, half, vel, rest, t_old) == spec_resolve_from(
                pos,
                half,
                vel,
                rest.drop_first(),
                t,
            ));
        }
        i = i + 1;
    }
    t
}

} // verus!
