//! The game world: entity registry and the per-tick pipeline.
//!
//! The world owns the player, the enemies, the projectiles, the walls, the
//! goal, the player's velocity history and the footstep timer. One `tick`
//! runs the update pipeline in its fixed order — player velocity update and
//! history write, collision-resolved movement, enemy velocity sampling,
//! perception, shooting, enemy collisions, projectile lifecycle, footstep
//! cadence, level completion — and returns the tick's game events. Enemy
//! behavior reads the history sample written earlier in the same tick, which
//! is what gives the pack its staggered pursuit.

use vstd::prelude::*;

use crate::config::DELTA_LIMIT;
use crate::config::ENEMY_OFFSET_MAX;
use crate::config::FOOTSTEP_INTERVAL_START;
use crate::config::GEOM_LIMIT;
use crate::config::HISTORY_LEN;
use crate::config::PROJECTILE_HALF;
use crate::config::SCALE;
use crate::config::UNIT;
use crate::config::VEL_LIMIT;
use crate::config::VIS_MAX_DISTANCE;
use crate::config::VIS_STEP;
use crate::enemy::Enemy;
use crate::enemy::Projectile;
use crate::environment::Goal;
use crate::environment::SpawnKind;
use crate::environment::SpawnRecord;
use crate::environment::Wall;
use crate::environment::boundary_walls;
use crate::environment::spec_boundary_bottom;
use crate::environment::spec_boundary_left;
use crate::environment::spec_boundary_right;
use crate::environment::spec_boundary_top;
use crate::environment::wall_wf;
use crate::footstep::FootSide;
use crate::geom::DynamicCollider;
use crate::geom::StaticCollider;
use crate::history::PlayerVelocityHistory;
use crate::player::Player;
use crate::player::Velocity;
use crate::timer::Timer;
use crate::vec2::Vec2;
use crate::vec2::in_bounds;

verus! {

/// The player entity: position, velocity, collision box, behavior state and
/// facing direction.
#[derive(Clone, Copy, Debug)]
pub struct PlayerEnt {
    pub pos: Vec2,
    pub velocity: Velocity,
    pub collider: DynamicCollider,
    pub player: Player,
    pub facing: Vec2,
}

/// An enemy entity.
#[derive(Clone, Copy, Debug)]
pub struct EnemyEnt {
    pub pos: Vec2,
    pub velocity: Velocity,
    pub collider: DynamicCollider,
    pub enemy: Enemy,
    pub facing: Vec2,
}

/// A projectile entity; its velocity lives in the projectile itself.
#[derive(Clone, Copy, Debug)]
pub struct ProjectileEnt {
    pub pos: Vec2,
    pub collider: DynamicCollider,
    pub projectile: Projectile,
}

/// An event emitted by one tick, for the audio and visual collaborators.
#[derive(Clone, Copy, Debug, PartialEq, Eq, Structural)]
pub enum GameEvent {
    Footstep(FootSide),
    Shoot,
    ObstacleHit,
    LevelComplete,
}

/// The whole game state that the tick pipeline reads and writes.
pub struct World {
    pub player: Option<PlayerEnt>,
    pub enemies: Vec<EnemyEnt>,
    pub projectiles: Vec<ProjectileEnt>,
    pub walls: Vec<Wall>,
    pub goal: Option<Goal>,
    pub history: PlayerVelocityHistory,
    pub footstep_timer: Timer,
    pub footstep_markers: Vec<FootstepMarker>,
    pub level_complete: bool,
}

/// A footstep decal left behind by the player, beside the stepping foot; it
/// ages every footstep tick and expires after a fixed lifetime.
#[derive(Clone, Copy, Debug, PartialEq, Eq, Structural)]
pub struct FootstepMarker {
    pub pos: Vec2,
    pub foot_side: FootSide,
    pub age: u64,
}

/// A marker is younger than its lifetime and near the playable area.
pub open spec fn marker_wf(m: FootstepMarker) -> bool {
    &&& m.age < crate::config::FOOTSTEP_MAX_AGE
    &&& in_bounds(m.pos, 2 * GEOM_LIMIT as int)
}

/// A dynamic collider whose half-extents are nonnegative and bounded.
pub open spec fn collider_wf(c: DynamicCollider) -> bool {
    0 <= c.half_size.x <= GEOM_LIMIT && 0 <= c.half_size.y <= GEOM_LIMIT
}

/// A valid player entity: everything bounded.
pub open spec fn player_ent_wf(p: PlayerEnt) -> bool {
    &&& in_bounds(p.pos, GEOM_LIMIT as int)
    &&& in_bounds(p.velocity.0, VEL_LIMIT as int)
    &&& collider_wf(p.collider)
    &&& in_bounds(p.facing, SCALE as int)
}

/// A valid enemy entity: bounded, with a valid behavior state.
pub open spec fn enemy_ent_wf(e: EnemyEnt) -> bool {
    &&& in_bounds(e.pos, GEOM_LIMIT as int)
    &&& in_bounds(e.velocity.0, VEL_LIMIT as int)
    &&& collider_wf(e.collider)
    &&& in_bounds(e.facing, SCALE as int)
    &&& e.enemy.wf()
}

/// A valid projectile entity: bounded, with a valid projectile.
pub open spec fn projectile_ent_wf(p: ProjectileEnt) -> bool {
    &&& in_bounds(p.pos, GEOM_LIMIT as int)
    &&& collider_wf(p.collider)
    &&& crate::enemy::projectile_wf(p.projectile)
}

impl World {
    /// Every entity is valid and the history has its fixed capacity, enough
    /// for every enemy offset.
    pub open spec fn wf(&self) -> bool {
        &&& self.player matches Some(p) ==> player_ent_wf(p)
        &&& forall|i: int| 0 <= i < self.enemies@.len() ==> enemy_ent_wf(#[trigger] self.enemies@[i])
        &&& forall|i: int|
            0 <= i < self.projectiles@.len() ==> projectile_ent_wf(#[trigger] self.projectiles@[i])
        &&& forall|i: int| 0 <= i < self.walls@.len() ==> wall_wf(#[trigger] self.walls@[i])
        &&& self.goal matches Some(g) ==> in_bounds(g.pos, GEOM_LIMIT as int)
        &&& self.history.wf()
        &&& self.history.capacity() == HISTORY_LEN
        &&& self.footstep_timer.wf()
        &&& forall|i: int|
            0 <= i < self.footstep_markers@.len() ==> marker_wf(#[trigger] self.footstep_markers@[i])
    }
}

/// The walls created by the spawn records, in record order.
pub open spec fn spec_walls_of(records: Seq<SpawnRecord>) -> Seq<Wall>
    decreases records.len(),
{
    if records.len() == 0 {
        Seq::empty()
    } else {
        let front = spec_walls_of(records.drop_last());
        let last = records.last();
        if last.kind is WallSpawner {
            front.push(Wall { pos: last.pos, collider: StaticCollider { half_size: last.half_extent } })
        } else {
            front
        }
    }
}

/// The enemy spawn positions of the records, in record order.
pub open spec fn spec_enemy_positions(records: Seq<SpawnRecord>) -> Seq<Vec2>
    decreases records.len(),
{
    if records.len() == 0 {
        Seq::empty()
    } else {
        let front = spec_enemy_positions(records.drop_last());
        if records.last().kind is EnemySpawner {
            front.push(records.last().pos)
        } else {
            front
        }
    }
}

/// The player spawn position: the last player record wins.
pub open spec fn spec_player_pos_of(records: Seq<SpawnRecord>) -> Option<Vec2>
    decreases records.len(),
{
    if records.len() == 0 {
        None
    } else if records.last().kind is PlayerSpawner {
        Some(records.last().pos)
    } else {
        spec_player_pos_of(records.drop_last())
    }
}

/// The goal position: the last goal record wins.
pub open spec fn spec_goal_pos_of(records: Seq<SpawnRecord>) -> Option<Vec2>
    decreases records.len(),
{
    if records.len() == 0 {
        None
    } else if records.last().kind is GoalMarker {
        Some(records.last().pos)
    } else {
        spec_goal_pos_of(records.drop_last())
    }
}

/// Wraps a spawn position in a fresh player entity, if there is one.
pub open spec fn spec_player_of(pos: Option<Vec2>) -> Option<PlayerEnt> {
    match pos {
        Some(p) => Some(spec_fresh_player(p)),
        None => None,
    }
}

/// Wraps a spawn position in a goal, if there is one.
pub open spec fn spec_goal_of(pos: Option<Vec2>) -> Option<Goal> {
    match pos {
        Some(p) => Some(Goal { pos: p }),
        None => None,
    }
}

/// The player entity freshly spawned at `pos`: at rest, right foot last (so
/// the first footstep is the left), facing up.
pub open spec fn spec_fresh_player(pos: Vec2) -> PlayerEnt {
    PlayerEnt {
        pos,
        velocity: Velocity(Vec2 { x: 0, y: 0 }),
        collider: DynamicCollider {
            half_size: Vec2 { x: (UNIT / 2) as i64, y: (UNIT / 2) as i64 },
        },
        player: Player { used_left_foot: false },
        facing: Vec2 { x: 0, y: SCALE },
    }
}

impl World {
    /// Builds a level from its spawn records: the four boundary walls come
    /// first, then the records take effect in order — walls and enemies
    /// accumulate, the last player and goal records win. The velocity history
    /// starts pre-filled with zeros and the footstep timer at its base
    /// interval.
    pub fn new(records: &Vec<SpawnRecord>) -> (w: World)
        requires
            forall|i: int|
                0 <= i < records@.len() ==> in_bounds((#[trigger] records@[i]).pos, GEOM_LIMIT as int),
            forall|i: int|
                0 <= i < records@.len() ==> 0 <= (#[trigger] records@[i]).half_extent.x <= GEOM_LIMIT
                    && 0 <= records@[i].half_extent.y <= GEOM_LIMIT,
        ensures
            w.wf(),
            w.walls@ == seq![
                spec_boundary_bottom(),
                spec_boundary_top(),
                spec_boundary_left(),
                spec_boundary_right(),
            ] + spec_walls_of(records@),
            w.enemies@.len() == spec_enemy_positions(records@).len(),
            forall|i: int|
                0 <= i < w.enemies@.len() ==> (#[trigger] w.enemies@[i]).pos
                    == spec_enemy_positions(records@)[i] && w.enemies@[i].velocity.0 == (Vec2 {
                    x: 0,
                    y: 0,
                }) && !w.enemies@[i].enemy.can_see_player && w.enemies@[i].collider.half_size == (
                Vec2 { x: (UNIT / 2) as i64, y: (UNIT / 2) as i64 }),
            w.player == spec_player_of(spec_player_pos_of(records@)),
            w.goal == spec_goal_of(spec_goal_pos_of(records@)),
            w.projectiles@.len() == 0,
            w.history.capacity() == HISTORY_LEN,
            w.history.write_pos() == 0,
            forall|i: int|
                0 <= i < HISTORY_LEN ==> w.history.samples()[i] == (Vec2 { x: 0, y: 0 }),
            w.footstep_timer == (Timer {
                duration: FOOTSTEP_INTERVAL_START,
                elapsed: 0,
                just_finished: false,
            }),
            w.footstep_markers@.len() == 0,
            !w.level_complete,
    {
        let mut walls = boundary_walls();
        let mut enemies: Vec<EnemyEnt> = Vec::new();
        let mut player: Option<PlayerEnt> = None;
        let mut goal: Option<Goal> = None;
        let ghost boundary = seq![
            spec_boundary_bottom(),
            spec_boundary_top(),
            spec_boundary_left(),
            spec_boundary_right(),
        ];
        proof {
            assert(walls@ =~= boundary);
            assert(records@.take(0) =~= Seq::<SpawnRecord>::empty());
            assert(walls@ =~= boundary + spec_walls_of(records@.take(0)));
        }
        let n = records.len();
        let mut i: usize = 0;
        while i < n
            invariant
                n == records@.len(),
                0 <= i <= n,
                forall|k: int|
                    0 <= k < records@.len() ==> in_bounds(
                        (#[trigger] records@[k]).pos,
                        GEOM_LIMIT as int,
                    ),
                forall|k: int|
                    0 <= k < records@.len() ==> 0 <= (#[trigger] records@[k]).half_extent.x
                        <= GEOM_LIMIT && 0 <= records@[k].half_extent.y <= GEOM_LIMIT,
                walls@ == boundary + spec_walls_of(records@.take(i as int)),
                forall|k: int| 0 <= k < walls@.len() ==> wall_wf(#[trigger] walls@[k]),
                enemies@.len() == spec_enemy_positions(records@.take(i as int)).len(),
                forall|k: int|
                    0 <= k < enemies@.len() ==> (#[trigger] enemies@[k]).pos
                        == spec_enemy_positions(records@.take(i as int))[k] && enemies@[k].velocity.0
                        == (Vec2 { x: 0, y: 0 }) && !enemies@[k].enemy.can_see_player
                        && enemies@[k].collider.half_size == (Vec2 {
                        x: (UNIT / 2) as i64,
                        y: (UNIT / 2) as i64,
                    }) && enemy_ent_wf(enemies@[k]),
                player == spec_player_of(spec_player_pos_of(records@.take(i as int))),
                (player matches Some(p) ==> player_ent_wf(p)),
                goal == spec_goal_of(spec_goal_pos_of(records@.take(i as int))),
                (goal matches Some(g) ==> in_bounds(g.pos, GEOM_LIMIT as int)),
            decreases n - i,
        {
            let r = records[i];
            proof {
                assert(records@.take(i + 1).drop_last() =~= records@.take(i as int));
                assert(records@.take(i + 1).last() == records@[i as int]);
            }
            match r.kind {
                SpawnKind::PlayerSpawner => {
                    player = Some(
                        PlayerEnt {
                            pos: r.pos,
                            velocity: Velocity(Vec2 { x: 0, y: 0 }),
                            collider: DynamicCollider {
                                half_size: Vec2 { x: UNIT / 2, y: UNIT / 2 },
                            },
                            player: Player { used_left_foot: false },
                            facing: Vec2 { x: 0, y: SCALE },
                        },
                    );
                },
                SpawnKind::EnemySpawner => {
                    let e = Enemy::new();
                    enemies.push(
                        EnemyEnt {
                            pos: r.pos,
                            velocity: Velocity(Vec2 { x: 0, y: 0 }),
                            collider: DynamicCollider {
                                half_size: Vec2 { x: UNIT / 2, y: UNIT / 2 },
                            },
                            enemy: e,
                            facing: Vec2 { x: 0, y: SCALE },
                        },
                    );
                },
                SpawnKind::GoalMarker => {
                    goal = Some(Goal { pos: r.pos });
                },
                SpawnKind::WallSpawner => {
                    walls.push(Wall { pos: r.pos, collider: StaticCollider { half_size: r.half_extent } });
                },
            }
            i = i + 1;
        }
        proof {
            assert(records@.take(n as int) =~= records@);
        }
        let history = PlayerVelocityHistory::new(HISTORY_LEN);
        let footstep_timer = Timer::new(FOOTSTEP_INTERVAL_START);
        World {
            player,
            enemies,
            projectiles: Vec::new(),
            walls,
            goal,
            history,
            footstep_timer,
            footstep_markers: Vec::new(),
            level_complete: false,
        }
    }
}

/// A coordinate clamped to the world's coordinate range; the playable window
/// is a small fraction of that range, so the clamp never acts in play.
pub open spec fn spec_clamp_coord(c: int) -> i64 {
    if c < -GEOM_LIMIT {
        (-GEOM_LIMIT) as i64
    } else if c > GEOM_LIMIT {
        GEOM_LIMIT as i64
    } else {
        c as i64
    }
}

/// Where a moving box ends up this tick: its position plus its
/// collision-corrected displacement, kept within the coordinate range.
pub open spec fn spec_move_pos(pos: Vec2, half: Vec2, vel: Vec2, walls: Seq<Wall>) -> Vec2 {
    let t = crate::physics::spec_resolve(pos, half, vel, walls);
    Vec2 { x: spec_clamp_coord(pos.x + t.x), y: spec_clamp_coord(pos.y + t.y) }
}

/// Clamps one coordinate into the world's coordinate range.
fn clamp_coord(c: i64) -> (r: i64)
    ensures
        r == spec_clamp_coord(c as int),
{
    if c < -GEOM_LIMIT {
        -GEOM_LIMIT
    } else if c > GEOM_LIMIT {
        GEOM_LIMIT
    } else {
        c
    }
}

/// Moves one box by its collision-corrected displacement.
fn move_one(pos: Vec2, half: Vec2, vel: Vec2, walls: &Vec<Wall>) -> (np: Vec2)
    requires
        crate::physics::resolve_wf(pos, half, vel),
        forall|i: int| 0 <= i < walls@.len() ==> wall_wf(#[trigger] walls@[i]),
    ensures
        np == spec_move_pos(pos, half, vel, walls@),
        in_bounds(np, GEOM_LIMIT as int),
{
    let t = crate::physics::resolve(pos, half, vel, walls);
    let nx = clamp_coord(pos.x + t.x);
    let ny = clamp_coord(pos.y + t.y);
    Vec2 { x: nx, y: ny }
}

impl World {
    /// Moves the player and every enemy by their collision-corrected
    /// displacements; everything else is untouched.
    pub fn move_and_collide(&mut self)
        requires
            old(self).wf(),
        ensures
            final(self).wf(),
            final(self).walls == old(self).walls,
            final(self).goal == old(self).goal,
            final(self).projectiles == old(self).projectiles,
            final(self).history == old(self).history,
            final(self).footstep_timer == old(self).footstep_timer,
            final(self).footstep_markers == old(self).footstep_markers,
            final(self).level_complete == old(self).level_complete,
            (old(self).player is None ==> final(self).player is None),
            (old(self).player matches Some(p) ==> final(self).player matches Some(q) && q == (
            PlayerEnt {
                pos: spec_move_pos(p.pos, p.collider.half_size, p.velocity.0, old(self).walls@),
                ..p
            })),
            final(self).enemies@.len() == old(self).enemies@.len(),
            forall|i: int|
                0 <= i < old(self).enemies@.len() ==> #[trigger] final(self).enemies@[i] == (
                EnemyEnt {
                    pos: spec_move_pos(
                        old(self).enemies@[i].pos,
                        old(self).enemies@[i].collider.half_size,
                        old(self).enemies@[i].velocity.0,
                        old(self).walls@,
                    ),
                    ..old(self).enemies@[i]
                }),
    {
        match self.player {
            Some(p) => {
                let np = move_one(p.pos, p.collider.half_size, p.velocity.0, &self.walls);
                self.player = Some(PlayerEnt { pos: np, ..p });
            },
            None => {},
        }
        let n = self.enemies.len();
        let mut i: usize = 0;
        while i < n
            invariant
                n == self.enemies@.len(),
                0 <= i <= n,
                self.enemies@.len() == old(self).enemies@.len(),
                self.walls == old(self).walls,
                self.goal == old(self).goal,
                self.projectiles == old(self).projectiles,
                self.history == old(self).history,
                self.footstep_timer == old(self).footstep_timer,
                self.footstep_markers == old(self).footstep_markers,
                self.level_complete == old(self).level_complete,
                (old(self).player is None ==> self.player is None),
                (old(self).player matches Some(p) ==> self.player matches Some(q) && q == (
                PlayerEnt {
                    pos: spec_move_pos(p.pos, p.collider.half_size, p.velocity.0, old(self).walls@),
                    ..p
                })),
                (self.player matches Some(q) ==> player_ent_wf(q)),
                self.history.wf(),
                self.history.capacity() == HISTORY_LEN,
                self.footstep_timer.wf(),
                forall|k: int|
                    0 <= k < self.projectiles@.len() ==> projectile_ent_wf(
                        #[trigger] self.projectiles@[k],
                    ),
                (self.goal matches Some(g) ==> in_bounds(g.pos, GEOM_LIMIT as int)),
                forall|k: int| 0 <= k < self.walls@.len() ==> wall_wf(#[trigger] self.walls@[k]),
                forall|k: int|
                    i <= k < n ==> #[trigger] self.enemies@[k] == old(self).enemies@[k],
                forall|k: int|
                    0 <= k < i ==> #[trigger] self.enemies@[k] == (EnemyEnt {
                        pos: spec_move_pos(
                            old(self).enemies@[k].pos,
                            old(self).enemies@[k].collider.half_size,
                            old(self).enemies@[k].velocity.0,
                            old(self).walls@,
                        ),
                        ..old(self).enemies@[k]
                    }),
                forall|k: int| 0 <= k < n ==> enemy_ent_wf(#[trigger] self.enemies@[k]),
            decreases n - i,
        {
            let e = self.enemies[i];
            let np = move_one(e.pos, e.collider.half_size, e.velocity.0, &self.walls);
            self.enemies.set(i, EnemyEnt { pos: np, ..e });
            i = i + 1;
        }
    }

    /// Every enemy's velocity becomes the player's history sample at the
    /// enemy's own offset, giving each a different delay behind the player.
    pub fn update_enemy_velocity(&mut self)
        requires
            old(self).wf(),
        ensures
            final(self).wf(),
            final(self).walls == old(self).walls,
            final(self).goal == old(self).goal,
            final(self).projectiles == old(self).projectiles,
            final(self).history == old(self).history,
            final(self).footstep_timer == old(self).footstep_timer,
            final(self).footstep_markers == old(self).footstep_markers,
            final(self).level_complete == old(self).level_complete,
            final(self).player == old(self).player,
            final(self).enemies@.len() == old(self).enemies@.len(),
            forall|i: int|
                0 <= i < old(self).enemies@.len() ==> #[trigger] final(self).enemies@[i] == (
                EnemyEnt {
                    velocity: Velocity(
                        old(self).history.samples()[(old(self).history.write_pos() + 1 + old(
                            self,
                        ).enemies@[i].enemy.offset) % old(self).history.capacity()],
                    ),
                    ..old(self).enemies@[i]
                }),
    {
        let n = self.enemies.len();
        let mut i: usize = 0;
        while i < n
            invariant
                n == self.enemies@.len(),
                0 <= i <= n,
                self.enemies@.len() == old(self).enemies@.len(),
                self.history == old(self).history,
                self.history.wf(),
                self.history.capacity() == HISTORY_LEN,
                self.walls == old(self).walls,
                self.goal == old(self).goal,
                self.projectiles == old(self).projectiles,
                self.footstep_timer == old(self).footstep_timer,
                self.footstep_markers == old(self).footstep_markers,
                self.level_complete == old(self).level_complete,
                self.player == old(self).player,
                (self.player matches Some(q) ==> player_ent_wf(q)),
                self.footstep_timer.wf(),
                forall|k: int|
                    0 <= k < self.projectiles@.len() ==> projectile_ent_wf(
                        #[trigger] self.projectiles@[k],
                    ),
                (self.goal matches Some(g) ==> in_bounds(g.pos, GEOM_LIMIT as int)),
                forall|k: int| 0 <= k < self.walls@.len() ==> wall_wf(#[trigger] self.walls@[k]),
                forall|k: int|
                    i <= k < n ==> #[trigger] self.enemies@[k] == old(self).enemies@[k],
                forall|k: int|
                    0 <= k < i ==> #[trigger] self.enemies@[k] == (EnemyEnt {
                        velocity: Velocity(
                            old(self).history.samples()[(old(self).history.write_pos() + 1 + old(
                                self,
                            ).enemies@[k].enemy.offset) % old(self).history.capacity()],
                        ),
                        ..old(self).enemies@[k]
                    }),
                forall|k: int| 0 <= k < n ==> enemy_ent_wf(#[trigger] self.enemies@[k]),
            decreases n - i,
        {
            let e = self.enemies[i];
            assert(e.enemy.offset < ENEMY_OFFSET_MAX);
            let sample = self.history.get(e.enemy.offset);
            self.enemies.set(i, EnemyEnt { velocity: Velocity(sample), ..e });
            i = i + 1;
        }
    }

    /// Derives the player's facing from its velocity, keeping the old facing
    /// at rest.
    pub fn rotate(&mut self)
        requires
            old(self).wf(),
        ensures
            final(self).wf(),
            *final(self) == (World {
                player: match old(self).player {
                    Some(p) => Some(
                        PlayerEnt {
                            facing: crate::enemy::spec_facing(p.velocity.0, p.facing),
                            ..p
                        },
                    ),
                    None => None,
                },
                ..*old(self)
            }),
    {
        match self.player {
            Some(p) => {
                let f = crate::enemy::facing(p.velocity.0, p.facing);
                self.player = Some(PlayerEnt { facing: f, ..p });
            },
            None => {},
        }
    }

    /// Derives each enemy's facing from its velocity, keeping the old facing
    /// at rest.
    pub fn rotate_enemy(&mut self)
        requires
            old(self).wf(),
        ensures
            final(self).wf(),
            final(self).walls == old(self).walls,
            final(self).goal == old(self).goal,
            final(self).projectiles == old(self).projectiles,
            final(self).history == old(self).history,
            final(self).footstep_timer == old(self).footstep_timer,
            final(self).footstep_markers == old(self).footstep_markers,
            final(self).level_complete == old(self).level_complete,
            final(self).player == old(self).player,
            final(self).enemies@.len() == old(self).enemies@.len(),
            forall|i: int|
                0 <= i < old(self).enemies@.len() ==> #[trigger] final(self).enemies@[i] == (
                EnemyEnt {
                    facing: crate::enemy::spec_facing(
                        old(self).enemies@[i].velocity.0,
                        old(self).enemies@[i].facing,
                    ),
                    ..old(self).enemies@[i]
                }),
    {
        let n = self.enemies.len();
        let mut i: usize = 0;
        while i < n
            invariant
                n == self.enemies@.len(),
                0 <= i <= n,
                self.enemies@.len() == old(self).enemies@.len(),
                self.walls == old(self).walls,
                self.goal == old(self).goal,
                self.projectiles == old(self).projectiles,
                self.history == old(self).history,
                self.footstep_timer == old(self).footstep_timer,
                self.footstep_markers == old(self).footstep_markers,
                self.level_complete == old(self).level_complete,
                self.player == old(self).player,
                (self.player matches Some(q) ==> player_ent_wf(q)),
                self.history.wf(),
                self.history.capacity() == HISTORY_LEN,
                self.footstep_timer.wf(),
                forall|k: int|
                    0 <= k < self.projectiles@.len() ==> projectile_ent_wf(
                        #[trigger] self.projectiles@[k],
                    ),
                (self.goal matches Some(g) ==> in_bounds(g.pos, GEOM_LIMIT as int)),
                forall|k: int| 0 <= k < self.walls@.len() ==> wall_wf(#[trigger] self.walls@[k]),
                forall|k: int|
                    i <= k < n ==> #[trigger] self.enemies@[k] == old(self).enemies@[k],
                forall|k: int|
                    0 <= k < i ==> #[trigger] self.enemies@[k] == (EnemyEnt {
                        facing: crate::enemy::spec_facing(
                            old(self).enemies@[k].velocity.0,
                            old(self).enemies@[k].facing,
                        ),
                        ..old(self).enemies@[k]
                    }),
                forall|k: int| 0 <= k < n ==> enemy_ent_wf(#[trigger] self.enemies@[k]),
            decreases n - i,
        {
            let e = self.enemies[i];
            let f = crate::enemy::facing(e.velocity.0, e.facing);
            self.enemies.set(i, EnemyEnt { facing: f, ..e });
            i = i + 1;
        }
    }

    /// Refreshes every enemy's can-see-player flag by a fresh line-of-sight
    /// scan toward the player; without a player nothing changes.
    pub fn can_see_player(&mut self)
        requires
            old(self).wf(),
        ensures
            final(self).wf(),
            final(self).walls == old(self).walls,
            final(self).goal == old(self).goal,
            final(self).projectiles == old(self).projectiles,
            final(self).history == old(self).history,
            final(self).footstep_timer == old(self).footstep_timer,
            final(self).footstep_markers == old(self).footstep_markers,
            final(self).level_complete == old(self).level_complete,
            final(self).player == old(self).player,
            (old(self).player is None ==> final(self).enemies == old(self).enemies),
            final(self).enemies@.len() == old(self).enemies@.len(),
            (old(self).player matches Some(p) ==> forall|i: int|
                0 <= i < old(self).enemies@.len() ==> #[trigger] final(self).enemies@[i] == (
                EnemyEnt {
                    enemy: Enemy {
                        can_see_player: crate::visibility::spec_can_see(
                            old(self).enemies@[i].pos,
                            p.pos,
                            p.collider.half_size,
                            old(self).walls@,
                            VIS_STEP as int,
                            VIS_MAX_DISTANCE as int,
                        ),
                        ..old(self).enemies@[i].enemy
                    },
                    ..old(self).enemies@[i]
                })),
    {
        let p = match self.player {
            Some(p) => p,
            None => {
                return ;
            },
        };
        let n = self.enemies.len();
        let mut i: usize = 0;
        while i < n
            invariant
                n == self.enemies@.len(),
                0 <= i <= n,
                self.enemies@.len() == old(self).enemies@.len(),
                old(self).player matches Some(q) && q == p,
                player_ent_wf(p),
                self.walls == old(self).walls,
                self.goal == old(self).goal,
                self.projectiles == old(self).projectiles,
                self.history == old(self).history,
                self.footstep_timer == old(self).footstep_timer,
                self.footstep_markers == old(self).footstep_markers,
                self.level_complete == old(self).level_complete,
                self.player == old(self).player,
                self.history.wf(),
                self.history.capacity() == HISTORY_LEN,
                self.footstep_timer.wf(),
                forall|k: int|
                    0 <= k < self.projectiles@.len() ==> projectile_ent_wf(
                        #[trigger] self.projectiles@[k],
                    ),
                (self.goal matches Some(g) ==> in_bounds(g.pos, GEOM_LIMIT as int)),
                forall|k: int| 0 <= k < self.walls@.len() ==> wall_wf(#[trigger] self.walls@[k]),
                forall|k: int|
                    i <= k < n ==> #[trigger] self.enemies@[k] == old(self).enemies@[k],
                forall|k: int|
                    0 <= k < i ==> #[trigger] self.enemies@[k] == (EnemyEnt {
                        enemy: Enemy {
                            can_see_player: crate::visibility::spec_can_see(
                                old(self).enemies@[k].pos,
                                p.pos,
                                p.collider.half_size,
                                old(self).walls@,
                                VIS_STEP as int,
                                VIS_MAX_DISTANCE as int,
                            ),
                            ..old(self).enemies@[k].enemy
                        },
                        ..old(self).enemies@[k]
                    }),
                forall|k: int| 0 <= k < n ==> enemy_ent_wf(#[trigger] self.enemies@[k]),
            decreases n - i,
        {
            let e = self.enemies[i];
            let seen = crate::visibility::can_see(
                e.pos,
                p.pos,
                p.collider.half_size,
                &self.walls,
                VIS_STEP,
                VIS_MAX_DISTANCE,
            );
            self.enemies.set(
                i,
                EnemyEnt { enemy: Enemy { can_see_player: seen, ..e.enemy }, ..e },
            );
            i = i + 1;
        }
    }
}

/// The collision box every projectile is fired with.
pub open spec fn spec_projectile_collider() -> DynamicCollider {
    DynamicCollider { half_size: Vec2 { x: PROJECTILE_HALF, y: PROJECTILE_HALF } }
}

/// The projectiles fired by the enemies this tick, in enemy order: one per
/// enemy whose shoot decision fires, spawned at that enemy's position.
pub open spec fn spec_spawned_projectiles(
    enemies: Seq<EnemyEnt>,
    player_pos: Vec2,
    delta: int,
) -> Seq<ProjectileEnt>
    decreases enemies.len(),
{
    if enemies.len() == 0 {
        Seq::empty()
    } else {
        let front = spec_spawned_projectiles(enemies.drop_last(), player_pos, delta);
        let e = enemies.last();
        match crate::enemy::spec_shoot_decision(e.enemy, e.pos, player_pos, delta) {
            Some(pr) => front.push(
                ProjectileEnt { pos: e.pos, collider: spec_projectile_collider(), projectile: pr },
            ),
            None => front,
        }
    }
}

impl World {
    /// One shoot tick for every enemy: each shoot timer advances, and each
    /// enemy whose timer completes while it can see the player fires a
    /// projectile at the player, with one shoot event per projectile.
    /// Without a player, nothing happens — not even the timers advance.
    pub fn shoot(&mut self, delta: u64) -> (events: Vec<GameEvent>)
        requires
            old(self).wf(),
            delta <= DELTA_LIMIT,
        ensures
            final(self).wf(),
            final(self).walls == old(self).walls,
            final(self).goal == old(self).goal,
            final(self).history == old(self).history,
            final(self).footstep_timer == old(self).footstep_timer,
            final(self).footstep_markers == old(self).footstep_markers,
            final(self).level_complete == old(self).level_complete,
            final(self).player == old(self).player,
            (old(self).player is None ==> *final(self) == *old(self) && events@.len() == 0),
            final(self).enemies@.len() == old(self).enemies@.len(),
            (old(self).player matches Some(p) ==> {
                &&& forall|i: int|
                    0 <= i < old(self).enemies@.len() ==> #[trigger] final(self).enemies@[i] == (
                    EnemyEnt {
                        enemy: Enemy {
                            shoot_timer: crate::timer::spec_timer_tick(
                                old(self).enemies@[i].enemy.shoot_timer,
                                delta as int,
                            ),
                            ..old(self).enemies@[i].enemy
                        },
                        ..old(self).enemies@[i]
                    })
                &&& final(self).projectiles@ == old(self).projectiles@
                    + spec_spawned_projectiles(old(self).enemies@, p.pos, delta as int)
                &&& events@.len() == spec_spawned_projectiles(
                    old(self).enemies@,
                    p.pos,
                    delta as int,
                ).len()
                &&& forall|i: int|
                    0 <= i < events@.len() ==> #[trigger] events@[i] == GameEvent::Shoot
            }),
    {
        let mut events: Vec<GameEvent> = Vec::new();
        let p = match self.player {
            Some(p) => p,
            None => {
                return events;
            },
        };
        proof {
            assert(old(self).enemies@.take(0) =~= Seq::<EnemyEnt>::empty());
            assert(self.projectiles@ =~= old(self).projectiles@ + spec_spawned_projectiles(
                old(self).enemies@.take(0),
                p.pos,
                delta as int,
            ));
        }
        let n = self.enemies.len();
        let mut i: usize = 0;
        while i < n
            invariant
                n == self.enemies@.len(),
                0 <= i <= n,
                self.enemies@.len() == old(self).enemies@.len(),
                old(self).player matches Some(q) && q == p,
                player_ent_wf(p),
                delta <= DELTA_LIMIT,
                self.walls == old(self).walls,
                self.goal == old(self).goal,
                self.history == old(self).history,
                self.footstep_timer == old(self).footstep_timer,
                self.footstep_markers == old(self).footstep_markers,
                self.level_complete == old(self).level_complete,
                self.player == old(self).player,
                self.history.wf(),
                self.history.capacity() == HISTORY_LEN,
                self.footstep_timer.wf(),
                (self.goal matches Some(g) ==> in_bounds(g.pos, GEOM_LIMIT as int)),
                forall|k: int| 0 <= k < self.walls@.len() ==> wall_wf(#[trigger] self.walls@[k]),
                forall|k: int|
                    i <= k < n ==> #[trigger] self.enemies@[k] == old(self).enemies@[k],
                forall|k: int|
                    0 <= k < i ==> #[trigger] self.enemies@[k] == (EnemyEnt {
                        enemy: Enemy {
                            shoot_timer: crate::timer::spec_timer_tick(
                                old(self).enemies@[k].enemy.shoot_timer,
                                delta as int,
                            ),
                            ..old(self).enemies@[k].enemy
                        },
                        ..old(self).enemies@[k]
                    }),
                forall|k: int| 0 <= k < n ==> enemy_ent_wf(#[trigger] self.enemies@[k]),
                self.projectiles@ == old(self).projectiles@ + spec_spawned_projectiles(
                    old(self).enemies@.take(i as int),
                    p.pos,
                    delta as int,
                ),
                forall|k: int|
                    0 <= k < self.projectiles@.len() ==> projectile_ent_wf(
                        #[trigger] self.projectiles@[k],
                    ),
                events@.len() == spec_spawned_projectiles(
                    old(self).enemies@.take(i as int),
                    p.pos,
                    delta as int,
                ).len(),
                forall|k: int|
                    0 <= k < events@.len() ==> #[trigger] events@[k] == GameEvent::Shoot,
            decreases n - i,
        {
            let e = self.enemies[i];
            let mut en = e.enemy;
            let shot = crate::enemy::shoot_tick(&mut en, e.pos, p.pos, delta);
            self.enemies.set(i, EnemyEnt { enemy: en, ..e });
            proof {
                assert(old(self).enemies@.take(i + 1).drop_last() =~= old(self).enemies@.take(
                    i as int,
                ));
                assert(old(self).enemies@.take(i + 1).last() == old(self).enemies@[i as int]);
            }
            match shot {
                Some(pr) => {
                    self.projectiles.push(
                        ProjectileEnt {
                            pos: e.pos,
                            collider: DynamicCollider {
                                half_size: Vec2 { x: PROJECTILE_HALF, y: PROJECTILE_HALF },
                            },
                            projectile: pr,
                        },
                    );
                    events.push(GameEvent::Shoot);
                },
                None => {},
            }
            i = i + 1;
        }
        proof {
            assert(old(self).enemies@.take(n as int) =~= old(self).enemies@);
        }
        events
    }
}

/// The enemy at index `i` overlaps some other enemy.
pub open spec fn spec_enemy_overlaps_other(enemies: Seq<EnemyEnt>, i: int) -> bool {
    exists|j: int|
        0 <= j < enemies.len() && j != i && crate::geom::overlaps(
            enemies[i].pos,
            enemies[i].collider.half_size,
            (#[trigger] enemies[j]).pos,
            enemies[j].collider.half_size,
        )
}

/// The enemies among the first `k` that overlap no other enemy, in order.
pub open spec fn spec_surviving_enemies(enemies: Seq<EnemyEnt>, k: nat) -> Seq<EnemyEnt>
    decreases k,
{
    if k == 0 {
        Seq::empty()
    } else {
        let front = spec_surviving_enemies(enemies, (k - 1) as nat);
        if spec_enemy_overlaps_other(enemies, k - 1) {
            front
        } else {
            front.push(enemies[k - 1])
        }
    }
}

impl World {
    /// Every pair of overlapping enemies squashes each other: an enemy whose
    /// box overlaps any other enemy's box is removed, the rest stay in order.
    pub fn enemy_squash(&mut self)
        requires
            old(self).wf(),
        ensures
            final(self).wf(),
            *final(self) == (World {
                enemies: final(self).enemies,
                ..*old(self)
            }),
            final(self).enemies@ == spec_surviving_enemies(
                old(self).enemies@,
                old(self).enemies@.len() as nat,
            ),
    {
        let n = self.enemies.len();
        let mut kept: Vec<EnemyEnt> = Vec::new();
        proof {
            assert(kept@ =~= spec_surviving_enemies(self.enemies@, 0));
        }
        let mut i: usize = 0;
        while i < n
            invariant
                n == self.enemies@.len(),
                0 <= i <= n,
                *self == *old(self),
                forall|k: int| 0 <= k < n ==> enemy_ent_wf(#[trigger] self.enemies@[k]),
                kept@ == spec_surviving_enemies(self.enemies@, i as nat),
                forall|k: int| 0 <= k < kept@.len() ==> enemy_ent_wf(#[trigger] kept@[k]),
            decreases n - i,
        {
            let e = self.enemies[i];
            let mut hit = false;
            let mut j: usize = 0;
            while j < n
                invariant
                    n == self.enemies@.len(),
                    0 <= j <= n,
                    0 <= i < n,
                    e == self.enemies@[i as int],
                    forall|k: int| 0 <= k < n ==> enemy_ent_wf(#[trigger] self.enemies@[k]),
                    hit ==> spec_enemy_overlaps_other(self.enemies@, i as int),
                    !hit ==> forall|k: int|
                        0 <= k < j && k != i ==> !crate::geom::overlaps(
                            self.enemies@[i as int].pos,
                            self.enemies@[i as int].collider.half_size,
                            (#[trigger] self.enemies@[k]).pos,
                            self.enemies@[k].collider.half_size,
                        ),
                decreases n - j,
            {
                if j != i {
                    let o = self.enemies[j];
                    if crate::geom::boxes_overlap(
                        e.pos,
                        e.collider.half_size,
                        o.pos,
                        o.collider.half_size,
                    ) {
                        hit = true;
                    }
                }
                j = j + 1;
            }
            proof {
                if !hit {
                    assert(!spec_enemy_overlaps_other(self.enemies@, i as int));
                }
            }
            if !hit {
                kept.push(e);
            }
            i = i + 1;
        }
        self.enemies = kept;
    }
}

/// A projectile entity after one tick of flight.
pub open spec fn spec_projectile_moved(pr: ProjectileEnt, delta: int) -> ProjectileEnt {
    ProjectileEnt {
        pos: crate::physics::vadd(
            pr.pos,
            crate::enemy::spec_projectile_displacement(pr.projectile, delta),
        ),
        ..pr
    }
}

/// The projectiles still alive after one tick: each moves by its fixed
/// displacement, then the first matching removal applies — out of the window,
/// or overlapping a wall.
pub open spec fn spec_projectiles_kept(
    projectiles: Seq<ProjectileEnt>,
    walls: Seq<Wall>,
    delta: int,
) -> Seq<ProjectileEnt>
    decreases projectiles.len(),
{
    if projectiles.len() == 0 {
        Seq::empty()
    } else {
        let front = spec_projectiles_kept(projectiles.drop_last(), walls, delta);
        let moved = spec_projectile_moved(projectiles.last(), delta);
        if crate::enemy::spec_out_of_window(moved.pos) {
            front
        } else if crate::enemy::spec_projectile_hits_wall(moved.pos, walls) {
            front
        } else {
            front.push(moved)
        }
    }
}

/// How many projectiles a tick removes by hitting a wall — the removals that
/// emit an obstacle-hit event; leaving the window is silent.
pub open spec fn spec_obstacle_hits(
    projectiles: Seq<ProjectileEnt>,
    walls: Seq<Wall>,
    delta: int,
) -> int
    decreases projectiles.len(),
{
    if projectiles.len() == 0 {
        0
    } else {
        let front = spec_obstacle_hits(projectiles.drop_last(), walls, delta);
        let moved = spec_projectile_moved(projectiles.last(), delta);
        if !crate::enemy::spec_out_of_window(moved.pos) && crate::enemy::spec_projectile_hits_wall(
            moved.pos,
            walls,
        ) {
            front + 1
        } else {
            front
        }
    }
}

/// The footstep markers still visible after aging by one tick: each marker's
/// age grows by the elapsed time, and a marker that reaches its lifetime
/// expires.
pub open spec fn spec_aged_markers(ms: Seq<FootstepMarker>, delta: int) -> Seq<FootstepMarker>
    decreases ms.len(),
{
    if ms.len() == 0 {
        Seq::empty()
    } else {
        let front = spec_aged_markers(ms.drop_last(), delta);
        let m = ms.last();
        if m.age + delta >= crate::config::FOOTSTEP_MAX_AGE {
            front
        } else {
            front.push(FootstepMarker { age: (m.age + delta) as u64, ..m })
        }
    }
}

/// Where a footstep marker lands: beside the player, offset sideways from
/// the facing direction by five world units, on the stepping foot's side.
pub open spec fn spec_marker_pos(player_pos: Vec2, facing: Vec2, left: bool) -> Vec2 {
    if left {
        Vec2 { x: (player_pos.x + facing.y * 5) as i64, y: (player_pos.y - facing.x * 5) as i64 }
    } else {
        Vec2 { x: (player_pos.x - facing.y * 5) as i64, y: (player_pos.y + facing.x * 5) as i64 }
    }
}

/// Computes where a footstep marker lands.
fn marker_position(player_pos: Vec2, facing: Vec2, left: bool) -> (r: Vec2)
    requires
        in_bounds(player_pos, GEOM_LIMIT as int),
        in_bounds(facing, SCALE as int),
    ensures
        r == spec_marker_pos(player_pos, facing, left),
        in_bounds(r, 2 * GEOM_LIMIT as int),
{
    if left {
        Vec2 { x: player_pos.x + facing.y * 5, y: player_pos.y - facing.x * 5 }
    } else {
        Vec2 { x: player_pos.x - facing.y * 5, y: player_pos.y + facing.x * 5 }
    }
}

impl World {
    /// Advances every projectile and applies its removal conditions in
    /// order: a projectile that leaves the window disappears silently, one
    /// that hits a wall disappears with an obstacle-hit event, the rest fly
    /// on unchanged in direction and speed.
    pub fn update_projectiles(&mut self, delta: u64) -> (events: Vec<GameEvent>)
        requires
            old(self).wf(),
            delta <= DELTA_LIMIT,
        ensures
            final(self).wf(),
            *final(self) == (World { projectiles: final(self).projectiles, ..*old(self) }),
            final(self).projectiles@ == spec_projectiles_kept(
                old(self).projectiles@,
                old(self).walls@,
                delta as int,
            ),
            events@.len() == spec_obstacle_hits(
                old(self).projectiles@,
                old(self).walls@,
                delta as int,
            ),
            forall|i: int|
                0 <= i < events@.len() ==> #[trigger] events@[i] == GameEvent::ObstacleHit,
    {
        let mut events: Vec<GameEvent> = Vec::new();
        let mut kept: Vec<ProjectileEnt> = Vec::new();
        let n = self.projectiles.len();
        proof {
            assert(self.projectiles@.take(0) =~= Seq::<ProjectileEnt>::empty());
        }
        let mut i: usize = 0;
        while i < n
            invariant
                n == self.projectiles@.len(),
                0 <= i <= n,
                *self == *old(self),
                delta <= DELTA_LIMIT,
                forall|k: int|
                    0 <= k < n ==> projectile_ent_wf(#[trigger] self.projectiles@[k]),
                forall|k: int| 0 <= k < self.walls@.len() ==> wall_wf(#[trigger] self.walls@[k]),
                kept@ == spec_projectiles_kept(
                    self.projectiles@.take(i as int),
                    self.walls@,
                    delta as int,
                ),
                forall|k: int| 0 <= k < kept@.len() ==> projectile_ent_wf(#[trigger] kept@[k]),
                events@.len() == spec_obstacle_hits(
                    self.projectiles@.take(i as int),
                    self.walls@,
                    delta as int,
                ),
                forall|k: int|
                    0 <= k < events@.len() ==> #[trigger] events@[k] == GameEvent::ObstacleHit,
            decreases n - i,
        {
            let pr = self.projectiles[i];
            let disp = crate::enemy::projectile_displacement(&pr.projectile, delta);
            let np = Vec2 { x: pr.pos.x + disp.x, y: pr.pos.y + disp.y };
            proof {
                assert(self.projectiles@.take(i + 1).drop_last() =~= self.projectiles@.take(
                    i as int,
                ));
                assert(self.projectiles@.take(i + 1).last() == self.projectiles@[i as int]);
                assert(np == spec_projectile_moved(self.projectiles@[i as int], delta as int).pos);
            }
            if crate::enemy::out_of_window(np) {
            } else if crate::enemy::projectile_hits_wall(np, &self.walls) {
                events.push(GameEvent::ObstacleHit);
            } else {
                kept.push(ProjectileEnt { pos: np, ..pr });
            }
            i = i + 1;
        }
        proof {
            assert(self.projectiles@.take(n as int) =~= self.projectiles@);
        }
        self.projectiles = kept;
        events
    }

    /// One footstep-cadence tick: existing footstep markers age and expire,
    /// the timer's period is recomputed from the player's current speed, the
    /// timer advances, and a completion while the player moves fast enough
    /// emits a footstep on the alternating foot and drops a fresh marker
    /// beside that foot.
    pub fn footsteps(&mut self, delta: u64) -> (ev: Option<crate::footstep::FootstepEvent>)
        requires
            old(self).wf(),
            delta <= DELTA_LIMIT,
        ensures
            final(self).wf(),
            final(self).walls == old(self).walls,
            final(self).goal == old(self).goal,
            final(self).projectiles == old(self).projectiles,
            final(self).history == old(self).history,
            final(self).enemies == old(self).enemies,
            final(self).level_complete == old(self).level_complete,
            (old(self).player is None ==> *final(self) == *old(self) && ev is None),
            (old(self).player matches Some(p) ==> {
                let speed = crate::vec2::sqrt_floor(crate::vec2::norm2(p.velocity.0) as nat) as int;
                let interval = crate::footstep::spec_footstep_interval(speed);
                let retimed = Timer { duration: interval as u64, ..old(self).footstep_timer };
                let fired = old(self).footstep_timer.elapsed + delta >= interval;
                let stepped = fired && speed > crate::config::FOOTSTEP_MIN_SPEED;
                let new_left = if stepped {
                    !p.player.used_left_foot
                } else {
                    p.player.used_left_foot
                };
                let aged = spec_aged_markers(old(self).footstep_markers@, delta as int);
                &&& final(self).footstep_timer == crate::timer::spec_timer_tick(
                    retimed,
                    delta as int,
                )
                &&& final(self).player == Some(
                    PlayerEnt { player: Player { used_left_foot: new_left }, ..p },
                )
                &&& ev == if stepped {
                    Some(
                        crate::footstep::FootstepEvent {
                            foot_side: if new_left {
                                FootSide::Left
                            } else {
                                FootSide::Right
                            },
                        },
                    )
                } else {
                    None::<crate::footstep::FootstepEvent>
                }
                &&& final(self).footstep_markers@ == if stepped {
                    aged.push(
                        FootstepMarker {
                            pos: spec_marker_pos(p.pos, p.facing, new_left),
                            foot_side: if new_left {
                                FootSide::Left
                            } else {
                                FootSide::Right
                            },
                            age: 0,
                        },
                    )
                } else {
                    aged
                }
            }),
    {
        let p = match self.player {
            Some(p) => p,
            None => {
                return None;
            },
        };

        // Age the existing markers and drop the expired ones.
        let mut kept: Vec<FootstepMarker> = Vec::new();
        let n = self.footstep_markers.len();
        proof {
            assert(self.footstep_markers@.take(0) =~= Seq::<FootstepMarker>::empty());
        }
        let mut i: usize = 0;
        while i < n
            invariant
                n == self.footstep_markers@.len(),
                0 <= i <= n,
                *self == *old(self),
                delta <= DELTA_LIMIT,
                forall|k: int|
                    0 <= k < n ==> marker_wf(#[trigger] self.footstep_markers@[k]),
                kept@ == spec_aged_markers(self.footstep_markers@.take(i as int), delta as int),
                forall|k: int| 0 <= k < kept@.len() ==> marker_wf(#[trigger] kept@[k]),
            decreases n - i,
        {
            let m = self.footstep_markers[i];
            proof {
                assert(self.footstep_markers@.take(i + 1).drop_last() =~= self.footstep_markers@
                    .take(i as int));
                assert(self.footstep_markers@.take(i + 1).last() == self.footstep_markers@[
                    i as int]);
            }
            let new_age = m.age + delta;
            if new_age < crate::config::FOOTSTEP_MAX_AGE {
                kept.push(FootstepMarker { age: new_age, ..m });
            }
            i = i + 1;
        }
        proof {
            assert(self.footstep_markers@.take(n as int) =~= self.footstep_markers@);
        }
        self.footstep_markers = kept;

        let speed = p.velocity.0.length();
        let mut timer = self.footstep_timer;
        let mut left = p.player.used_left_foot;
        let ev = crate::footstep::footsteps_tick(&mut timer, &mut left, speed, delta);
        self.footstep_timer = timer;
        self.player = Some(PlayerEnt { player: Player { used_left_foot: left }, ..p });
        if ev.is_some() {
            let side = if left {
                FootSide::Left
            } else {
                FootSide::Right
            };
            self.footstep_markers.push(
                FootstepMarker { pos: marker_position(p.pos, p.facing, left), foot_side: side, age: 0 },
            );
        }
        ev
    }

    /// Completes the level when the player stands close enough to the goal:
    /// the player stops, the velocity history is reset to zeros, and the
    /// level-complete flag latches.
    pub fn check_level_complete(&mut self) -> (completed: bool)
        requires
            old(self).wf(),
        ensures
            final(self).wf(),
            final(self).walls == old(self).walls,
            final(self).goal == old(self).goal,
            final(self).projectiles == old(self).projectiles,
            final(self).enemies == old(self).enemies,
            final(self).footstep_timer == old(self).footstep_timer,
            final(self).footstep_markers == old(self).footstep_markers,
            completed == (old(self).player matches Some(p) && old(self).goal matches Some(g)
                && crate::player::spec_near_goal(p.pos, g.pos)),
            (!completed ==> *final(self) == *old(self)),
            (completed ==> {
                &&& final(self).level_complete
                &&& old(self).player matches Some(p) && final(self).player == Some(
                    PlayerEnt { velocity: Velocity(Vec2 { x: 0, y: 0 }), ..p },
                )
                &&& final(self).history.capacity() == HISTORY_LEN
                &&& final(self).history.write_pos() == 0
                &&& forall|i: int|
                    0 <= i < HISTORY_LEN ==> final(self).history.samples()[i] == (Vec2 {
                        x: 0,
                        y: 0,
                    })
            }),
    {
        let p = match self.player {
            Some(p) => p,
            None => {
                return false;
            },
        };
        let g = match self.goal {
            Some(g) => g,
            None => {
                return false;
            },
        };
        if crate::player::near_goal(p.pos, g.pos) {
            self.player = Some(PlayerEnt { velocity: Velocity(Vec2 { x: 0, y: 0 }), ..p });
            self.history = PlayerVelocityHistory::new(HISTORY_LEN);
            self.level_complete = true;
            true
        } else {
            false
        }
    }
}

/// Every survivor of the squash is one of the enemies that entered it.
proof fn lemma_survivors_are_members(enemies: Seq<EnemyEnt>, k: nat)
    requires
        k <= enemies.len(),
    ensures
        forall|m: int|
            0 <= m < spec_surviving_enemies(enemies, k).len() ==> exists|i: int|
                0 <= i < enemies.len() && #[trigger] spec_surviving_enemies(enemies, k)[m]
                    == enemies[i],
    decreases k,
{
    if k > 0 {
        lemma_survivors_are_members(enemies, (k - 1) as nat);
        let front = spec_surviving_enemies(enemies, (k - 1) as nat);
        let full = spec_surviving_enemies(enemies, k);
        assert forall|m: int| 0 <= m < full.len() implies exists|i: int|
            0 <= i < enemies.len() && #[trigger] full[m] == enemies[i] by {
            if m < front.len() {
                let i = choose|i: int| 0 <= i < enemies.len() && front[m] == enemies[i];
                assert(full[m] == enemies[i]);
            } else {
                assert(full[m] == enemies[k - 1]);
            }
        }
    }
}

impl World {
    /// One full tick, in the pipeline's fixed order: player velocity update
    /// and history write, collision-resolved movement, enemy velocity
    /// sampling from the history, facing updates, perception, shooting,
    /// enemy squashing, projectile lifecycle, footstep cadence, and level
    /// completion. Returns the tick's events in that order. A completed
    /// level freezes the world.
    pub fn tick(&mut self, input: Option<Vec2>, delta: u64) -> (events: Vec<GameEvent>)
        requires
            old(self).wf(),
            (input matches Some(m) ==> in_bounds(m, SCALE as int)),
            delta <= DELTA_LIMIT,
        ensures
            final(self).wf(),
            final(self).walls == old(self).walls,
            final(self).goal == old(self).goal,
            (old(self).level_complete ==> *final(self) == *old(self) && events@.len() == 0),
            (old(self).player is Some && final(self).player is Some
                ==> final(self).player.unwrap().collider == old(self).player.unwrap().collider),
            (old(self).player is Some && !old(self).level_complete
                && !final(self).level_complete ==> {
                let p = old(self).player.unwrap();
                let vnew = crate::player::spec_velocity_update(p.velocity.0, input, delta as int);
                &&& final(self).player matches Some(q) && q.velocity.0 == vnew
                &&& final(self).history.samples() == old(self).history.samples().update(
                    old(self).history.write_pos(),
                    vnew,
                )
                &&& final(self).history.write_pos() == (old(self).history.write_pos() + 1)
                    % (HISTORY_LEN as int)
                &&& ({
                    let hist = final(self).history;
                    let es = final(self).enemies@;
                    forall|m: int|
                        0 <= m < es.len() ==> (#[trigger] es[m]).velocity.0 == hist.samples()[(
                        hist.write_pos() + 1 + es[m].enemy.offset) % (HISTORY_LEN as int)]
                })
            }),
            (!old(self).level_complete ==> final(self).level_complete == (final(self).player
                matches Some(q) && final(self).goal matches Some(g)
                && crate::player::spec_near_goal(q.pos, g.pos))),
            (!old(self).level_complete && final(self).level_complete ==> events@.len() >= 1
                && events@.last() == GameEvent::LevelComplete),
            (!final(self).level_complete ==> forall|i: int|
                0 <= i < events@.len() ==> #[trigger] events@[i] != GameEvent::LevelComplete),
    {
        let mut events: Vec<GameEvent> = Vec::new();
        if self.level_complete {
            return events;
        }
        match self.player {
            Some(p) => {
                let mut vel = p.velocity;
                crate::player::update_velocity(&mut vel, input, delta, &mut self.history);
                self.player = Some(PlayerEnt { velocity: vel, ..p });
            },
            None => {},
        }
        self.move_and_collide();
        self.update_enemy_velocity();
        let ghost sampled = self.enemies@;
        self.rotate();
        self.rotate_enemy();
        self.can_see_player();
        let mut shoot_events = self.shoot(delta);
        events.append(&mut shoot_events);
        let ghost pre_squash = self.enemies@;
        self.enemy_squash();
        proof {
            lemma_survivors_are_members(pre_squash, pre_squash.len());
        }
        let mut hit_events = self.update_projectiles(delta);
        events.append(&mut hit_events);
        match self.footsteps(delta) {
            Some(f) => {
                events.push(GameEvent::Footstep(f.foot_side));
            },
            None => {},
        }
        let completed = self.check_level_complete();
        if completed {
            events.push(GameEvent::LevelComplete);
        }
        proof {
            if old(self).player is Some && !self.level_complete {
                assert forall|m: int| 0 <= m < self.enemies@.len() implies (#[trigger] self.enemies@[m]).velocity.0
                    == self.history.samples()[(self.history.write_pos() + 1
                    + self.enemies@[m].enemy.offset) % (HISTORY_LEN as int)] by {
                    let i = choose|i: int|
                        0 <= i < pre_squash.len() && #[trigger] spec_surviving_enemies(
                            pre_squash,
                            pre_squash.len(),
                        )[m] == pre_squash[i];
                    assert(self.enemies@[m] == pre_squash[i]);
                    assert(pre_squash[i].velocity == sampled[i].velocity);
                    assert(pre_squash[i].enemy.offset == sampled[i].enemy.offset);
                }
            }
        }
        events
    }
}

} // verus!
