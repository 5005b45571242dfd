//! Verified core of a small 2D top-down action game: player movement with a
//! velocity-history ring buffer, axis-aligned collision resolution, ray-marched
//! line-of-sight checks, timed enemy shooting, projectile lifecycle and a
//! speed-dependent footstep cadence.
//!
//! All geometry is exact integer arithmetic: positions and half-extents are
//! measured in milliunits (one engine world unit is 1000 milliunits) and
//! time in microseconds, so every contract states the result of a computation
//! precisely. The engine shell around this core (rendering, input devices,
//! asset and level loading, audio output) stays outside and exchanges plain
//! values with it.

pub mod config;
mod enemy;
mod environment;
mod footstep;
mod geom;
mod history;
mod physics;
mod player;
mod timer;
mod vec2;
mod visibility;
mod world;

pub use world::EnemyEnt;
pub use world::FootstepMarker;
pub use world::GameEvent;
pub use world::PlayerEnt;
pub use world::ProjectileEnt;
pub use world::World;
pub use world::spec_enemy_positions;
pub use world::spec_goal_pos_of;
pub use world::spec_player_pos_of;
pub use world::spec_walls_of;

pub use visibility::can_see;
pub use visibility::lemma_probe_distance_in_interval;
pub use visibility::lemma_visibility_blocked;
pub use visibility::lemma_visibility_blocked_by_spanning_wall;
pub use visibility::lemma_visibility_clear_line;
pub use visibility::lemma_visibility_insertion_monotonic;
pub use visibility::spec_can_see;

pub use enemy::Enemy;
pub use enemy::Projectile;
pub use enemy::aim;
pub use enemy::facing;
pub use enemy::lemma_projectile_bounded_flight;
pub use enemy::out_of_window;
pub use enemy::projectile_displacement;
pub use enemy::projectile_hits_wall;
pub use enemy::projectile_pos_after;
pub use enemy::shoot_tick;
pub use enemy::spec_aim;
pub use enemy::spec_facing;
pub use enemy::spec_out_of_window;
pub use enemy::spec_projectile_displacement;
pub use enemy::spec_projectile_hits_wall;
pub use enemy::spec_shoot_decision;
pub use environment::Goal;
pub use environment::SpawnKind;
pub use environment::SpawnRecord;
pub use environment::Wall;
pub use environment::boundary_walls;
pub use player::Player;
pub use player::PlayerState;
pub use player::Velocity;
pub use player::near_goal;
pub use player::spec_near_goal;
pub use player::spec_input_velocity;
pub use player::spec_velocity_update;
pub use player::update_velocity;
pub use physics::lemma_collision_flush;
pub use physics::resolve;
pub use physics::spec_resolve;

pub use footstep::FootSide;
pub use footstep::FootstepEvent;
pub use footstep::footstep_interval;
pub use footstep::footsteps_tick;
pub use footstep::lemma_footstep_interval_monotonic;
pub use footstep::spec_footstep_interval;
pub use timer::Timer;
pub use timer::spec_timer_tick;
pub use history::PlayerVelocityHistory;
pub use history::lemma_ring_buffer_reads;
pub use history::spec_after_writes;

pub use geom::Collision;
pub use geom::DynamicCollider;
pub use geom::StaticCollider;
pub use geom::boxes_overlap;
pub use geom::collide;
pub use vec2::Vec2;
pub use vec2::isqrt;
pub use vec2::mul_div;
