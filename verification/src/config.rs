//! Tuning constants of the game core.
//!
//! Lengths are in milliunits (one world unit is 1000 milliunits, one tile is
//! 16 world units) and times in microseconds. Velocities are in milliunits per
//! tick; speed-like constants that scale an input by elapsed time are in
//! milliunits per second.

use vstd::prelude::*;

verus! {

/// Fixed-point scale: milliunits per world unit, and the length of a
/// normalized direction vector.
pub const SCALE: i64 = 1000;

/// Side length of one tile; players and enemies are one tile wide.
pub const UNIT: i64 = 16_000;

/// Playable window extent.
pub const WINDOW_WIDTH: i64 = 1_200_000;

/// Playable window extent.
pub const WINDOW_HEIGHT: i64 = 800_000;

/// Magnitude that full player input steers the velocity toward, per second.
pub const SPEED: i64 = 600_000;

/// Velocity smoothing rate, per second, while input is held.
pub const ACCELERATION: u64 = 2;

/// Velocity smoothing rate, per second, with no input.
pub const DECELERATION: u64 = 10;

/// Footstep interval per unit of the speed factor, in microseconds per
/// milli-factor: the interval is this constant times
/// `max(FOOTSTEP_FLOOR, FOOTSTEP_SPEED_CONST - speed)`.
pub const FOOTSTEP_BASE: u64 = 20;

/// Floor of the speed factor (0.11 in units of 0.001).
pub const FOOTSTEP_FLOOR: u64 = 110;

/// Speed factor offset (15 velocity units, in milliunits per tick).
pub const FOOTSTEP_SPEED_CONST: u64 = 15_000;

/// Footstep timer period before the first speed-dependent recomputation, in
/// microseconds.
pub const FOOTSTEP_INTERVAL_START: u64 = 20_000;

/// Minimum speed, in milliunits per tick, below which no footstep is emitted.
pub const FOOTSTEP_MIN_SPEED: i64 = 2_000;

/// Lifetime of a footstep marker, in microseconds.
pub const FOOTSTEP_MAX_AGE: u64 = 5_000_000;

/// Number of velocity samples the player's history ring buffer keeps.
pub const HISTORY_LEN: usize = 50;

/// Shortest possible enemy shoot period, in microseconds.
pub const SHOOT_PERIOD_MIN: u64 = 1_800_000;

/// One past the longest possible enemy shoot period, in microseconds.
pub const SHOOT_PERIOD_MAX: u64 = 2_200_000;

/// One past the largest random initial phase of a shoot timer, in microseconds.
pub const SHOOT_PHASE_MAX: u64 = 1_000_000;

/// One past the largest random history offset of an enemy.
pub const ENEMY_OFFSET_MAX: u64 = 50;

/// Projectile speed, in milliunits per second.
pub const PROJECTILE_SPEED: i64 = 300_000;

/// Half-extent of a projectile's collision box.
pub const PROJECTILE_HALF: i64 = 1_000;

/// Farthest distance a line-of-sight scan will probe.
pub const VIS_MAX_DISTANCE: i64 = 1_000_000;

/// Distance between consecutive line-of-sight probes.
pub const VIS_STEP: i64 = 16_000;

/// A player within this distance of the goal completes the level.
pub const GOAL_RADIUS: i64 = 32_000;

/// Largest tick duration the movement functions accept, in microseconds.
pub const DELTA_LIMIT: u64 = 100_000;

/// Largest velocity magnitude per component the movement functions admit,
/// in milliunits per tick.
pub const VEL_LIMIT: i64 = 20_000_000;

/// Largest coordinate magnitude the geometric functions admit; keeps every
/// intermediate sum, difference and squared length within `i64`.
pub const GEOM_LIMIT: i64 = 1_000_000_000;

} // verus!
