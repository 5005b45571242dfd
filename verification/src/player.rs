//! Player movement and level completion.
//!
//! Each tick the player's velocity is steered toward the current input: the
//! input direction scaled by the player speed and the elapsed time gives a
//! target velocity, and a fraction of the difference — the acceleration rate
//! times the elapsed time — is added on. With no input the target is zero and
//! the faster deceleration rate applies. The new velocity is recorded in the
//! history ring buffer for the enemies to sample. Standing close enough to
//! the goal completes the level.

use vstd::prelude::*;

use crate::config::ACCELERATION;
use crate::config::DECELERATION;
use crate::config::DELTA_LIMIT;
use crate::config::GEOM_LIMIT;
use crate::config::GOAL_RADIUS;
use crate::config::SCALE;
use crate::config::SPEED;
use crate::config::VEL_LIMIT;
use crate::history::PlayerVelocityHistory;
use crate::vec2::Vec2;
use crate::vec2::div_trunc;
use crate::vec2::in_bounds;
use crate::vec2::lemma_div_trunc_scale_bound;
use crate::vec2::mul_div;
use crate::vec2::norm2;
use crate::vec2::sqrt_floor;

verus! {

/// The player's own behavior state: which foot stepped last.
#[derive(Clone, Copy, Debug)]
pub struct Player {
    pub used_left_foot: bool,
}

/// Player status read by exterior displays.
#[derive(Clone, Copy, Debug)]
pub struct PlayerState {
    pub hp: i64,
}

/// A velocity, in milliunits per tick.
#[derive(Clone, Copy, Debug, PartialEq, Eq, Structural)]
pub struct Velocity(pub Vec2);

impl Default for Velocity {
    /// At rest.
    fn default() -> (r: Self)
        ensures
            r.0 == (Vec2 { x: 0, y: 0 }),
    {
        Velocity(Vec2 { x: 0, y: 0 })
    }
}

impl Default for PlayerState {
    /// No health yet.
    fn default() -> (r: Self)
        ensures
            r.hp == 0,
    {
        PlayerState { hp: 0 }
    }
}

/// The velocity the input steers toward: the input direction (a vector of
/// length `SCALE`) times the player speed times the elapsed seconds.
pub open spec fn spec_input_velocity(m: Vec2, delta: int) -> Vec2 {
    Vec2 {
        x: div_trunc(m.x * (SPEED * delta), SCALE * 1_000_000) as i64,
        y: div_trunc(m.y * (SPEED * delta), SCALE * 1_000_000) as i64,
    }
}

/// The player's velocity after one tick of steering: with input, the target
/// is the input velocity and the acceleration rate applies; without, the
/// target is zero and the deceleration rate applies. The velocity moves
/// toward the target by the rate times the elapsed seconds.
pub open spec fn spec_velocity_update(v: Vec2, input: Option<Vec2>, delta: int) -> Vec2 {
    let target = match input {
        Some(m) => spec_input_velocity(m, delta),
        None => Vec2 { x: 0, y: 0 },
    };
    let rate = if input is Some {
        ACCELERATION
    } else {
        DECELERATION
    };
    Vec2 {
        x: (v.x + div_trunc((target.x - v.x) * (rate * delta), 1_000_000)) as i64,
        y: (v.y + div_trunc((target.y - v.y) * (rate * delta), 1_000_000)) as i64,
    }
}

/// Computes the target velocity for the given input direction.
fn input_velocity(m: Vec2, delta: u64) -> (r: Vec2)
    requires
        in_bounds(m, SCALE as int),
        delta <= DELTA_LIMIT,
    ensures
        r == spec_input_velocity(m, delta as int),
        in_bounds(r, 60_000),
{
    proof {
        assert(SPEED * delta <= 60_000_000_000) by (nonlinear_arith)
            requires 0 <= delta <= 100_000u64, SPEED == 600_000i64;
        assert(SPEED * delta >= 0) by (nonlinear_arith)
            requires 0 <= delta, SPEED == 600_000i64;
        let ax = vstd::math::abs(m.x as int);
        let ay = vstd::math::abs(m.y as int);
        assert(ax * (SPEED * delta) <= 1000 * 60_000_000_000) by (nonlinear_arith)
            requires 0 <= ax <= 1000, 0 <= SPEED * delta <= 60_000_000_000;
        assert(ay * (SPEED * delta) <= 1000 * 60_000_000_000) by (nonlinear_arith)
            requires 0 <= ay <= 1000, 0 <= SPEED * delta <= 60_000_000_000;
    }
    let num = SPEED as u64 * delta;
    let rx = mul_div(m.x, num, (SCALE * 1_000_000) as u64);
    let ry = mul_div(m.y, num, (SCALE * 1_000_000) as u64);
    proof {
        let ax = vstd::math::abs(m.x as int);
        let ay = vstd::math::abs(m.y as int);
        vstd::arithmetic::div_mod::lemma_div_is_ordered(
            ax * (num as int),
            60_000_000_000_000,
            1_000_000_000,
        );
        vstd::arithmetic::div_mod::lemma_div_is_ordered(
            ay * (num as int),
            60_000_000_000_000,
            1_000_000_000,
        );
        vstd::arithmetic::div_mod::lemma_div_pos_is_pos(ax * (num as int), 1_000_000_000);
        vstd::arithmetic::div_mod::lemma_div_pos_is_pos(ay * (num as int), 1_000_000_000);
        assert(60_000_000_000_000int / 1_000_000_000int == 60_000int);
    }
    Vec2 { x: rx, y: ry }
}

/// Moves one velocity component toward `target` by `rate * delta` millionths
/// of the difference; never overshoots past the target.
fn steer_component(v: i64, target: i64, rate: u64, delta: u64) -> (r: i64)
    requires
        -VEL_LIMIT <= v <= VEL_LIMIT,
        -VEL_LIMIT <= target <= VEL_LIMIT,
        rate * delta <= 1_000_000,
    ensures
        r == (v + div_trunc((target - v) * ((rate * delta) as int), 1_000_000)) as i64,
        vstd::math::min(v as int, target as int) <= r <= vstd::math::max(v as int, target as int),
{
    let diff = target - v;
    let num = rate * delta;
    proof {
        let ad = vstd::math::abs(diff as int);
        assert(ad * num <= 40_000_000 * 1_000_000) by (nonlinear_arith)
            requires 0 <= ad <= 40_000_000, 0 <= num <= 1_000_000u64;
        lemma_div_trunc_scale_bound(diff as int, num as int, 1_000_000);
    }
    let step = mul_div(diff, num, 1_000_000);
    v + step
}

/// One velocity-update tick: steers the velocity toward the input's target,
/// then records the new velocity in the history buffer.
pub fn update_velocity(
    v: &mut Velocity,
    input: Option<Vec2>,
    delta: u64,
    history: &mut PlayerVelocityHistory,
)
    requires
        in_bounds(old(v).0, VEL_LIMIT as int),
        input matches Some(m) ==> in_bounds(m, SCALE as int),
        delta <= DELTA_LIMIT,
        old(history).wf(),
    ensures
        final(v).0 == spec_velocity_update(old(v).0, input, delta as int),
        in_bounds(final(v).0, VEL_LIMIT as int),
        final(history).wf(),
        final(history).capacity() == old(history).capacity(),
        final(history).samples() == old(history).samples().update(
            old(history).write_pos(),
            final(v).0,
        ),
        final(history).write_pos() == (old(history).write_pos() + 1) % old(history).capacity(),
{
    let (target, rate): (Vec2, u64) = match input {
        Some(m) => (input_velocity(m, delta), ACCELERATION),
        None => (Vec2 { x: 0, y: 0 }, DECELERATION),
    };
    proof {
        assert(rate * delta <= 1_000_000) by (nonlinear_arith)
            requires 0 <= rate <= 10u64, 0 <= delta <= 100_000u64;
    }
    let nx = steer_component(v.0.x, target.x, rate, delta);
    let ny = steer_component(v.0.y, target.y, rate, delta);
    v.0 = Vec2 { x: nx, y: ny };
    history.set(v.0);
}

/// The player is close enough to the goal to complete the level: the
/// distance between the two positions is below the goal radius.
pub open spec fn spec_near_goal(player_pos: Vec2, goal_pos: Vec2) -> bool {
    sqrt_floor(
        norm2(
            Vec2 { x: (goal_pos.x - player_pos.x) as i64, y: (goal_pos.y - player_pos.y) as i64 },
        ) as nat,
    ) < GOAL_RADIUS
}

/// Tests whether the player has reached the goal.
pub fn near_goal(player_pos: Vec2, goal_pos: Vec2) -> (r: bool)
    requires
        in_bounds(player_pos, GEOM_LIMIT as int),
        in_bounds(goal_pos, GEOM_LIMIT as int),
    ensures
        r == spec_near_goal(player_pos, goal_pos),
{
    let diff = Vec2 { x: goal_pos.x - player_pos.x, y: goal_pos.y - player_pos.y };
    let dist = diff.length();
    dist < GOAL_RADIUS
}

} // verus!
