//! Enemies and their projectiles.
//!
//! Each enemy owns a repeating shoot timer seeded with a random period and
//! phase so enemies do not fire in lockstep, a random history offset that
//! staggers its pursuit of the player's past motion, and a can-see-player
//! flag refreshed every tick. When the timer completes on a tick where the
//! enemy sees the player, it fires a projectile aimed at the player's current
//! position; the projectile keeps that direction and speed until a wall or
//! the window boundary removes it.

use vstd::prelude::*;

use crate::config::DELTA_LIMIT;
use crate::config::ENEMY_OFFSET_MAX;
use crate::config::GEOM_LIMIT;
use crate::config::PROJECTILE_HALF;
use crate::config::PROJECTILE_SPEED;
use crate::config::SCALE;
use crate::config::SHOOT_PERIOD_MAX;
use crate::config::SHOOT_PERIOD_MIN;
use crate::config::SHOOT_PHASE_MAX;
use crate::config::WINDOW_HEIGHT;
use crate::config::WINDOW_WIDTH;
use crate::environment::Wall;
use crate::environment::wall_wf;
use crate::geom::boxes_overlap;
use crate::geom::overlaps;
use crate::timer::TIME_LIMIT;
use crate::timer::Timer;
use crate::vec2::Vec2;
use crate::vec2::div_trunc;
use crate::vec2::in_bounds;
use crate::vec2::lemma_component_le_sqrt;
use crate::vec2::lemma_div_trunc_scale_bound;
use crate::vec2::mul_div;
use crate::vec2::norm2;
use crate::vec2::sqrt_floor;

verus! {

/// Per-enemy behavior state: the repeating shoot timer, the history offset
/// into the player's velocity ring buffer, and last tick's visibility verdict.
#[derive(Clone, Copy, Debug)]
pub struct Enemy {
    pub shoot_timer: Timer,
    pub offset: usize,
    pub can_see_player: bool,
}

/// A fired projectile: a fixed direction (a vector of length `SCALE`,
/// truncated componentwise) and a fixed speed in milliunits per second.
#[derive(Clone, Copy, Debug, PartialEq, Eq, Structural)]
pub struct Projectile {
    pub direction: Vec2,
    pub speed: i64,
}

impl Enemy {
    /// The timer is valid and within the random spawn ranges; the offset
    /// addresses the velocity history.
    pub open spec fn wf(&self) -> bool {
        &&& self.shoot_timer.wf()
        &&& SHOOT_PERIOD_MIN <= self.shoot_timer.duration < SHOOT_PERIOD_MAX
        &&& self.offset < ENEMY_OFFSET_MAX
    }

    /// A fresh enemy: the shoot period, its initial phase and the history
    /// offset are drawn at random from their fixed ranges, and the enemy
    /// starts blind.
    pub fn new() -> (r: Enemy)
        ensures
            r.wf(),
            r.shoot_timer.elapsed < SHOOT_PHASE_MAX,
            !r.shoot_timer.just_finished,
            !r.can_see_player,
    {
        let duration = random_in_range(SHOOT_PERIOD_MIN, SHOOT_PERIOD_MAX);
        let mut shoot_timer = Timer::new(duration);
        let phase = random_in_range(0, SHOOT_PHASE_MAX);
        shoot_timer.set_elapsed(phase);
        let offset_raw = random_in_range(0, ENEMY_OFFSET_MAX);
        Enemy { shoot_timer, offset: offset_raw as usize, can_see_player: false }
    }
}

/// Relies on rand's `thread_rng` and `Rng::gen_range`: a sample from the
/// half-open range `[lo, hi)`, which is all that can be said of a random
/// draw. `gen_range` panics only on an empty range, excluded here.
#[verifier::external_body]
fn random_in_range(lo: u64, hi: u64) -> (r: u64)
    requires
        lo < hi,
    ensures
        lo <= r < hi,
{
    rand::Rng::gen_range(&mut rand::thread_rng(), lo..hi)
}

/// The aim direction from `origin` toward `target`: the difference vector
/// scaled to length `SCALE` with each component truncated toward zero, or
/// nothing when the two positions coincide.
pub open spec fn spec_aim(origin: Vec2, target: Vec2) -> Option<Vec2> {
    let dir = Vec2 { x: (target.x - origin.x) as i64, y: (target.y - origin.y) as i64 };
    if dir.x == 0 && dir.y == 0 {
        None
    } else {
        let len = sqrt_floor(norm2(dir) as nat) as int;
        Some(
            Vec2 {
                x: div_trunc(dir.x * SCALE, len) as i64,
                y: div_trunc(dir.y * SCALE, len) as i64,
            },
        )
    }
}

/// Computes the aim direction from `origin` toward `target`, guarding the
/// zero-length case instead of dividing by zero.
pub fn aim(origin: Vec2, target: Vec2) -> (r: Option<Vec2>)
    requires
        in_bounds(origin, GEOM_LIMIT as int),
        in_bounds(target, GEOM_LIMIT as int),
    ensures
        r == spec_aim(origin, target),
        r matches Some(u) ==> in_bounds(u, SCALE as int),
{
    let dir = Vec2 { x: target.x - origin.x, y: target.y - origin.y };
    if dir.x == 0 && dir.y == 0 {
        return None;
    }
    let len = dir.length();
    proof {
        lemma_component_le_sqrt(dir);
        crate::vec2::lemma_sqrt_floor_bounds(norm2(dir) as nat);
        if len == 0 {
            assert((len + 1) * (len + 1) == 1) by (nonlinear_arith)
                requires len == 0i64;
            assert(norm2(dir) == 0);
            assert(dir.x == 0 && dir.y == 0) by (nonlinear_arith)
                requires dir.x * dir.x + dir.y * dir.y == 0;
        }
        assert(len >= 1);
        assert(vstd::math::abs(dir.x as int) * (SCALE as u64) <= i64::MAX) by (nonlinear_arith)
            requires 0 <= vstd::math::abs(dir.x as int) <= 2_000_000_000, SCALE == 1000i64;
        assert(vstd::math::abs(dir.y as int) * (SCALE as u64) <= i64::MAX) by (nonlinear_arith)
            requires 0 <= vstd::math::abs(dir.y as int) <= 2_000_000_000, SCALE == 1000i64;
    }
    let ux = mul_div(dir.x, SCALE as u64, len as u64);
    let uy = mul_div(dir.y, SCALE as u64, len as u64);
    proof {
        lemma_scaled_component_bound(dir.x as int, len as int);
        lemma_scaled_component_bound(dir.y as int, len as int);
    }
    Some(Vec2 { x: ux, y: uy })
}

/// A component no longer than the divisor, scaled by `SCALE / divisor`,
/// stays within `[-SCALE, SCALE]`.
proof fn lemma_scaled_component_bound(c: int, len: int)
    requires
        1 <= len,
        vstd::math::abs(c) <= len,
    ensures
        -SCALE <= div_trunc(c * SCALE, len) <= SCALE,
{
    lemma_div_trunc_scale_bound(SCALE as int, vstd::math::abs(c) as int, len);
    let a = vstd::math::abs(c);
    assert(SCALE * a == a * SCALE) by (nonlinear_arith);
    if c >= 0 {
        assert(c * SCALE == a * SCALE) by (nonlinear_arith)
            requires a == c;
    } else {
        assert(c * SCALE == -(a * SCALE)) by (nonlinear_arith)
            requires a == -c;
        assert(a * SCALE >= 0) by (nonlinear_arith)
            requires a >= 0, SCALE == 1000i64;
        if a * SCALE == 0 {
            vstd::arithmetic::div_mod::lemma_div_of0(len);
        }
    }
}

/// The facing direction derived from a velocity: its `SCALE`-length direction
/// vector, or the previous facing when the velocity is exactly zero.
pub open spec fn spec_facing(velocity: Vec2, previous: Vec2) -> Vec2 {
    match spec_aim(Vec2 { x: 0, y: 0 }, velocity) {
        Some(u) => u,
        None => previous,
    }
}

/// Derives an entity's facing from its velocity, keeping the previous facing
/// at zero velocity rather than normalizing a zero vector.
pub fn facing(velocity: Vec2, previous: Vec2) -> (r: Vec2)
    requires
        in_bounds(velocity, GEOM_LIMIT as int),
    ensures
        r == spec_facing(velocity, previous),
        in_bounds(previous, SCALE as int) ==> in_bounds(r, SCALE as int),
{
    match aim(Vec2 { x: 0, y: 0 }, velocity) {
        Some(u) => u,
        None => previous,
    }
}

/// What the shoot system decides for one enemy on one tick, after its timer
/// has been ticked by `delta`: a projectile aimed from the enemy at the
/// player exactly when the timer completed this tick, the enemy saw the
/// player, and the two positions differ.
pub open spec fn spec_shoot_decision(e: Enemy, enemy_pos: Vec2, player_pos: Vec2, delta: int)
    -> Option<Projectile> {
    if e.shoot_timer.elapsed + delta >= e.shoot_timer.duration && e.can_see_player {
        match spec_aim(enemy_pos, player_pos) {
            Some(u) => Some(Projectile { direction: u, speed: PROJECTILE_SPEED }),
            None => None,
        }
    } else {
        None
    }
}

/// One shoot tick for one enemy: advances the shoot timer and fires exactly
/// when the repeating timer completes while the enemy can see the player.
pub fn shoot_tick(e: &mut Enemy, enemy_pos: Vec2, player_pos: Vec2, delta: u64) -> (r: Option<
    Projectile,
>)
    requires
        old(e).wf(),
        in_bounds(enemy_pos, GEOM_LIMIT as int),
        in_bounds(player_pos, GEOM_LIMIT as int),
        delta <= TIME_LIMIT,
    ensures
        final(e).wf(),
        final(e).offset == old(e).offset,
        final(e).can_see_player == old(e).can_see_player,
        final(e).shoot_timer == crate::timer::spec_timer_tick(old(e).shoot_timer, delta as int),
        r == spec_shoot_decision(*old(e), enemy_pos, player_pos, delta as int),
        r matches Some(p) ==> in_bounds(p.direction, SCALE as int) && p.speed == PROJECTILE_SPEED,
{
    e.shoot_timer.tick(delta);
    if e.shoot_timer.just_finished && e.can_see_player {
        match aim(enemy_pos, player_pos) {
            Some(u) => Some(Projectile { direction: u, speed: PROJECTILE_SPEED }),
            None => None,
        }
    } else {
        None
    }
}

/// A projectile's direction is a truncated `SCALE`-length vector and its
/// speed is the fixed projectile speed.
pub open spec fn projectile_wf(p: Projectile) -> bool {
    &&& in_bounds(p.direction, SCALE as int)
    &&& 0 <= p.speed <= 1_000_000
}

/// How far a projectile travels in `delta` microseconds: direction times
/// speed times elapsed seconds, each component truncated toward zero. The
/// direction carries a factor of `SCALE` and the time a factor of a million,
/// hence the divisor.
pub open spec fn spec_projectile_displacement(p: Projectile, delta: int) -> Vec2 {
    Vec2 {
        x: div_trunc(p.direction.x * (p.speed * delta), SCALE * 1_000_000) as i64,
        y: div_trunc(p.direction.y * (p.speed * delta), SCALE * 1_000_000) as i64,
    }
}

/// Computes a projectile's displacement for a tick of `delta` microseconds.
pub fn projectile_displacement(p: &Projectile, delta: u64) -> (r: Vec2)
    requires
        projectile_wf(*p),
        delta <= DELTA_LIMIT,
    ensures
        r == spec_projectile_displacement(*p, delta as int),
        in_bounds(r, GEOM_LIMIT as int),
{
    proof {
        assert(p.speed * delta <= 1_000_000 * 100_000) by (nonlinear_arith)
            requires 0 <= p.speed <= 1_000_000i64, 0 <= delta <= 100_000u64;
        assert(p.speed * delta >= 0) by (nonlinear_arith)
            requires 0 <= p.speed, 0 <= delta;
        let ax = vstd::math::abs(p.direction.x as int);
        let ay = vstd::math::abs(p.direction.y as int);
        assert(ax * (p.speed * delta) <= 1000 * (1_000_000 * 100_000)) by (nonlinear_arith)
            requires 0 <= ax <= 1000, 0 <= p.speed * delta <= 1_000_000 * 100_000;
        assert(ay * (p.speed * delta) <= 1000 * (1_000_000 * 100_000)) by (nonlinear_arith)
            requires 0 <= ay <= 1000, 0 <= p.speed * delta <= 1_000_000 * 100_000;
    }
    let num = p.speed as u64 * delta;
    let rx = mul_div(p.direction.x, num, (SCALE * 1_000_000) as u64);
    let ry = mul_div(p.direction.y, num, (SCALE * 1_000_000) as u64);
    proof {
        let ax = vstd::math::abs(p.direction.x as int);
        let ay = vstd::math::abs(p.direction.y as int);
        vstd::arithmetic::div_mod::lemma_div_is_ordered(
            ax * (num as int),
            100_000_000_000_000,
            1_000_000_000,
        );
        vstd::arithmetic::div_mod::lemma_div_is_ordered(
            ay * (num as int),
            100_000_000_000_000,
            1_000_000_000,
        );
        vstd::arithmetic::div_mod::lemma_div_pos_is_pos(ax * (num as int), 1_000_000_000);
        vstd::arithmetic::div_mod::lemma_div_pos_is_pos(ay * (num as int), 1_000_000_000);
        assert(100_000_000_000_000int / 1_000_000_000int == 100_000int);
    }
    Vec2 { x: rx, y: ry }
}

/// The projectile's box has left the playable window on at least one axis.
pub open spec fn spec_out_of_window(pos: Vec2) -> bool {
    pos.x > WINDOW_WIDTH || pos.x < 0 || pos.y > WINDOW_HEIGHT || pos.y < 0
}

/// Tests whether a projectile position lies strictly outside the window.
pub fn out_of_window(pos: Vec2) -> (r: bool)
    ensures
        r == spec_out_of_window(pos),
{
    pos.x > WINDOW_WIDTH || pos.x < 0 || pos.y > WINDOW_HEIGHT || pos.y < 0
}

/// The projectile's small collision box overlaps some wall.
pub open spec fn spec_projectile_hits_wall(pos: Vec2, walls: Seq<Wall>) -> bool {
    exists|i: int|
        0 <= i < walls.len() && overlaps(
            pos,
            Vec2 { x: PROJECTILE_HALF, y: PROJECTILE_HALF },
            (#[trigger] walls[i]).pos,
            walls[i].collider.half_size,
        )
}

/// Tests a projectile's collision box against every wall.
pub fn projectile_hits_wall(pos: Vec2, walls: &Vec<Wall>) -> (r: bool)
    requires
        in_bounds(pos, 4 * GEOM_LIMIT as int),
        forall|i: int| 0 <= i < walls@.len() ==> wall_wf(#[trigger] walls@[i]),
    ensures
        r == spec_projectile_hits_wall(pos, walls@),
{
    let half = Vec2 { x: PROJECTILE_HALF, y: PROJECTILE_HALF };
    let n = walls.len();
    let mut i: usize = 0;
    while i < n
        invariant
            n == walls@.len(),
            0 <= i <= n,
            in_bounds(pos, 4 * GEOM_LIMIT as int),
            half == (Vec2 { x: PROJECTILE_HALF, y: PROJECTILE_HALF }),
            forall|j: int| 0 <= j < walls@.len() ==> wall_wf(#[trigger] walls@[j]),
            forall|j: int|
                0 <= j < i ==> !overlaps(
                    pos,
                    Vec2 { x: PROJECTILE_HALF, y: PROJECTILE_HALF },
                    (#[trigger] walls@[j]).pos,
                    walls@[j].collider.half_size,
                ),
        decreases n - i,
    {
        let w = walls[i];
        if boxes_overlap(pos, half, w.pos, w.collider.half_size) {
            return true;
        }
        i = i + 1;
    }
    false
}

/// The position a projectile reaches after `k` ticks of the same duration,
/// starting from `pos`: `k` times the per-tick displacement, each tick's sum
/// truncating on overflow (exact within bounds).
pub open spec fn projectile_pos_after(pos: Vec2, p: Projectile, delta: int, k: nat) -> Vec2
    decreases k,
{
    if k == 0 {
        pos
    } else {
        crate::physics::vadd(
            projectile_pos_after(pos, p, delta, (k - 1) as nat),
            spec_projectile_displacement(p, delta),
        )
    }
}

/// Projectile termination law: a projectile moves by the same displacement
/// every tick, so after `k` ticks it sits `k` displacements from its origin;
/// once the rightward drift alone exceeds the window width, its position is
/// strictly outside the window and the bounds check removes it. A projectile
/// whose truncated displacement is positive on the `x` axis therefore cannot
/// survive more than `WINDOW_WIDTH` ticks.
pub proof fn lemma_projectile_bounded_flight(pos: Vec2, p: Projectile, delta: int, k: nat)
    requires
        in_bounds(pos, GEOM_LIMIT as int),
        in_bounds(spec_projectile_displacement(p, delta), GEOM_LIMIT as int),
        spec_projectile_displacement(p, delta).x >= 1,
        k <= 1_000_000_000,
    ensures
        projectile_pos_after(pos, p, delta, k).x == pos.x + k * spec_projectile_displacement(
            p,
            delta,
        ).x,
        pos.x >= 0 && k > WINDOW_WIDTH ==> spec_out_of_window(projectile_pos_after(pos, p, delta, k)),
    decreases k,
{
    let d = spec_projectile_displacement(p, delta);
    if k == 0 {
        assert(0 * d.x == 0) by (nonlinear_arith);
    } else {
        lemma_projectile_bounded_flight(pos, p, delta, (k - 1) as nat);
        assert((k - 1) * d.x + d.x == k * d.x) by (nonlinear_arith);
        assert(0 <= (k - 1) * d.x <= (k - 1) * 1_000_000_000) by (nonlinear_arith)
            requires 0 <= (k - 1) as int, 1 <= d.x <= 1_000_000_000;
        assert((k - 1) * 1_000_000_000 <= 1_000_000_000_000_000_000) by (nonlinear_arith)
            requires (k - 1) as int <= 1_000_000_000;
        if pos.x >= 0 && k > WINDOW_WIDTH {
            assert(k * d.x >= k * 1) by (nonlinear_arith)
                requires d.x >= 1, k >= 0;
            assert(k * 1 == k) by (nonlinear_arith);
        }
    }
}

} // verus!
