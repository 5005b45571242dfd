//! Ray-marched line of sight.
//!
//! An enemy scans toward the player by marching a tile-sized probe box along
//! the straight line between them, one step at a time, never beyond the
//! scan's maximum distance or the player's actual distance — and, as a final
//! probe, exactly at that clamped endpoint. A probe that overlaps any wall
//! ends the scan blind; one that overlaps the player's collision box first
//! establishes sight. A scan that exhausts its distance is conservatively
//! blind.

use vstd::prelude::*;

use crate::config::GEOM_LIMIT;
use crate::config::UNIT;
use crate::environment::Wall;
use crate::environment::wall_wf;
use crate::geom::boxes_overlap;
use crate::geom::half_wf;
use crate::geom::overlaps;
use crate::vec2::Vec2;
use crate::vec2::div_trunc;
use crate::vec2::in_bounds;
use crate::vec2::lemma_div_trunc_exact;
use crate::vec2::lemma_div_trunc_scale_bound;
use crate::vec2::mul_div;
use crate::vec2::norm2;
use crate::vec2::sqrt_floor;

verus! {

/// Half-extent of the scanning probe box: one tile square, like an enemy.
pub open spec fn spec_probe_half() -> Vec2 {
    Vec2 { x: (UNIT / 2) as i64, y: (UNIT / 2) as i64 }
}

/// The vector from the enemy to the player.
pub open spec fn sight_dir(enemy_pos: Vec2, player_pos: Vec2) -> Vec2 {
    Vec2 { x: (player_pos.x - enemy_pos.x) as i64, y: (player_pos.y - enemy_pos.y) as i64 }
}

/// The (floor of the) distance from the enemy to the player.
pub open spec fn sight_len(enemy_pos: Vec2, player_pos: Vec2) -> int {
    sqrt_floor(norm2(sight_dir(enemy_pos, player_pos)) as nat) as int
}

/// How far the scan travels: the player's distance, clamped to the maximum.
pub open spec fn sight_local_max(enemy_pos: Vec2, player_pos: Vec2, max_distance: int) -> int {
    vstd::math::min(max_distance, sight_len(enemy_pos, player_pos))
}

/// The probe center a distance `d` from the enemy toward the player: the
/// direction scaled by `d / len` with each component truncated toward zero;
/// the enemy's own position when the direction has zero length.
pub open spec fn probe_point(enemy_pos: Vec2, dir: Vec2, len: int, d: int) -> Vec2 {
    if len <= 0 {
        enemy_pos
    } else {
        Vec2 {
            x: (enemy_pos.x + div_trunc(dir.x * d, len)) as i64,
            y: (enemy_pos.y + div_trunc(dir.y * d, len)) as i64,
        }
    }
}

/// Some wall overlaps the probe box centered at `p`.
pub open spec fn probe_hits_wall(p: Vec2, walls: Seq<Wall>) -> bool {
    exists|i: int|
        0 <= i < walls.len() && overlaps(
            p,
            spec_probe_half(),
            (#[trigger] walls[i]).pos,
            walls[i].collider.half_size,
        )
}

/// The scan from travel distance `d` on: each probe sits at the travel
/// distance clamped to `local_max`; a wall overlap decides blind, a player
/// overlap decides sighted, and a scan past `local_max` that decides neither
/// is blind.
pub open spec fn spec_scan(
    enemy_pos: Vec2,
    dir: Vec2,
    len: int,
    player_pos: Vec2,
    player_half: Vec2,
    walls: Seq<Wall>,
    step: int,
    local_max: int,
    d: int,
) -> bool
    decreases local_max - d + step,
        when step >= 1
{
    let pd = if d < local_max {
        d
    } else {
        local_max
    };
    let p = probe_point(enemy_pos, dir, len, pd);
    if probe_hits_wall(p, walls) {
        false
    } else if overlaps(p, spec_probe_half(), player_pos, player_half) {
        true
    } else if d >= local_max {
        false
    } else {
        spec_scan(enemy_pos, dir, len, player_pos, player_half, walls, step, local_max, d + step)
    }
}

/// Whether the enemy at `enemy_pos` has line of sight to the player.
pub open spec fn spec_can_see(
    enemy_pos: Vec2,
    player_pos: Vec2,
    player_half: Vec2,
    walls: Seq<Wall>,
    step: int,
    max_distance: int,
) -> bool {
    spec_scan(
        enemy_pos,
        sight_dir(enemy_pos, player_pos),
        sight_len(enemy_pos, player_pos),
        player_pos,
        player_half,
        walls,
        step,
        sight_local_max(enemy_pos, player_pos, max_distance),
        0,
    )
}

proof fn lemma_scan_insertion(
    enemy_pos: Vec2,
    dir: Vec2,
    len: int,
    player_pos: Vec2,
    player_half: Vec2,
    walls: Seq<Wall>,
    w: Wall,
    step: int,
    local_max: int,
    d: int,
)
    requires
        step >= 1,
    ensures
        spec_scan(enemy_pos, dir, len, player_pos, player_half, walls.push(w), step, local_max, d)
            ==> spec_scan(enemy_pos, dir, len, player_pos, player_half, walls, step, local_max, d),
    decreases local_max - d + step,
{
    let pd = if d < local_max {
        d
    } else {
        local_max
    };
    let p = probe_point(enemy_pos, dir, len, pd);
    if probe_hits_wall(p, walls) {
        let i = choose|i: int|
            0 <= i < walls.len() && overlaps(
                p,
                spec_probe_half(),
                (#[trigger] walls[i]).pos,
                walls[i].collider.half_size,
            );
        assert(walls.push(w)[i] == walls[i]);
        assert(probe_hits_wall(p, walls.push(w)));
    } else if overlaps(p, spec_probe_half(), player_pos, player_half) {
    } else if d >= local_max {
    } else {
        lemma_scan_insertion(
            enemy_pos,
            dir,
            len,
            player_pos,
            player_half,
            walls,
            w,
            step,
            local_max,
            d + step,
        );
    }
}

/// Visibility monotonicity, negative direction: adding one more obstacle
/// never creates line of sight — equivalently, removing an obstacle never
/// destroys it.
pub proof fn lemma_visibility_insertion_monotonic(
    enemy_pos: Vec2,
    player_pos: Vec2,
    player_half: Vec2,
    walls: Seq<Wall>,
    w: Wall,
    step: int,
    max_distance: int,
)
    requires
        step >= 1,
    ensures
        spec_can_see(enemy_pos, player_pos, player_half, walls.push(w), step, max_distance)
            ==> spec_can_see(enemy_pos, player_pos, player_half, walls, step, max_distance),
{
    lemma_scan_insertion(
        enemy_pos,
        sight_dir(enemy_pos, player_pos),
        sight_len(enemy_pos, player_pos),
        player_pos,
        player_half,
        walls,
        w,
        step,
        sight_local_max(enemy_pos, player_pos, max_distance),
        0,
    );
}

proof fn lemma_scan_empty(
    enemy_pos: Vec2,
    dir: Vec2,
    len: int,
    player_pos: Vec2,
    player_half: Vec2,
    step: int,
    local_max: int,
    d: int,
)
    requires
        step >= 1,
        overlaps(
            probe_point(enemy_pos, dir, len, local_max),
            spec_probe_half(),
            player_pos,
            player_half,
        ),
    ensures
        spec_scan(
            enemy_pos,
            dir,
            len,
            player_pos,
            player_half,
            Seq::<Wall>::empty(),
            step,
            local_max,
            d,
        ),
    decreases local_max - d + step,
{
    let pd = if d < local_max {
        d
    } else {
        local_max
    };
    let p = probe_point(enemy_pos, dir, len, pd);
    assert(!probe_hits_wall(p, Seq::<Wall>::empty()));
    if overlaps(p, spec_probe_half(), player_pos, player_half) {
    } else {
        assert(d < local_max);
        lemma_scan_empty(enemy_pos, dir, len, player_pos, player_half, step, local_max, d + step);
    }
}

/// Visibility monotonicity, positive direction: with no obstacles at all and
/// the player within the scan's maximum distance, line of sight always holds
/// — the scan's final probe sits exactly on the player.
pub proof fn lemma_visibility_clear_line(
    enemy_pos: Vec2,
    player_pos: Vec2,
    player_half: Vec2,
    step: int,
    max_distance: int,
)
    requires
        in_bounds(enemy_pos, GEOM_LIMIT as int),
        in_bounds(player_pos, GEOM_LIMIT as int),
        half_wf(player_half),
        step >= 1,
        sight_len(enemy_pos, player_pos) <= max_distance,
    ensures
        spec_can_see(
            enemy_pos,
            player_pos,
            player_half,
            Seq::<Wall>::empty(),
            step,
            max_distance,
        ),
{
    let dir = sight_dir(enemy_pos, player_pos);
    let len = sight_len(enemy_pos, player_pos);
    let local_max = sight_local_max(enemy_pos, player_pos, max_distance);
    assert(local_max == len);
    crate::vec2::lemma_sqrt_floor_bounds(norm2(dir) as nat);
    assert(norm2(dir) >= 0) by (nonlinear_arith);
    if len == 0 {
        let s = sqrt_floor(norm2(dir) as nat);
        assert(s == 0);
        assert((s + 1) * (s + 1) == 1) by (nonlinear_arith)
            requires s == 0;
        assert(norm2(dir) == 0);
        assert(dir.x == 0 && dir.y == 0) by (nonlinear_arith)
            requires dir.x * dir.x + dir.y * dir.y == 0;
        assert(player_pos == enemy_pos);
        assert(probe_point(enemy_pos, dir, len, local_max) == player_pos);
    } else {
        lemma_div_trunc_exact(dir.x as int, len);
        lemma_div_trunc_exact(dir.y as int, len);
        assert(probe_point(enemy_pos, dir, len, local_max) == player_pos);
    }
    assert(overlaps(player_pos, spec_probe_half(), player_pos, player_half));
    lemma_scan_empty(enemy_pos, dir, len, player_pos, player_half, step, local_max, 0);
}

proof fn lemma_scan_blocked(
    enemy_pos: Vec2,
    dir: Vec2,
    len: int,
    player_pos: Vec2,
    player_half: Vec2,
    walls: Seq<Wall>,
    step: int,
    local_max: int,
    j: int,
    k: int,
)
    requires
        step >= 1,
        0 <= j <= k,
        k * step <= local_max,
        probe_hits_wall(probe_point(enemy_pos, dir, len, k * step), walls),
        forall|m: int|
            j <= m < k ==> !overlaps(
                probe_point(enemy_pos, dir, len, #[trigger] (m * step)),
                spec_probe_half(),
                player_pos,
                player_half,
            ),
    ensures
        !spec_scan(enemy_pos, dir, len, player_pos, player_half, walls, step, local_max, j * step),
    decreases k - j,
{
    let d = j * step;
    vstd::arithmetic::mul::lemma_mul_inequality(j, k, step);
    vstd::arithmetic::mul::lemma_mul_nonnegative(j, step);
    assert(0 <= d <= k * step <= local_max);
    let pd = if d < local_max {
        d
    } else {
        local_max
    };
    assert(pd == d);
    let p = probe_point(enemy_pos, dir, len, d);
    if j == k {
        assert(probe_hits_wall(p, walls));
    } else {
        if probe_hits_wall(p, walls) {
        } else {
            assert(!overlaps(p, spec_probe_half(), player_pos, player_half));
            vstd::arithmetic::mul::lemma_mul_strict_inequality(j, k, step);
            assert(d < k * step <= local_max);
            assert((j + 1) * step == j * step + step) by (nonlinear_arith);
            lemma_scan_blocked(
                enemy_pos,
                dir,
                len,
                player_pos,
                player_half,
                walls,
                step,
                local_max,
                j + 1,
                k,
            );
        }
    }
}

/// Blocking law: when the probe box at the `k`-th scan step overlaps some
/// wall, and no earlier probe already reaches the player's box, the scan is
/// blind — an obstacle met on the line before the player defeats sight.
pub proof fn lemma_visibility_blocked(
    enemy_pos: Vec2,
    player_pos: Vec2,
    player_half: Vec2,
    walls: Seq<Wall>,
    step: int,
    max_distance: int,
    k: int,
)
    requires
        step >= 1,
        0 <= k,
        k * step <= sight_local_max(enemy_pos, player_pos, max_distance),
        probe_hits_wall(
            probe_point(
                enemy_pos,
                sight_dir(enemy_pos, player_pos),
                sight_len(enemy_pos, player_pos),
                k * step,
            ),
            walls,
        ),
        forall|m: int|
            0 <= m < k ==> !overlaps(
                probe_point(
                    enemy_pos,
                    sight_dir(enemy_pos, player_pos),
                    sight_len(enemy_pos, player_pos),
                    #[trigger] (m * step),
                ),
                spec_probe_half(),
                player_pos,
                player_half,
            ),
    ensures
        !spec_can_see(enemy_pos, player_pos, player_half, walls, step, max_distance),
{
    lemma_scan_blocked(
        enemy_pos,
        sight_dir(enemy_pos, player_pos),
        sight_len(enemy_pos, player_pos),
        player_pos,
        player_half,
        walls,
        step,
        sight_local_max(enemy_pos, player_pos, max_distance),
        0,
        k,
    );
    assert(0 * step == 0) by (nonlinear_arith);
}

/// Blocking law, geometric form: a wall in the set that overlaps the probe
/// box at every travel distance of some stretch `[d1, d2]` of the sight line
/// at least one step long — a wall spanning the line, as any box wider than
/// a step that sits on it does — defeats sight, provided no probe before
/// that stretch already reaches the player's box.
pub proof fn lemma_visibility_blocked_by_spanning_wall(
    enemy_pos: Vec2,
    player_pos: Vec2,
    player_half: Vec2,
    walls: Seq<Wall>,
    w: Wall,
    step: int,
    max_distance: int,
    d1: int,
    d2: int,
)
    requires
        step >= 1,
        walls.contains(w),
        0 <= d1,
        d1 + step - 1 <= d2,
        d2 <= sight_local_max(enemy_pos, player_pos, max_distance),
        forall|d: int|
            d1 <= d <= d2 ==> overlaps(
                probe_point(
                    enemy_pos,
                    sight_dir(enemy_pos, player_pos),
                    sight_len(enemy_pos, player_pos),
                    d,
                ),
                spec_probe_half(),
                w.pos,
                w.collider.half_size,
            ),
        forall|m: int|
            0 <= m && #[trigger] (m * step) < d1 ==> !overlaps(
                probe_point(
                    enemy_pos,
                    sight_dir(enemy_pos, player_pos),
                    sight_len(enemy_pos, player_pos),
                    m * step,
                ),
                spec_probe_half(),
                player_pos,
                player_half,
            ),
    ensures
        !spec_can_see(enemy_pos, player_pos, player_half, walls, step, max_distance),
{
    let dir = sight_dir(enemy_pos, player_pos);
    let len = sight_len(enemy_pos, player_pos);

    // The first probe at or past d1 lands inside [d1, d2]; every earlier
    // probe lies strictly before d1.
    let k = (d1 + step - 1) / step;
    vstd::arithmetic::div_mod::lemma_fundamental_div_mod(d1 + step - 1, step);
    vstd::arithmetic::div_mod::lemma_mod_division_less_than_divisor(d1 + step - 1, step);
    vstd::arithmetic::div_mod::lemma_div_pos_is_pos(d1 + step - 1, step);
    let r = (d1 + step - 1) % step;
    assert(d1 + step - 1 == step * k + r);
    assert(k * step == step * k) by (nonlinear_arith);
    assert(d1 <= k * step <= d2);

    // That probe overlaps the spanning wall.
    let wi = choose|wi: int| 0 <= wi < walls.len() && walls[wi] == w;
    assert(overlaps(
        probe_point(enemy_pos, dir, len, k * step),
        spec_probe_half(),
        walls[wi].pos,
        walls[wi].collider.half_size,
    ));
    assert(probe_hits_wall(probe_point(enemy_pos, dir, len, k * step), walls));

    // Every earlier probe distance is below d1, so the player hypothesis
    // applies to it.
    assert forall|m: int| 0 <= m < k implies !overlaps(
        probe_point(enemy_pos, dir, len, #[trigger] (m * step)),
        spec_probe_half(),
        player_pos,
        player_half,
    ) by {
        vstd::arithmetic::mul::lemma_mul_inequality(m, k - 1, step);
        assert((k - 1) * step == k * step - step) by (nonlinear_arith);
        assert(m * step <= (k - 1) * step < d1);
    }
    lemma_scan_blocked(
        enemy_pos,
        dir,
        len,
        player_pos,
        player_half,
        walls,
        step,
        sight_local_max(enemy_pos, player_pos, max_distance),
        0,
        k,
    );
    assert(0 * step == 0) by (nonlinear_arith);
}

/// Any stretch of the scan line at least one step long contains an exact
/// probe distance: obstacles wider than a step cannot fall between probes.
pub proof fn lemma_probe_distance_in_interval(step: int, d1: int, d2: int)
    requires
        1 <= step,
        0 <= d1,
        d1 + step - 1 <= d2,
    ensures
        exists|k: int| 0 <= k && d1 <= #[trigger] (k * step) <= d2,
{
    let k = (d1 + step - 1) / step;
    vstd::arithmetic::div_mod::lemma_fundamental_div_mod(d1 + step - 1, step);
    vstd::arithmetic::div_mod::lemma_mod_division_less_than_divisor(d1 + step - 1, step);
    vstd::arithmetic::div_mod::lemma_div_pos_is_pos(d1 + step - 1, step);
    let r = (d1 + step - 1) % step;
    assert(d1 + step - 1 == step * k + r);
    assert(k * step == step * k) by (nonlinear_arith);
    assert(k * step == d1 + step - 1 - r);
    assert(d1 <= k * step <= d2);
}

/// Computes the probe center a distance `d` toward the player.
fn probe_at(enemy_pos: Vec2, dir: Vec2, len: i64, d: i64) -> (p: Vec2)
    requires
        in_bounds(enemy_pos, GEOM_LIMIT as int),
        in_bounds(dir, 2 * GEOM_LIMIT as int),
        0 <= len,
        0 <= d <= len,
        d <= GEOM_LIMIT,
    ensures
        p == probe_point(enemy_pos, dir, len as int, d as int),
        in_bounds(p, 3 * GEOM_LIMIT as int),
{
    if len <= 0 {
        return enemy_pos;
    }
    proof {
        let ax = vstd::math::abs(dir.x as int);
        let ay = vstd::math::abs(dir.y as int);
        assert(ax * d <= i64::MAX) by (nonlinear_arith)
            requires 0 <= ax <= 2_000_000_000, 0 <= d <= 1_000_000_000;
        assert(ay * d <= i64::MAX) by (nonlinear_arith)
            requires 0 <= ay <= 2_000_000_000, 0 <= d <= 1_000_000_000;
    }
    let ox = mul_div(dir.x, d as u64, len as u64);
    let oy = mul_div(dir.y, d as u64, len as u64);
    proof {
        lemma_div_trunc_scale_bound(dir.x as int, d as int, len as int);
        lemma_div_trunc_scale_bound(dir.y as int, d as int, len as int);
    }
    Vec2 { x: enemy_pos.x + ox, y: enemy_pos.y + oy }
}

/// Tests the probe box at `p` against every wall.
fn probe_blocked(p: Vec2, walls: &Vec<Wall>) -> (r: bool)
    requires
        in_bounds(p, 3 * GEOM_LIMIT as int),
        forall|i: int| 0 <= i < walls@.len() ==> wall_wf(#[trigger] walls@[i]),
    ensures
        r == probe_hits_wall(p, walls@),
{
    let ph = Vec2 { x: UNIT / 2, y: UNIT / 2 };
    assert(ph == spec_probe_half());
    let n = walls.len();
    let mut i: usize = 0;
    while i < n
        invariant
            n == walls@.len(),
            0 <= i <= n,
            in_bounds(p, 3 * GEOM_LIMIT as int),
            ph == spec_probe_half(),
            forall|j: int| 0 <= j < walls@.len() ==> wall_wf(#[trigger] walls@[j]),
            forall|j: int|
                0 <= j < i ==> !overlaps(
                    p,
                    spec_probe_half(),
                    (#[trigger] walls@[j]).pos,
                    walls@[j].collider.half_size,
                ),
        decreases n - i,
    {
        let w = walls[i];
        if boxes_overlap(p, ph, w.pos, w.collider.half_size) {
            return true;
        }
        i = i + 1;
    }
    false
}

/// Decides line of sight from an enemy to the player by ray-marching a probe
/// box in `step_size` increments, testing walls before the player at each
/// probe, out to `max_distance` at most; an exhausted scan is blind.
pub fn can_see(
    enemy_pos: Vec2,
    player_pos: Vec2,
    player_half: Vec2,
    walls: &Vec<Wall>,
    step_size: i64,
    max_distance: i64,
) -> (r: bool)
    requires
        in_bounds(enemy_pos, GEOM_LIMIT as int),
        in_bounds(player_pos, GEOM_LIMIT as int),
        half_wf(player_half),
        forall|i: int| 0 <= i < walls@.len() ==> wall_wf(#[trigger] walls@[i]),
        1 <= step_size <= GEOM_LIMIT,
        0 <= max_distance <= GEOM_LIMIT,
    ensures
        r == spec_can_see(
            enemy_pos,
            player_pos,
            player_half,
            walls@,
            step_size as int,
            max_distance as int,
        ),
{
    let dir = Vec2 { x: player_pos.x - enemy_pos.x, y: player_pos.y - enemy_pos.y };
    assert(dir == sight_dir(enemy_pos, player_pos));
    let len = dir.length();
    assert(len == sight_len(enemy_pos, player_pos));
    let local_max = if max_distance < len {
        max_distance
    } else {
        len
    };
    assert(local_max == sight_local_max(enemy_pos, player_pos, max_distance as int));
    let ph = Vec2 { x: UNIT / 2, y: UNIT / 2 };
    assert(ph == spec_probe_half());
    let ghost full = spec_can_see(
        enemy_pos,
        player_pos,
        player_half,
        walls@,
        step_size as int,
        max_distance as int,
    );
    let mut d: i64 = 0;
    while d < local_max
        invariant
            in_bounds(enemy_pos, GEOM_LIMIT as int),
            in_bounds(player_pos, GEOM_LIMIT as int),
            half_wf(player_half),
            forall|i: int| 0 <= i < walls@.len() ==> wall_wf(#[trigger] walls@[i]),
            1 <= step_size <= GEOM_LIMIT,
            0 <= max_distance <= GEOM_LIMIT,
            dir == sight_dir(enemy_pos, player_pos),
            len == sight_len(enemy_pos, player_pos),
            local_max == sight_local_max(enemy_pos, player_pos, max_distance as int),
            ph == spec_probe_half(),
            0 <= d,
            full == spec_can_see(
                enemy_pos,
                player_pos,
                player_half,
                walls@,
                step_size as int,
                max_distance as int,
            ),
            full == spec_scan(
                enemy_pos,
                dir,
                len as int,
                player_pos,
                player_half,
                walls@,
                step_size as int,
                local_max as int,
                d as int,
            ),
        decreases local_max + step_size - d,
    {
        let p = probe_at(enemy_pos, dir, len, d);
        if probe_blocked(p, walls) {
            return false;
        }
        if boxes_overlap(p, ph, player_pos, player_half) {
            return true;
        }
        d = d + step_size;
    }
    let p = probe_at(enemy_pos, dir, len, local_max);
    if probe_blocked(p, walls) {
        return false;
    }
    if boxes_overlap(p, ph, player_pos, player_half) {
        return true;
    }
    false
}

} // verus!
