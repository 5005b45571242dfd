//! Exact 2D integer vectors.
//!
//! Positions, half-extents and velocities are measured in milliunits, so all
//! geometry is plain integer arithmetic. Vector lengths use the floor of the
//! real square root, computed by a verified binary search.

use vstd::prelude::*;

verus! {

/// A 2D vector with integer coordinates.
#[derive(Clone, Copy, Debug, PartialEq, Eq, Structural)]
pub struct Vec2 {
    pub x: i64,
    pub y: i64,
}

/// Coordinates admitted to length computations: squares and their sum fit in `i64`.
pub const COORD_LIMIT: i64 = 2_000_000_000;

/// The squared Euclidean length of `v`.
pub open spec fn norm2(v: Vec2) -> int {
    v.x * v.x + v.y * v.y
}

/// Both coordinates of `v` lie in `[-b, b]`.
pub open spec fn in_bounds(v: Vec2, b: int) -> bool {
    -b <= v.x <= b && -b <= v.y <= b
}

/// The floor of the real square root of `n`.
pub open spec fn sqrt_floor(n: nat) -> nat
    decreases n,
{
    if n == 0 {
        0
    } else {
        let r = sqrt_floor((n - 1) as nat);
        if (r + 1) * (r + 1) <= n {
            r + 1
        } else {
            r
        }
    }
}

/// `sqrt_floor(n)` is the unique `r` with `r * r <= n < (r + 1) * (r + 1)`.
pub proof fn lemma_sqrt_floor_bounds(n: nat)
    ensures
        sqrt_floor(n) * sqrt_floor(n) <= n,
        n < (sqrt_floor(n) + 1) * (sqrt_floor(n) + 1),
    decreases n,
{
    if n > 0 {
        lemma_sqrt_floor_bounds((n - 1) as nat);
        let r = sqrt_floor((n - 1) as nat);
        if (r + 1) * (r + 1) <= n {
            assert(sqrt_floor(n) == r + 1);
            assert(n == (r + 1) * (r + 1));
            assert((r + 1) * (r + 1) < (r + 1 + 1) * (r + 1 + 1)) by (nonlinear_arith)
                requires r >= 0;
        } else {
            assert(sqrt_floor(n) == r);
        }
    } else {
        assert(sqrt_floor(0) == 0);
        assert(0 < (sqrt_floor(n) + 1) * (sqrt_floor(n) + 1)) by (nonlinear_arith)
            requires sqrt_floor(n) == 0;
    }
}

/// Any `r` that satisfies the square-root bracketing equals `sqrt_floor(n)`.
pub proof fn lemma_sqrt_floor_unique(n: nat, r: nat)
    requires
        r * r <= n,
        n < (r + 1) * (r + 1),
    ensures
        r == sqrt_floor(n),
{
    lemma_sqrt_floor_bounds(n);
    let s = sqrt_floor(n);
    if r < s {
        assert((r + 1) * (r + 1) <= s * s) by (nonlinear_arith)
            requires r + 1 <= s;
    }
    if s < r {
        assert((s + 1) * (s + 1) <= r * r) by (nonlinear_arith)
            requires s + 1 <= r;
    }
}

/// Integer square root: the floor of the real square root of `n`.
pub fn isqrt(n: u64) -> (r: u64)
    ensures
        r == sqrt_floor(n as nat),
{
    let mut lo: u64 = 0;
    let mut hi: u64 = 0x1_0000_0000;
    assert(n < hi * hi) by (nonlinear_arith)
        requires hi == 0x1_0000_0000u64, n <= u64::MAX;
    assert(lo * lo == 0) by (nonlinear_arith)
        requires lo == 0u64;
    while hi - lo > 1
        invariant
            lo < hi <= 0x1_0000_0000,
            lo * lo <= n,
            n < hi * hi,
        decreases hi - lo,
    {
        let mid = lo + (hi - lo) / 2;
        assert(lo < mid < hi);
        assert(mid * mid <= 0xFFFF_FFFFu64 * 0xFFFF_FFFFu64) by (nonlinear_arith)
            requires 0 <= mid <= 0xFFFF_FFFFu64;
        if mid * mid <= n {
            lo = mid;
        } else {
            hi = mid;
        }
    }
    proof {
        lemma_sqrt_floor_unique(n as nat, lo as nat);
    }
    lo
}

/// Truncating division, as Rust's `/` on signed integers: the quotient is
/// rounded toward zero. `b` must be positive; on nonnegative `a` this is the
/// Euclidean quotient.
pub open spec fn div_trunc(a: int, b: int) -> int {
    if a >= 0 {
        a / b
    } else {
        -((-a) / b)
    }
}

/// No coordinate of a vector exceeds the vector's floor length.
pub proof fn lemma_component_le_sqrt(v: Vec2)
    ensures
        vstd::math::abs(v.x as int) <= sqrt_floor(norm2(v) as nat),
        vstd::math::abs(v.y as int) <= sqrt_floor(norm2(v) as nat),
{
    assert(v.x * v.x >= 0 && v.y * v.y >= 0) by (nonlinear_arith);
    lemma_sqrt_floor_bounds(norm2(v) as nat);
    let s = sqrt_floor(norm2(v) as nat);
    let ax = vstd::math::abs(v.x as int);
    let ay = vstd::math::abs(v.y as int);
    assert(ax == v.x || ax == -v.x);
    assert(ay == v.y || ay == -v.y);
    assert(ax * ax == v.x * v.x) by (nonlinear_arith)
        requires ax == v.x || ax == -v.x;
    assert(ay * ay == v.y * v.y) by (nonlinear_arith)
        requires ay == v.y || ay == -v.y;
    if ax > s {
        assert((s + 1) * (s + 1) <= ax * ax) by (nonlinear_arith)
            requires 0 <= s + 1 <= ax;
    }
    if ay > s {
        assert((s + 1) * (s + 1) <= ay * ay) by (nonlinear_arith)
            requires 0 <= s + 1 <= ay;
    }
}

/// Scaling by `num / den` with `num <= den` never grows a value's magnitude
/// and keeps its sign.
pub proof fn lemma_div_trunc_scale_bound(a: int, num: int, den: int)
    requires
        0 <= num <= den,
        1 <= den,
    ensures
        a >= 0 ==> 0 <= div_trunc(a * num, den) <= a,
        a < 0 ==> a <= div_trunc(a * num, den) <= 0,
{
    if a >= 0 {
        vstd::arithmetic::mul::lemma_mul_nonnegative(a, num);
        vstd::arithmetic::mul::lemma_mul_inequality(num, den, a);
        assert(a * num == num * a && a * den == den * a) by (nonlinear_arith);
        vstd::arithmetic::div_mod::lemma_div_is_ordered(a * num, a * den, den);
        vstd::arithmetic::div_mod::lemma_div_by_multiple(a, den);
        vstd::arithmetic::div_mod::lemma_div_pos_is_pos(a * num, den);
    } else {
        let b = -a;
        vstd::arithmetic::mul::lemma_mul_nonnegative(b, num);
        vstd::arithmetic::mul::lemma_mul_inequality(num, den, b);
        assert(b * num == num * b && b * den == den * b) by (nonlinear_arith);
        vstd::arithmetic::div_mod::lemma_div_is_ordered(b * num, b * den, den);
        vstd::arithmetic::div_mod::lemma_div_by_multiple(b, den);
        vstd::arithmetic::div_mod::lemma_div_pos_is_pos(b * num, den);
        assert(a * num == -(b * num)) by (nonlinear_arith)
            requires b == -a;
        if a * num == 0 {
            vstd::arithmetic::div_mod::lemma_div_of0(den);
        }
    }
}

/// Scaling by `den / den` is the identity.
pub proof fn lemma_div_trunc_exact(a: int, den: int)
    requires
        1 <= den,
    ensures
        div_trunc(a * den, den) == a,
{
    if a >= 0 {
        vstd::arithmetic::mul::lemma_mul_nonnegative(a, den);
        vstd::arithmetic::div_mod::lemma_div_by_multiple(a, den);
    } else {
        let b = -a;
        vstd::arithmetic::div_mod::lemma_div_by_multiple(b, den);
        assert(a * den == -(b * den)) by (nonlinear_arith)
            requires b == -a;
        assert(b * den > 0) by (nonlinear_arith)
            requires b > 0, den >= 1;
    }
}

/// Computes `a * num / den` with the quotient rounded toward zero.
pub fn mul_div(a: i64, num: u64, den: u64) -> (r: i64)
    requires
        den >= 1,
        a > i64::MIN,
        vstd::math::abs(a as int) * num <= i64::MAX,
    ensures
        r == div_trunc(a * num, den as int),
        vstd::math::abs(r as int) == vstd::math::abs(a as int) * num / (den as int),
{
    if num == 0 {
        proof {
            assert(a * num == 0) by (nonlinear_arith)
                requires num == 0u64;
            assert(vstd::math::abs(a as int) * num == 0) by (nonlinear_arith)
                requires num == 0u64;
            vstd::arithmetic::div_mod::lemma_div_of0(den as int);
        }
        return 0;
    }
    let neg = a < 0;
    let mag: u64 = if neg {
        (-a) as u64
    } else {
        a as u64
    };
    assert(mag == vstd::math::abs(a as int));
    let prod = mag * num;
    let q = prod / den;
    assert(q <= prod) by {
        vstd::arithmetic::div_mod::lemma_div_nonincreasing(prod as int, den as int);
    }
    proof {
        if neg {
            assert(a * num == -(mag * num)) by (nonlinear_arith)
                requires mag == -a;
            assert(a * num < 0) by (nonlinear_arith)
                requires a < 0, num >= 1;
        }
    }
    if neg {
        -(q as i64)
    } else {
        q as i64
    }
}

impl Vec2 {
    /// The floor of the Euclidean length.
    pub fn length(&self) -> (r: i64)
        requires
            in_bounds(*self, COORD_LIMIT as int),
        ensures
            r == sqrt_floor(norm2(*self) as nat),
            0 <= r,
    {
        proof {
            assert(0 <= self.x * self.x <= 4_000_000_000_000_000_000) by (nonlinear_arith)
                requires -2_000_000_000 <= self.x <= 2_000_000_000;
            assert(0 <= self.y * self.y <= 4_000_000_000_000_000_000) by (nonlinear_arith)
                requires -2_000_000_000 <= self.y <= 2_000_000_000;
        }
        let xx = self.x * self.x;
        let yy = self.y * self.y;
        let n = (xx + yy) as u64;
        let r = isqrt(n);
        proof {
            lemma_sqrt_floor_bounds(n as nat);
            assert(r * r <= n < i64::MAX);
            assert(r <= i64::MAX) by (nonlinear_arith)
                requires r * r <= n < i64::MAX;
        }
        r as i64
    }

}

} // verus!
