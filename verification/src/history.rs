//! Ring buffer of the player's recent velocities.
//!
//! One sample is written per tick; enemies read samples at a fixed offset
//! behind the write pointer, which makes them follow the player's past motion
//! with a per-enemy delay. The buffer starts pre-filled with zero velocity, so
//! reads during warm-up yield zero rather than an absence signal.

use vstd::prelude::*;

use crate::config::VEL_LIMIT;
use crate::vec2::Vec2;
use crate::vec2::in_bounds;

verus! {

/// Fixed-capacity circular buffer of velocity samples with a write pointer.
pub struct PlayerVelocityHistory {
    velocities: Vec<Vec2>,
    size: usize,
    pointer: usize,
}

/// Upper bound on the capacity; leaves room for index arithmetic in `usize`.
pub const HISTORY_CAP_LIMIT: usize = 0x1000_0000;

/// The buffer state reached from samples `s` and write position `p` by
/// writing the samples of `vs` in order: each write stores at the write
/// position and advances it by one, wrapping at the capacity.
pub open spec fn spec_after_writes(s: Seq<Vec2>, p: int, vs: Seq<Vec2>) -> (Seq<Vec2>, int)
    decreases vs.len(),
{
    if vs.len() == 0 {
        (s, p)
    } else {
        spec_after_writes(s.update(p, vs[0]), (p + 1) % (s.len() as int), vs.drop_first())
    }
}

impl PlayerVelocityHistory {
    /// Capacity fixed, pointer in range.
    pub closed spec fn wf(&self) -> bool {
        &&& self.size == self.velocities@.len()
        &&& 1 <= self.size <= HISTORY_CAP_LIMIT
        &&& self.pointer < self.size
        &&& forall|i: int|
            0 <= i < self.velocities@.len() ==> in_bounds(
                #[trigger] self.velocities@[i],
                VEL_LIMIT as int,
            )
    }

    /// The stored samples, indexed by slot.
    pub closed spec fn samples(&self) -> Seq<Vec2> {
        self.velocities@
    }

    /// The slot the next write will fill.
    pub closed spec fn write_pos(&self) -> int {
        self.pointer as int
    }

    /// The fixed number of slots.
    pub closed spec fn capacity(&self) -> int {
        self.size as int
    }

    /// A buffer of `size` zero-velocity samples with the write pointer at the
    /// first slot.
    pub fn new(size: usize) -> (r: Self)
        requires
            1 <= size <= HISTORY_CAP_LIMIT,
        ensures
            r.wf(),
            r.capacity() == size,
            r.write_pos() == 0,
            forall|i: int| 0 <= i < size ==> r.samples()[i] == (Vec2 { x: 0, y: 0 }),
    {
        let mut velocities: Vec<Vec2> = Vec::new();
        let mut i: usize = 0;
        while i < size
            invariant
                i <= size,
                velocities@.len() == i,
                forall|j: int| 0 <= j < i ==> velocities@[j] == (Vec2 { x: 0, y: 0 }),
            decreases size - i,
        {
            velocities.push(Vec2 { x: 0, y: 0 });
            i = i + 1;
        }
        PlayerVelocityHistory { velocities, size, pointer: 0 }
    }

    /// The sample `offset` slots past the write pointer, wrapping: the larger
    /// the offset, the more recent the sample, from the second-oldest at
    /// offset zero up to the newest at the largest offset.
    pub fn get(&self, offset: usize) -> (r: Vec2)
        requires
            self.wf(),
            offset < self.capacity(),
        ensures
            r == self.samples()[(self.write_pos() + 1 + offset) % self.capacity()],
            in_bounds(r, VEL_LIMIT as int),
    {
        let slot = (self.pointer + 1 + offset) % self.size;
        proof {
            vstd::arithmetic::div_mod::lemma_mod_division_less_than_divisor(
                (self.pointer + 1 + offset) as int,
                self.size as int,
            );
        }
        self.velocities[slot]
    }

    /// Stores `velocity` at the write pointer, then advances the pointer by
    /// one slot, wrapping at the capacity.
    pub fn set(&mut self, velocity: Vec2)
        requires
            old(self).wf(),
            in_bounds(velocity, VEL_LIMIT as int),
        ensures
            final(self).wf(),
            final(self).capacity() == old(self).capacity(),
            final(self).samples() == old(self).samples().update(old(self).write_pos(), velocity),
            final(self).write_pos() == (old(self).write_pos() + 1) % old(self).capacity(),
    {
        self.velocities.set(self.pointer, velocity);
        self.pointer = (self.pointer + 1) % self.size;
        proof {
            vstd::arithmetic::div_mod::lemma_mod_division_less_than_divisor(
                (old(self).pointer + 1) as int,
                self.size as int,
            );
        }
    }
}

/// After the writes of `vs` (at most one full revolution), the write position
/// has advanced by `vs.len()` slots, the slot `i` places past the start holds
/// the `i`-th write, and every slot past the written range is untouched.
proof fn lemma_after_writes(s: Seq<Vec2>, p: int, vs: Seq<Vec2>)
    requires
        1 <= s.len(),
        0 <= p < s.len(),
        vs.len() <= s.len(),
    ensures
        spec_after_writes(s, p, vs).0.len() == s.len(),
        spec_after_writes(s, p, vs).1 == (p + vs.len()) % (s.len() as int),
        forall|i: int|
            0 <= i < vs.len() ==> spec_after_writes(s, p, vs).0[(p + i) % (s.len() as int)]
                == vs[i],
        forall|j: int|
            0 <= j < s.len() && (forall|i: int|
                0 <= i < vs.len() ==> #[trigger] ((p + i) % (s.len() as int)) != j)
                ==> spec_after_writes(s, p, vs).0[j] == s[j],
    decreases vs.len(),
{
    let n = s.len() as int;
    if vs.len() == 0 {
        vstd::arithmetic::div_mod::lemma_small_mod(p as nat, s.len());
    } else {
        let s1 = s.update(p, vs[0]);
        let p1 = (p + 1) % n;
        vstd::arithmetic::div_mod::lemma_mod_division_less_than_divisor(p + 1, n);
        lemma_after_writes(s1, p1, vs.drop_first());
        let r = spec_after_writes(s1, p1, vs.drop_first());
        assert(spec_after_writes(s, p, vs) == r);

        // Pointer: (p1 + (len - 1)) % n == (p + len) % n.
        vstd::arithmetic::div_mod::lemma_add_mod_noop_right(vs.len() - 1, p + 1, n);
        assert((p1 + (vs.len() - 1)) % n == (p + vs.len()) % n);

        // Slot i: for i >= 1 the recursive call wrote vs[i] at (p1 + i - 1) % n,
        // which is the same slot as (p + i) % n.
        assert forall|i: int| 1 <= i < vs.len() implies r.0[(p + i) % n] == vs[i] by {
            vstd::arithmetic::div_mod::lemma_add_mod_noop_right(i - 1, p + 1, n);
            assert((p1 + (i - 1)) % n == (p + i) % n);
            assert(r.0[(p1 + (i - 1)) % n] == vs.drop_first()[i - 1]);
        }

        // Slot 0: the first write is never overwritten, because every later
        // write lands at (p + i) % n with 1 <= i < n, which differs from p.
        vstd::arithmetic::div_mod::lemma_small_mod(p as nat, s.len());
        assert forall|i: int| 0 <= i < vs.drop_first().len() implies #[trigger] ((p1 + i) % n)
            != p % n by {
            vstd::arithmetic::div_mod::lemma_add_mod_noop_right(i, p + 1, n);
            assert((p1 + i) % n == (p + (i + 1)) % n);
            if (p + (i + 1)) % n == p % n {
                vstd::arithmetic::div_mod::lemma_mod_division_less_than_divisor(p + (i + 1), n);
                vstd::arithmetic::div_mod::lemma_sub_mod_noop(p + (i + 1), p, n);
                vstd::arithmetic::div_mod::lemma_small_mod((i + 1) as nat, s.len());
                vstd::arithmetic::div_mod::lemma_small_mod(0nat, s.len());
                assert(((p + (i + 1)) % n - p % n) % n == 0);
                assert((i + 1) % n == (p + (i + 1) - p) % n);
                assert(i + 1 == 0);
            }
        }
        assert(r.0[p % n] == s1[p]);
        assert(r.0[(p + 0) % n] == vs[0]);

        // Untouched slots.
        assert forall|j: int|
            0 <= j < n && (forall|i: int| 0 <= i < vs.len() ==> #[trigger] ((p + i) % n) != j)
                implies r.0[j] == s[j] by {
            assert((p + 0) % n != j);
            assert(j != p);
            assert forall|i: int| 0 <= i < vs.drop_first().len() implies #[trigger] ((p1 + i) % n)
                != j by {
                vstd::arithmetic::div_mod::lemma_add_mod_noop_right(i, p + 1, n);
                assert((p1 + i) % n == (p + (i + 1)) % n);
            }
            assert(r.0[j] == s1[j]);
        }
    }
}

/// Ring-buffer law: starting anywhere, after exactly `N` writes (the
/// capacity) every slot has been replaced, the write position is back where
/// it started, and reading offset `o` yields the write at position
/// `(o + 1) % N` of that sequence — offset zero reads the write one past the
/// oldest, and the largest offset reads the newest.
pub proof fn lemma_ring_buffer_reads(s: Seq<Vec2>, p: int, vs: Seq<Vec2>, offset: int)
    requires
        1 <= s.len(),
        0 <= p < s.len(),
        vs.len() == s.len(),
        0 <= offset < s.len(),
    ensures
        spec_after_writes(s, p, vs).1 == p,
        spec_after_writes(s, p, vs).0[(spec_after_writes(s, p, vs).1 + 1 + offset) % (
        s.len() as int)] == vs[(offset + 1) % (s.len() as int)],
{
    let n = s.len() as int;
    lemma_after_writes(s, p, vs);
    vstd::arithmetic::div_mod::lemma_mod_multiples_vanish(1, p, n);
    assert((p + n) % n == p % n);
    vstd::arithmetic::div_mod::lemma_small_mod(p as nat, s.len());

    let i0 = (1 + offset) % n;
    vstd::arithmetic::div_mod::lemma_mod_division_less_than_divisor(1 + offset, n);
    vstd::arithmetic::div_mod::lemma_add_mod_noop_right(p, 1 + offset, n);
    assert((p + i0) % n == (p + 1 + offset) % n);
    assert(spec_after_writes(s, p, vs).0[(p + i0) % n] == vs[i0]);
}

} // verus!
