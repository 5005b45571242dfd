//! Tests of the velocity-history ring buffer.

use echoed_footsteps::PlayerVelocityHistory;
use echoed_footsteps::Vec2;

fn v(x: i64, y: i64) -> Vec2 {
    Vec2 { x, y }
}

#[test]
fn ring_buffer_full_revolution_reads() {
    // After exactly N writes, reading offset o yields the write at position
    // (o + 1) mod N of the written sequence.
    let n: usize = 5;
    let mut h = PlayerVelocityHistory::new(n);
    let writes = [v(10, 0), v(20, 0), v(30, 0), v(40, 0), v(50, 0)];
    for w in writes.iter() {
        h.set(*w);
    }
    for offset in 0..n {
        assert_eq!(h.get(offset), writes[(offset + 1) % n]);
    }
}

#[test]
fn ring_buffer_prefill_is_zero() {
    let mut h = PlayerVelocityHistory::new(50);
    for i in 0..10 {
        h.set(v(1000 + i, 0));
    }
    // During warm-up, low offsets still read the pre-filled zeros.
    assert_eq!(h.get(0), v(0, 0));
    assert_eq!(h.get(20), v(0, 0));
    // The largest useful offset reads the most recent write.
    assert_eq!(h.get(48), v(1009, 0));
}

#[test]
fn ring_buffer_wraps_past_capacity() {
    let n: usize = 3;
    let mut h = PlayerVelocityHistory::new(n);
    for i in 0..7 {
        h.set(v(i, -i));
    }
    // Writes 4, 5, 6 are live; pointer is at slot 7 % 3 == 1.
    // get(offset) reads slot (1 + 1 + offset) % 3.
    // Slots hold: slot 0 -> v6 (write 7), slot 1 -> v4, slot 2 -> v5.
    assert_eq!(h.get(0), v(5, -5));
    assert_eq!(h.get(1), v(6, -6));
    assert_eq!(h.get(2), v(4, -4));
}
