//! Edge detection between two successive key-bitmask snapshots.
//!
//! A key bitmask is a `u64` in which bit `i` records whether switch `i` is
//! currently closed. Comparing the previous snapshot with the current one
//! yields one event per changed bit, in increasing bit-index order; the
//! event carries the bit index and whether the switch is now closed
//! (a press) or open (a release).

use vstd::prelude::*;

verus! {

/// Whether bit `i` of `x` is set. Only meaningful for `i < 64`.
pub open spec fn bit64(x: u64, i: u64) -> bool {
    (x >> i) & 1u64 == 1u64
}

/// The edge events produced by bits `0 .. n` when the bitmask changes from
/// `prev` to `cur`: one `(bit_index, is_pressed)` pair per differing bit,
/// in increasing bit-index order.
pub open spec fn diff_upto(prev: u64, cur: u64, n: nat) -> Seq<(u8, bool)>
    decreases n,
{
    if n == 0 {
        Seq::empty()
    } else {
        let m = (n - 1) as nat;
        let rest = diff_upto(prev, cur, m);
        if bit64(prev, m as u64) != bit64(cur, m as u64) {
            rest.push((m as u8, bit64(cur, m as u64)))
        } else {
            rest
        }
    }
}

/// All edge events between two bitmask snapshots, over the full 64-bit width.
pub open spec fn diff_events(prev: u64, cur: u64) -> Seq<(u8, bool)> {
    diff_upto(prev, cur, 64)
}

/// Compares two successive bitmask snapshots and returns the edge events:
/// for each bit that differs, in increasing bit-index order, the bit index
/// together with that bit's value in `cur` (`true` = now pressed).
pub fn diff(prev: u64, cur: u64) -> (events: Vec<(u8, bool)>)
    ensures
        events@ == diff_events(prev, cur),
{
    let mut events: Vec<(u8, bool)> = Vec::new();
    let mut i: u64 = 0;
    while i < 64
        invariant
            i <= 64,
            events@ == diff_upto(prev, cur, i as nat),
        decreases 64 - i,
    {
        let pb = (prev >> i) & 1;
        let cb = (cur >> i) & 1;
        proof {
            assert((prev >> i) & 1u64 == 0 || (prev >> i) & 1u64 == 1) by (bit_vector);
            assert((cur >> i) & 1u64 == 0 || (cur >> i) & 1u64 == 1) by (bit_vector);
        }
        if pb != cb {
            events.push((i as u8, cb == 1));
        }
        i = i + 1;
    }
    events
}

/// A bitmask differs from itself nowhere, so diffing a snapshot against
/// itself yields no events.
pub proof fn lemma_diff_self_empty(x: u64)
    ensures
        diff_events(x, x) == Seq::<(u8, bool)>::empty(),
{
    lemma_diff_upto_self(x, 64);
}

proof fn lemma_diff_upto_self(x: u64, n: nat)
    ensures
        diff_upto(x, x, n) == Seq::<(u8, bool)>::empty(),
    decreases n,
{
    if n > 0 {
        lemma_diff_upto_self(x, (n - 1) as nat);
    }
}

} // verus!
