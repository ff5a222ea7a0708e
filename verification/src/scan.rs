//! Assembling the key bitmask from raw matrix-scan readings.
//!
//! A scan drives the three strobe lines through all eight binary-encoded
//! combinations; at each combination the eight sense lines are sampled
//! once (a closed switch pulls its line low). The per-combination sample
//! is packed into a byte first-line-first into the most significant bit,
//! and the eight bytes are packed into the 64-bit mask first-combination-
//! first into the most significant byte. The hardware reads and writes
//! themselves happen outside this crate; these functions take and return
//! plain values.

use vstd::prelude::*;

verus! {

/// The number of strobe (write) lines.
pub const STROBE_LINES: usize = 3;

/// The number of sense (read) lines.
pub const SENSE_LINES: usize = 8;

/// The number of strobe combinations of one full scan.
pub const SCAN_STEPS: usize = 8;

/// `2^n`.
pub open spec fn pow2(n: nat) -> nat
    decreases n,
{
    if n == 0 {
        1
    } else {
        2 * pow2((n - 1) as nat)
    }
}

proof fn lemma_pow2_le(a: nat, b: nat)
    requires
        a <= b,
    ensures
        pow2(a) <= pow2(b),
    decreases b,
{
    if a < b {
        lemma_pow2_le(a, (b - 1) as nat);
    }
}

/// The value of a bit string read most-significant-first: each step shifts
/// the accumulated value left by one and appends the next bit.
pub open spec fn pack_bools(s: Seq<bool>) -> nat
    decreases s.len(),
{
    if s.len() == 0 {
        0
    } else {
        2 * pack_bools(s.drop_last()) + (if s.last() {
            1nat
        } else {
            0nat
        })
    }
}

proof fn lemma_pack_bools_bound(s: Seq<bool>)
    ensures
        pack_bools(s) < pow2(s.len()),
    decreases s.len(),
{
    if s.len() > 0 {
        lemma_pack_bools_bound(s.drop_last());
    }
}

/// The value of a byte string read most-significant-first: each step
/// shifts the accumulated value left by eight and appends the next byte.
pub open spec fn pack_bytes(s: Seq<u8>) -> nat
    decreases s.len(),
{
    if s.len() == 0 {
        0
    } else {
        256 * pack_bytes(s.drop_last()) + s.last() as nat
    }
}

proof fn lemma_pack_bytes_bound(s: Seq<u8>)
    ensures
        pack_bytes(s) < pow2(8 * s.len()),
    decreases s.len(),
{
    if s.len() > 0 {
        lemma_pack_bytes_bound(s.drop_last());
        assert(pow2(8 * s.len()) == 256 * pow2((8 * (s.len() - 1)) as nat)) by {
            lemma_pow2_unfold8((8 * s.len()) as nat);
        }
    }
}

proof fn lemma_pow2_unfold8(n: nat)
    requires
        n >= 8,
    ensures
        pow2(n) == 256 * pow2((n - 8) as nat),
{
    reveal_with_fuel(pow2, 9);
}

/// Packs one sample of the sense lines into a byte. `levels[j]` is whether
/// sense line `j` reads as pressed (electrically low under pull-up
/// wiring); line 0 ends up in the most significant bit.
pub fn pack_sense_levels(levels: &Vec<bool>) -> (r: u8)
    requires
        levels@.len() == SENSE_LINES,
    ensures
        r as nat == pack_bools(levels@),
{
    let mut acc: u8 = 0;
    let mut i: usize = 0;
    while i < SENSE_LINES
        invariant
            i <= SENSE_LINES,
            levels@.len() == SENSE_LINES,
            acc as nat == pack_bools(levels@.take(i as int)),
        decreases SENSE_LINES - i,
    {
        proof {
            lemma_pack_bools_bound(levels@.take(i as int));
            lemma_pow2_le(i as nat, 7);
            assert(pow2(7) == 128) by {
                reveal_with_fuel(pow2, 8);
            }
            assert(levels@.take(i + 1).drop_last() == levels@.take(i as int));
        }
        let bit: u8 = if levels[i] {
            1
        } else {
            0
        };
        acc = acc * 2 + bit;
        i = i + 1;
    }
    proof {
        assert(levels@.take(SENSE_LINES as int) == levels@);
    }
    acc
}

/// Packs the eight per-combination sense bytes into the 64-bit key
/// bitmask; the reading of combination 0 ends up in the most significant
/// byte.
pub fn assemble_bitmask(readings: &Vec<u8>) -> (r: u64)
    requires
        readings@.len() == SCAN_STEPS,
    ensures
        r as nat == pack_bytes(readings@),
{
    let mut acc: u64 = 0;
    let mut i: usize = 0;
    while i < SCAN_STEPS
        invariant
            i <= SCAN_STEPS,
            readings@.len() == SCAN_STEPS,
            acc as nat == pack_bytes(readings@.take(i as int)),
        decreases SCAN_STEPS - i,
    {
        proof {
            lemma_pack_bytes_bound(readings@.take(i as int));
            lemma_pow2_le((8 * i) as nat, 56);
            assert(pow2(56) == 0x100000000000000) by {
                reveal_with_fuel(pow2, 57);
            }
            assert(readings@.take(i + 1).drop_last() == readings@.take(i as int));
        }
        acc = acc * 256 + (readings[i] as u64);
        i = i + 1;
    }
    proof {
        assert(readings@.take(SCAN_STEPS as int) == readings@);
    }
    acc
}

/// The strobe levels that select scan combination `combo`: strobe line `b`
/// is driven high exactly when bit `b` of the combination's binary
/// encoding is set.
pub fn strobe_pattern(combo: u8) -> (r: Vec<bool>)
    requires
        combo < SCAN_STEPS as u8,
    ensures
        r@.len() == STROBE_LINES,
        forall|b: u64| b < STROBE_LINES as u64 ==> r@[b as int] == ((combo as u64 >> b) & 1u64
            == 1u64),
{
    let c = combo as u64;
    let mut r: Vec<bool> = Vec::new();
    r.push((c >> 0u64) & 1 == 1);
    r.push((c >> 1u64) & 1 == 1);
    r.push((c >> 2u64) & 1 == 1);
    proof {
        assert forall|b: u64| b < STROBE_LINES as u64 implies r@[b as int] == ((combo as u64 >> b)
            & 1u64 == 1u64) by {
            assert(b == 0 || b == 1 || b == 2);
        }
    }
    r
}

} // verus!
