//! Little-endian byte encoding of fixed-width numeric values.
//!
//! Numeric literals and storage offsets are written into the bytecode as
//! their raw byte pattern, least significant byte first.  The wire contract
//! is pinned down here once: [`le_bytes`] says which bytes stand for a value
//! at a given width, [`le_value`] reads them back, and
//! [`lemma_le_round_trip`] proves that a value representable at a width is
//! recovered exactly.

use vstd::arithmetic::power2::*;
use vstd::prelude::*;

verus! {

/// The `width` little-endian bytes of `value`; high bytes beyond the width
/// are dropped.
pub open spec fn le_bytes(value: nat, width: nat) -> Seq<u8>
    decreases width,
{
    if width == 0 {
        Seq::empty()
    } else {
        seq![(value % 256) as u8] + le_bytes(value / 256, (width - 1) as nat)
    }
}

/// The value read back from a little-endian byte sequence.
pub open spec fn le_value(bytes: Seq<u8>) -> nat
    decreases bytes.len(),
{
    if bytes.len() == 0 {
        0
    } else {
        (bytes[0] + 256 * le_value(bytes.skip(1))) as nat
    }
}

/// An encoding at width `width` consists of exactly `width` bytes.
pub proof fn lemma_le_bytes_len(value: nat, width: nat)
    ensures
        le_bytes(value, width).len() == width,
    decreases width,
{
    if width > 0 {
        lemma_le_bytes_len(value / 256, (width - 1) as nat);
    }
}

/// A decoded byte sequence is bounded by the base raised to its length.
pub proof fn lemma_le_value_bound(bytes: Seq<u8>)
    ensures
        le_value(bytes) < pow2(8 * bytes.len()),
    decreases bytes.len(),
{
    if bytes.len() == 0 {
        lemma2_to64();
    } else {
        lemma_le_value_bound(bytes.skip(1));
        lemma_pow2_adds(8, 8 * (bytes.len() - 1) as nat);
        lemma2_to64();
    }
}

/// Round trip: a value below `2^(8 * width)` is recovered exactly from its
/// `width` little-endian bytes.
pub proof fn lemma_le_round_trip(value: nat, width: nat)
    requires
        value < pow2(8 * width),
    ensures
        le_value(le_bytes(value, width)) == value,
    decreases width,
{
    if width == 0 {
        lemma2_to64();
    } else {
        let rest = le_bytes(value / 256, (width - 1) as nat);
        assert(le_bytes(value, width).skip(1) =~= rest);
        lemma_pow2_adds(8, 8 * (width - 1) as nat);
        lemma2_to64();
        lemma_le_round_trip(value / 256, (width - 1) as nat);
    }
}

/// Append the `width` little-endian bytes of `value` to `out`.
pub fn push_le_bytes(out: &mut Vec<u8>, value: u128, width: u8)
    ensures
        final(out)@ == old(out)@ + le_bytes(value as nat, width as nat),
    decreases width,
{
    if width == 0 {
        assert(out@ =~= out@ + le_bytes(value as nat, 0));
    } else {
        out.push((value % 256) as u8);
        push_le_bytes(out, value / 256, width - 1);
        assert(out@ =~= old(out)@ + le_bytes(value as nat, width as nat));
    }
}

/// Read a little-endian value back from at most 16 bytes.
pub fn read_le_bytes(bytes: &Vec<u8>) -> (value: u128)
    requires
        bytes@.len() <= 16,
    ensures
        value as nat == le_value(bytes@),
{
    let mut value: u128 = 0;
    let mut i = bytes.len();
    while i > 0
        invariant
            i <= bytes@.len() <= 16,
            value as nat == le_value(bytes@.skip(i as int)),
        decreases i,
    {
        i = i - 1;
        proof {
            assert(bytes@.skip(i as int)[0] == bytes@[i as int]);
            assert(bytes@.skip(i as int).skip(1) =~= bytes@.skip(i + 1));
            let tail_bits = (8 * (bytes@.len() - i - 1)) as nat;
            lemma_le_value_bound(bytes@.skip(i + 1));
            if tail_bits < 120 {
                lemma_pow2_strictly_increases(tail_bits, 120);
            }
            lemma_pow2_adds(120, 8);
            lemma_pow2_adds(64, 56);
            lemma_pow2_adds(64, 64);
            lemma2_to64();
        }
        value = value * 256 + bytes[i] as u128;
    }
    proof {
        assert(bytes@.skip(0) =~= bytes@);
    }
    value
}

} // verus!
