//! Little-endian integers as sequences of bytes.

use vstd::prelude::*;

verus! {

/// `256` to the power `width`: the number of values that `width` bytes can spell.
pub open spec fn radix(width: nat) -> nat
    decreases width,
{
    if width == 0 {
        1
    } else {
        256 * radix((width - 1) as nat)
    }
}

/// The number that `bytes` spell in base 256, least significant digit first.
pub open spec fn le_value(bytes: Seq<u8>) -> nat
    decreases bytes.len(),
{
    if bytes.len() == 0 {
        0
    } else {
        bytes[0] as nat + 256 * le_value(bytes.skip(1))
    }
}

/// The `width` lowest base-256 digits of `value`, least significant first.
pub open spec fn le_bytes(value: nat, width: nat) -> Seq<u8>
    decreases width,
{
    if width == 0 {
        Seq::empty()
    } else {
        seq![(value % 256) as u8] + le_bytes(value / 256, (width - 1) as nat)
    }
}

/// A sequence of `n` bytes spells a number below `radix(n)`.
pub proof fn lemma_le_value_bound(bytes: Seq<u8>)
    ensures
        le_value(bytes) < radix(bytes.len()),
    decreases bytes.len(),
{
    if bytes.len() > 0 {
        lemma_le_value_bound(bytes.skip(1));
    }
}

/// `le_bytes` yields exactly `width` bytes.
pub proof fn lemma_le_bytes_len(value: nat, width: nat)
    ensures
        le_bytes(value, width).len() == width,
    decreases width,
{
    if width > 0 {
        lemma_le_bytes_len(value / 256, (width - 1) as nat);
    }
}

/// Decoding undoes encoding: the bytes of a value that fits in `width` bytes
/// spell that value again.
pub proof fn lemma_value_of_bytes(value: nat, width: nat)
    requires
        value < radix(width),
    ensures
        le_value(le_bytes(value, width)) == value,
    decreases width,
{
    if width > 0 {
        let rest = le_bytes(value / 256, (width - 1) as nat);
        lemma_value_of_bytes(value / 256, (width - 1) as nat);
        assert(le_bytes(value, width).skip(1) =~= rest);
    }
}

/// Reads at most eight bytes as a little-endian unsigned integer.
pub fn le_u64(bytes: &[u8]) -> (value: u64)
    requires
        bytes@.len() <= 8,
    ensures
        value == le_value(bytes@),
{
    let mut value: u64 = 0;
    let mut i: usize = bytes.len();
    proof {
        assert(bytes@.subrange(i as int, bytes@.len() as int) =~= Seq::<u8>::empty());
    }
    while i > 0
        invariant
            i <= bytes@.len() <= 8,
            value == le_value(bytes@.subrange(i as int, bytes@.len() as int)),
        decreases i,
    {
        i = i - 1;
        let ghost tail = bytes@.subrange(i as int, bytes@.len() as int);
        proof {
            assert(tail.skip(1) =~= bytes@.subrange(i + 1, bytes@.len() as int));
            lemma_le_value_bound(tail.skip(1));
            lemma_le_value_bound(tail);
            lemma_radix_grows(tail.len(), 8);
            assert(radix(8) == 0x1_0000_0000_0000_0000) by {
                reveal_with_fuel(radix, 9);
            }
        }
        value = value * 256 + bytes[i] as u64;
    }
    proof {
        assert(bytes@.subrange(0, bytes@.len() as int) =~= bytes@);
    }
    value
}

/// More bytes spell no fewer values.
pub proof fn lemma_radix_grows(narrow: nat, wide: nat)
    requires
        narrow <= wide,
    ensures
        radix(narrow) <= radix(wide),
        radix(narrow) > 0,
    decreases wide,
{
    if narrow < wide {
        lemma_radix_grows(narrow, (wide - 1) as nat);
    } else if narrow > 0 {
        lemma_radix_grows((narrow - 1) as nat, (narrow - 1) as nat);
    }
}

} // verus!
