//! Byte-order models: what a run of bytes spells as a number, and the bytes
//! that spell a number, in fixed width and in minimal form.

use vstd::prelude::*;

verus! {

/// 256 to the power `n`.
pub open spec fn pow256(n: nat) -> nat
    decreases n,
{
    if n == 0 {
        1
    } else {
        256 * pow256((n - 1) as nat)
    }
}

/// The number that `bytes` spell, least significant byte first.
pub open spec fn le_value(bytes: Seq<u8>) -> nat
    decreases bytes.len(),
{
    if bytes.len() == 0 {
        0
    } else {
        bytes[0] as nat + 256 * le_value(bytes.skip(1))
    }
}

/// The number that `bytes` spell, most significant byte first.
pub open spec fn be_value(bytes: Seq<u8>) -> nat
    decreases bytes.len(),
{
    if bytes.len() == 0 {
        0
    } else {
        256 * be_value(bytes.drop_last()) + bytes.last() as nat
    }
}

/// The `width` low bytes of `value`, least significant first.
pub open spec fn le_bytes(value: nat, width: nat) -> Seq<u8>
    decreases width,
{
    if width == 0 {
        Seq::empty()
    } else {
        seq![(value % 256) as u8] + le_bytes(value / 256, (width - 1) as nat)
    }
}

/// The shortest run of bytes that spells `value`, least significant first.
/// Zero is spelled by a single zero byte, never by the empty run.
pub open spec fn minimal_le_bytes(value: nat) -> Seq<u8>
    decreases value,
{
    if value < 256 {
        seq![value as u8]
    } else {
        seq![(value % 256) as u8] + minimal_le_bytes(value / 256)
    }
}

/// `pow256` at the widths the wire format uses.
pub proof fn lemma_pow256_values()
    ensures
        pow256(0) == 1,
        pow256(1) == 0x100,
        pow256(2) == 0x1_0000,
        pow256(3) == 0x100_0000,
        pow256(4) == 0x1_0000_0000,
        pow256(8) == 0x1_0000_0000_0000_0000,
{
    reveal_with_fuel(pow256, 9);
}

/// A fixed-width encoding has exactly the width asked for.
pub proof fn lemma_le_bytes_len(value: nat, width: nat)
    ensures
        le_bytes(value, width).len() == width,
    decreases width,
{
    if width > 0 {
        lemma_le_bytes_len(value / 256, (width - 1) as nat);
    }
}

/// Reading a fixed-width encoding back gives the number, as long as the
/// number fits the width.
pub proof fn lemma_le_value_of_le_bytes(value: nat, width: nat)
    requires
        value < pow256(width),
    ensures
        le_value(le_bytes(value, width)) == value,
    decreases width,
{
    if width > 0 {
        let rest = le_bytes(value / 256, (width - 1) as nat);
        let all = le_bytes(value, width);
        lemma_le_value_of_le_bytes(value / 256, (width - 1) as nat);
        assert(all.skip(1) =~= rest);
        assert(all[0] == (value % 256) as u8);
    }
}

/// What the minimal encoding is: at least one byte and at most as many as the
/// number needs, no zero byte on the most significant side unless the number
/// is zero, and the number itself when read back.
pub proof fn lemma_minimal_le_bytes(value: nat)
    ensures
        minimal_le_bytes(value).len() >= 1,
        le_value(minimal_le_bytes(value)) == value,
        value != 0 ==> minimal_le_bytes(value).last() != 0,
        value == 0 ==> minimal_le_bytes(value) == seq![0u8],
    decreases value,
{
    let all = minimal_le_bytes(value);
    if value < 256 {
        assert(all.skip(1) =~= Seq::<u8>::empty());
        assert(le_value(all.skip(1)) == 0);
    } else {
        let rest = minimal_le_bytes(value / 256);
        lemma_minimal_le_bytes(value / 256);
        assert(all.skip(1) =~= rest);
        assert(all[0] == (value % 256) as u8);
        assert(all.last() == rest.last());
    }
}

/// A number below `256^width` needs at most `width` bytes.
pub proof fn lemma_minimal_le_bytes_len(value: nat, width: nat)
    requires
        width >= 1,
        value < pow256(width),
    ensures
        minimal_le_bytes(value).len() <= width,
    decreases width,
{
    if value >= 256 {
        assert(width >= 2) by {
            reveal_with_fuel(pow256, 2);
        }
        lemma_minimal_le_bytes_len(value / 256, (width - 1) as nat);
    }
}

/// The minimal encoding is the only run of bytes that spells the number
/// without a zero byte on the most significant side (a lone zero byte, for
/// zero, aside).
pub proof fn lemma_minimal_le_bytes_unique(bytes: Seq<u8>)
    requires
        bytes.len() >= 1,
        bytes.len() == 1 || bytes.last() != 0,
    ensures
        minimal_le_bytes(le_value(bytes)) == bytes,
    decreases bytes.len(),
{
    let rest = bytes.skip(1);
    if bytes.len() == 1 {
        assert(rest =~= Seq::<u8>::empty());
        assert(le_value(rest) == 0);
        assert(bytes =~= seq![bytes[0]]);
    } else {
        assert(rest.last() == bytes.last());
        lemma_minimal_le_bytes_unique(rest);
        lemma_le_value_positive(rest);
        assert(le_value(bytes) == bytes[0] as nat + 256 * le_value(rest));
        assert(le_value(bytes) / 256 == le_value(rest));
        assert(le_value(bytes) % 256 == bytes[0] as nat);
        assert(bytes =~= seq![bytes[0]] + rest);
    }
}

/// A run of bytes whose most significant byte is not zero spells a number
/// that is not zero.
pub proof fn lemma_le_value_positive(bytes: Seq<u8>)
    requires
        bytes.len() >= 1,
        bytes.last() != 0,
    ensures
        le_value(bytes) >= 1,
    decreases bytes.len(),
{
    if bytes.len() > 1 {
        assert(bytes.skip(1).last() == bytes.last());
        lemma_le_value_positive(bytes.skip(1));
    } else {
        assert(bytes.last() == bytes[0]);
    }
}

} // verus!
