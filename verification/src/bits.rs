//! Bit-level vocabulary shared by the layer bitmaps.
//!
//! A bitmap is a byte sequence in which flag `i` is bit `i % 8` of byte
//! `i / 8`, least significant bit first.

use vstd::prelude::*;

verus! {

/// Bit `index` of `byte`, counted from the least significant one.
pub open spec fn bit(byte: u8, index: u8) -> bool {
    byte & (1u8 << index) != 0
}

/// Flag `i` of a bitmap.
pub open spec fn bitmap_bit(bytes: Seq<u8>, i: int) -> bool {
    bit(bytes[i / 8], (i % 8) as u8)
}

/// `weight` where flag `i` exists and is set, and zero otherwise.
pub open spec fn weighted_flag(flags: Seq<bool>, i: int, weight: u8) -> u8 {
    if 0 <= i < flags.len() && flags[i] {
        weight
    } else {
        0
    }
}

/// Byte `k` of the bitmap of `flags`. Positions past the last flag are zero.
pub open spec fn packed_byte(flags: Seq<bool>, k: int) -> u8 {
    weighted_flag(flags, 8 * k, 0x01) | weighted_flag(flags, 8 * k + 1, 0x02) | weighted_flag(
        flags,
        8 * k + 2,
        0x04,
    ) | weighted_flag(flags, 8 * k + 3, 0x08) | weighted_flag(flags, 8 * k + 4, 0x10)
        | weighted_flag(flags, 8 * k + 5, 0x20) | weighted_flag(flags, 8 * k + 6, 0x40)
        | weighted_flag(flags, 8 * k + 7, 0x80)
}

/// The first `len` bytes of the bitmap of `flags`.
pub open spec fn packed(flags: Seq<bool>, len: nat) -> Seq<u8> {
    Seq::new(len, |k: int| packed_byte(flags, k))
}

/// Two bytes with the same eight bits are the same byte.
pub proof fn lemma_byte_is_its_bits(a: u8, b: u8)
    requires
        forall|j: u8| j < 8 ==> #[trigger] bit(a, j) == bit(b, j),
    ensures
        a == b,
{
    assert(bit(a, 0) == bit(b, 0) && bit(a, 1) == bit(b, 1) && bit(a, 2) == bit(b, 2) && bit(a, 3)
        == bit(b, 3) && bit(a, 4) == bit(b, 4) && bit(a, 5) == bit(b, 5) && bit(a, 6) == bit(b, 6)
        && bit(a, 7) == bit(b, 7));
    assert(a == b) by (bit_vector)
        requires
            (a & (1u8 << 0u8) != 0) == (b & (1u8 << 0u8) != 0),
            (a & (1u8 << 1u8) != 0) == (b & (1u8 << 1u8) != 0),
            (a & (1u8 << 2u8) != 0) == (b & (1u8 << 2u8) != 0),
            (a & (1u8 << 3u8) != 0) == (b & (1u8 << 3u8) != 0),
            (a & (1u8 << 4u8) != 0) == (b & (1u8 << 4u8) != 0),
            (a & (1u8 << 5u8) != 0) == (b & (1u8 << 5u8) != 0),
            (a & (1u8 << 6u8) != 0) == (b & (1u8 << 6u8) != 0),
            (a & (1u8 << 7u8) != 0) == (b & (1u8 << 7u8) != 0),
    ;
}

/// Setting one bit of a byte sets that bit and keeps the others.
pub proof fn lemma_set_bit(byte: u8, index: u8, other: u8)
    requires
        index < 8,
        other < 8,
    ensures
        bit(byte | (1u8 << index), other) == (bit(byte, other) || other == index),
{
    assert((byte | (1u8 << index)) & (1u8 << other) != 0 <==> (byte & (1u8 << other) != 0 || other
        == index)) by (bit_vector)
        requires
            index < 8,
            other < 8,
    ;
}

/// A bitmap of zero bytes has no flag set.
pub proof fn lemma_zero_bitmap(bytes: Seq<u8>)
    requires
        forall|k: int| 0 <= k < bytes.len() ==> bytes[k] == 0,
    ensures
        forall|i: int| 0 <= i < 8 * bytes.len() ==> !#[trigger] bitmap_bit(bytes, i),
{
    assert forall|i: int| 0 <= i < 8 * bytes.len() implies !#[trigger] bitmap_bit(bytes, i) by {
        let index = (i % 8) as u8;
        assert(bytes[i / 8] == 0);
        assert(0u8 & (1u8 << index) == 0) by (bit_vector);
    }
}

/// Flag `i` of a packed bitmap is flag `i` of the sequence it was packed from.
pub proof fn lemma_packed_bit(flags: Seq<bool>, len: nat, i: int)
    requires
        0 <= i < 8 * len,
    ensures
        bitmap_bit(packed(flags, len), i) == (i < flags.len() && flags[i]),
{
    let k = i / 8;
    let j = (i % 8) as u8;
    let f0 = weighted_flag(flags, 8 * k, 0x01);
    let f1 = weighted_flag(flags, 8 * k + 1, 0x02);
    let f2 = weighted_flag(flags, 8 * k + 2, 0x04);
    let f3 = weighted_flag(flags, 8 * k + 3, 0x08);
    let f4 = weighted_flag(flags, 8 * k + 4, 0x10);
    let f5 = weighted_flag(flags, 8 * k + 5, 0x20);
    let f6 = weighted_flag(flags, 8 * k + 6, 0x40);
    let f7 = weighted_flag(flags, 8 * k + 7, 0x80);
    let byte = f0 | f1 | f2 | f3 | f4 | f5 | f6 | f7;
    assert(packed(flags, len)[k] == byte);
    assert((byte & (1u8 << j) != 0) == (if j == 0 {
        f0 != 0
    } else if j == 1 {
        f1 != 0
    } else if j == 2 {
        f2 != 0
    } else if j == 3 {
        f3 != 0
    } else if j == 4 {
        f4 != 0
    } else if j == 5 {
        f5 != 0
    } else if j == 6 {
        f6 != 0
    } else {
        f7 != 0
    })) by (bit_vector)
        requires
            byte == f0 | f1 | f2 | f3 | f4 | f5 | f6 | f7,
            j < 8,
            f0 == 0 || f0 == 0x01,
            f1 == 0 || f1 == 0x02,
            f2 == 0 || f2 == 0x04,
            f3 == 0 || f3 == 0x08,
            f4 == 0 || f4 == 0x10,
            f5 == 0 || f5 == 0x20,
            f6 == 0 || f6 == 0x40,
            f7 == 0 || f7 == 0x80,
    ;
    assert(8 * k + j == i);
}

/// Two bitmaps of one length with the same flags are the same bytes.
pub proof fn lemma_bitmap_is_its_bits(a: Seq<u8>, b: Seq<u8>)
    requires
        a.len() == b.len(),
        forall|i: int| 0 <= i < 8 * a.len() ==> #[trigger] bitmap_bit(a, i) == bitmap_bit(b, i),
    ensures
        a == b,
{
    assert forall|k: int| 0 <= k < a.len() implies a[k] == b[k] by {
        assert forall|j: u8| j < 8 implies #[trigger] bit(a[k], j) == bit(b[k], j) by {
            let i = 8 * k + j;
            assert(i / 8 == k && i % 8 == j);
            assert(bitmap_bit(a, i) == bitmap_bit(b, i));
        }
        lemma_byte_is_its_bits(a[k], b[k]);
    }
    assert(a =~= b);
}

/// Whether two byte arrays hold the same bytes.
pub(crate) fn same_bytes<const N: usize>(a: &[u8; N], b: &[u8; N]) -> (same: bool)
    ensures
        same == (a@ == b@),
{
    let mut k: usize = 0;
    while k < N
        invariant
            k <= N,
            forall|j: int| 0 <= j < k ==> a@[j] == b@[j],
        decreases N - k,
    {
        if a[k] != b[k] {
            assert(a@[k as int] != b@[k as int]);
            return false;
        }
        k = k + 1;
    }
    assert(a@ =~= b@);
    true
}

} // verus!
