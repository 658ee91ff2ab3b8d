//! Byte-level vocabulary shared by all codecs: little-endian integers and the
//! "these bytes stand at this offset" relation that the round-trip laws are
//! phrased with.

use vstd::prelude::*;

verus! {

/// The result of a specification-level parser: the parsed value and the
/// offset just behind it, or the reason for refusing the input.
pub type Parsed<T> = Result<(T, int), crate::error::DecodeError>;

/// The natural number that `s` encodes in little-endian order.
pub open spec fn le_value(s: Seq<u8>) -> nat
    decreases s.len(),
{
    if s.len() == 0 {
        0
    } else {
        s[0] as nat + 256 * le_value(s.skip(1))
    }
}

/// The `width`-byte little-endian encoding of `n` (of `n` modulo `256^width`).
pub open spec fn le_bytes(n: nat, width: nat) -> Seq<u8>
    decreases width,
{
    if width == 0 {
        Seq::empty()
    } else {
        seq![(n % 256) as u8] + le_bytes(n / 256, (width - 1) as nat)
    }
}

/// `256^k`.
pub open spec fn pow256(k: nat) -> nat
    decreases k,
{
    if k == 0 {
        1
    } else {
        256 * pow256((k - 1) as nat)
    }
}

/// The signed 64-bit integer that eight bytes encode in two's complement,
/// little-endian.
pub open spec fn le_i64(s: Seq<u8>) -> int {
    if le_value(s) < 0x8000_0000_0000_0000 {
        le_value(s) as int
    } else {
        le_value(s) - 0x1_0000_0000_0000_0000
    }
}

/// The eight-byte two's complement little-endian encoding of `v`.
pub open spec fn i64_le_bytes(v: int) -> Seq<u8> {
    if v >= 0 {
        le_bytes(v as nat, 8)
    } else {
        le_bytes((v + 0x1_0000_0000_0000_0000) as nat, 8)
    }
}

/// `bytes` occupies `data` from offset `pos` on.
pub open spec fn has_at(data: Seq<u8>, pos: int, bytes: Seq<u8>) -> bool {
    &&& 0 <= pos
    &&& pos + bytes.len() <= data.len()
    &&& data.subrange(pos, pos + bytes.len()) == bytes
}

/// An encoding of the given width has that many bytes.
pub proof fn lemma_le_bytes_len(n: nat, width: nat)
    ensures
        le_bytes(n, width).len() == width,
    decreases width,
{
    if width > 0 {
        lemma_le_bytes_len(n / 256, (width - 1) as nat);
    }
}

/// Decoding an encoding gives the number back, if the width holds it.
pub proof fn lemma_le_value_of_le_bytes(n: nat, width: nat)
    requires
        n < pow256(width),
    ensures
        le_value(le_bytes(n, width)) == n,
    decreases width,
{
    if width > 0 {
        let rest = le_bytes(n / 256, (width - 1) as nat);
        let s = le_bytes(n, width);
        lemma_le_value_of_le_bytes(n / 256, (width - 1) as nat);
        assert(s.skip(1) =~= rest);
    }
}

/// A little-endian value is below `256^len`.
pub proof fn lemma_le_value_bound(s: Seq<u8>)
    ensures
        le_value(s) < pow256(s.len()),
    decreases s.len(),
{
    if s.len() > 0 {
        lemma_le_value_bound(s.skip(1));
    }
}

/// Encoding a decoded value gives the bytes back.
pub proof fn lemma_le_bytes_of_le_value(s: Seq<u8>)
    ensures
        le_bytes(le_value(s), s.len()) == s,
    decreases s.len(),
{
    if s.len() > 0 {
        lemma_le_bytes_of_le_value(s.skip(1));
    }
}

/// The powers of 256 that the widths of the wire format need.
pub proof fn lemma_pow256_values()
    ensures
        pow256(1) == 0x100,
        pow256(2) == 0x1_0000,
        pow256(4) == 0x1_0000_0000,
        pow256(8) == 0x1_0000_0000_0000_0000,
{
    reveal_with_fuel(pow256, 9);
}

/// The two's complement encoding of a 64-bit integer decodes to it.
pub proof fn lemma_le_i64_of_i64_le_bytes(v: int)
    requires
        -0x8000_0000_0000_0000 <= v < 0x8000_0000_0000_0000,
    ensures
        le_i64(i64_le_bytes(v)) == v,
        i64_le_bytes(v).len() == 8,
{
    lemma_pow256_values();
    if v >= 0 {
        lemma_le_value_of_le_bytes(v as nat, 8);
        lemma_le_bytes_len(v as nat, 8);
    } else {
        lemma_le_value_of_le_bytes((v + 0x1_0000_0000_0000_0000) as nat, 8);
        lemma_le_bytes_len((v + 0x1_0000_0000_0000_0000) as nat, 8);
    }
}

/// Two pieces stand one behind the other exactly when their concatenation
/// stands at the first one's offset.
pub proof fn lemma_has_at_concat(data: Seq<u8>, pos: int, a: Seq<u8>, b: Seq<u8>)
    ensures
        has_at(data, pos, a + b) <==> has_at(data, pos, a) && has_at(data, pos + a.len(), b),
{
    if has_at(data, pos, a + b) {
        let whole = data.subrange(pos, pos + (a + b).len());
        assert(data.subrange(pos, pos + a.len()) =~= whole.subrange(0, a.len() as int));
        assert(whole.subrange(0, a.len() as int) =~= a);
        assert(data.subrange(pos + a.len(), pos + a.len() + b.len()) =~= whole.subrange(
            a.len() as int,
            (a + b).len() as int,
        ));
        assert(whole.subrange(a.len() as int, (a + b).len() as int) =~= b);
    }
    if has_at(data, pos, a) && has_at(data, pos + a.len(), b) {
        assert(data.subrange(pos, pos + (a + b).len()) =~= data.subrange(pos, pos + a.len())
            + data.subrange(pos + a.len(), pos + a.len() + b.len()));
    }
}

/// Eight bytes are the two's complement encoding of the integer they
/// encode.
pub proof fn lemma_i64_le_bytes_of_le_i64(s: Seq<u8>)
    requires
        s.len() == 8,
    ensures
        i64_le_bytes(le_i64(s)) == s,
        -0x8000_0000_0000_0000 <= le_i64(s) < 0x8000_0000_0000_0000,
{
    lemma_pow256_values();
    lemma_le_value_bound(s);
    lemma_le_bytes_of_le_value(s);
}

} // verus!
