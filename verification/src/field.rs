//! Field encoders: integers to byte groups of fixed width, most significant
//! byte first.

use vstd::prelude::*;

verus! {

/// The four bytes of `x`, most significant first.
pub open spec fn be32(x: u32) -> Seq<u8> {
    seq![
        (x / 0x100_0000) as u8,
        (x / 0x1_0000 % 0x100) as u8,
        (x / 0x100 % 0x100) as u8,
        (x % 0x100) as u8,
    ]
}

/// The two bytes of the low 16 bits of `x`, most significant first. Bits 16
/// and above do not reach the result.
pub open spec fn be16(x: u32) -> Seq<u8> {
    seq![(x / 0x100 % 0x100) as u8, (x % 0x100) as u8]
}

/// The number that `bytes` spell when read most significant byte first.
pub open spec fn be_value(bytes: Seq<u8>) -> nat
    decreases bytes.len(),
{
    if bytes.len() == 0 {
        0
    } else {
        be_value(bytes.drop_last()) * 256 + bytes.last() as nat
    }
}

/// The four bytes of a value spell that value.
pub proof fn lemma_be32_spells_value(x: u32)
    ensures
        be_value(be32(x)) == x,
{
    let b = be32(x);
    let b3 = b.drop_last();
    let b2 = b3.drop_last();
    let b1 = b2.drop_last();
    assert(be_value(b1.drop_last()) == 0);
    assert(be_value(b1) == b[0]);
    assert(be_value(b2) == b[0] * 256 + b[1]);
    assert(be_value(b3) == (b[0] * 256 + b[1]) * 256 + b[2]);
}

/// The two bytes of a value spell its low 16 bits.
pub proof fn lemma_be16_spells_low_bits(x: u32)
    ensures
        be_value(be16(x)) == x % 0x1_0000,
{
    let b = be16(x);
    let b1 = b.drop_last();
    assert(be_value(b1.drop_last()) == 0);
    assert(be_value(b1) == b[0]);
}

/// No two values have the same four bytes.
pub proof fn lemma_be32_unique(x: u32, y: u32)
    requires
        be32(x) == be32(y),
    ensures
        x == y,
{
    lemma_be32_spells_value(x);
    lemma_be32_spells_value(y);
}

/// Two values have the same two bytes exactly when their low 16 bits agree:
/// the bits above take no part in the encoding.
pub proof fn lemma_be16_keeps_low_bits_only(x: u32, y: u32)
    ensures
        be16(x) == be16(y) <==> x % 0x1_0000 == y % 0x1_0000,
{
    lemma_be16_spells_low_bits(x);
    lemma_be16_spells_low_bits(y);
    if x % 0x1_0000 == y % 0x1_0000 {
        assert(be16(x) =~= be16(y));
    }
}

/// Encodes `x` as four bytes, most significant first.
pub fn u32_to_byte_array(x: u32) -> (bytes: [u8; 4])
    ensures
        bytes@ == be32(x),
{
    let b1: u8 = ((x >> 24) & 0xff) as u8;
    let b2: u8 = ((x >> 16) & 0xff) as u8;
    let b3: u8 = ((x >> 8) & 0xff) as u8;
    let b4: u8 = (x & 0xff) as u8;
    proof {
        assert((x >> 24) & 0xff == x / 0x100_0000) by (bit_vector);
        assert((x >> 16) & 0xff == x / 0x1_0000 % 0x100) by (bit_vector);
        assert((x >> 8) & 0xff == x / 0x100 % 0x100) by (bit_vector);
        assert(x & 0xff == x % 0x100) by (bit_vector);
    }
    [b1, b2, b3, b4]
}

/// Encodes the low 16 bits of `x` as two bytes, most significant first.
/// A wider value is cut to its low 16 bits; that is no error.
pub fn u16_to_byte_array(x: u32) -> (bytes: [u8; 2])
    ensures
        bytes@ == be16(x),
{
    let b1: u8 = ((x >> 8) & 0xff) as u8;
    let b2: u8 = (x & 0xff) as u8;
    proof {
        assert((x >> 8) & 0xff == x / 0x100 % 0x100) by (bit_vector);
        assert(x & 0xff == x % 0x100) by (bit_vector);
    }
    [b1, b2]
}

} // verus!
