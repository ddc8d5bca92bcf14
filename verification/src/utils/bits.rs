use vstd::prelude::*;

verus! {

/// The low bits of a 64-bit counter are its remainders by 8 and by 16.
pub proof fn lemma_u64_low_bits(t: u64)
    by (bit_vector)
    ensures
        t & 7 == t % 8,
        t & 15 == t % 16,
{
}

/// The low bits of an index are its remainders by 2 and by 4.
pub proof fn lemma_usize_low_bits(a: usize)
    by (bit_vector)
    ensures
        a & 1 == a % 2,
        a & 3 == a % 4,
        a & 3 < 4,
{
}

/// The low bits of a byte are its remainders by 4 and by 8; a shift by two
/// divides it by 4.
pub proof fn lemma_u8_low_bits(a: u8)
    by (bit_vector)
    ensures
        a & 3 == a % 4,
        a & 7 == a % 8,
        a & 15 == a % 16,
        a >> 2 == a / 4,
{
}

/// The low bits of a signed 16-bit draw are its Euclidean remainders by 4 and 8.
pub proof fn lemma_i16_low_bits(d: i16)
    by (bit_vector)
    ensures
        (d & 7) as int == (d as int) % 8,
        (d & 3) as int == (d as int) % 4,
        ((d as usize) & 3) as int == (d as int) % 4,
        ((d as u16) & 7) as int == (d as int) % 8,
        ((d as u16) & 3) as int == (d as int) % 4,
        (d & 0x01FF) as int == (d as int) % 512,
        (d & 0x0FFF) as int == (d as int) % 4096,
        ((d as u64) & 31) as int == (d as int) % 32,
{
}

/// Masks, flags and small shifts on a 16-bit tile value.
pub proof fn lemma_u16_tile_bits(v: u16)
    by (bit_vector)
    ensures
        v & 0x03ff <= 0x03ff,
        (v & 0x03ff) & 0x03ff == v & 0x03ff,
        (v & 0xFC00) & 0x03ff == 0,
        v & 0x03 <= 3,
        v <= 0x03ff ==> v & 0x03ff == v,
        v <= 0x03ff ==> v & 0x0400 == 0,
        v <= 0x03ff ==> v & 0x3000 != 0x3000,
        v <= 0x03ff ==> v & 0x8000 != 0x8000,
        v <= 0x0F ==> v & 0x0F == v,
        v <= 0x7FFF ==> v << 1 == v * 2,
        v < 0x0800 ==> v | 0x0800 == v + 0x0800,
        v < 0x0800 ==> v | 0x1000 == v + 0x1000,
        v < 0x0800 ==> v | 0x3000 == v + 0x3000,
        v < 0x0800 ==> v | 0x7000 == v + 0x7000,
        0x3000 | v == v | 0x3000,
        v | 0x2000 | 0x4000 == v | 0x6000,
        v | 0x4000 | 0x2000 == v | 0x6000,
        v | 0x0400 | 0x8000 == v | 0x8400,
        v | 0x0800 | 0x4000 | 0x8000 | 0x2000 == v | 0xE800,
{
}

/// The type bits of a value made of the status bits of one value and of a
/// type value; clearing type bits through the status mask.
pub proof fn lemma_u16_type_bits_pair(a: u16, b: u16)
    by (bit_vector)
    ensures
        b <= 0x03ff ==> ((a & 0xFC00) | b) & 0x03ff == b,
        (a | 0xFC00) & (b & 0x03ff) == a & (b & 0x03ff),
        b <= 0x03ff ==> (b | (a & 0xFC00)) & 0xFC00 == a & 0xFC00,
        b <= 0x03ff ==> (b | (a & 0xFC00)) & 0x03ff == b,
        a & 0x0800 == 0 ==> a & 0x03ff | (a & 0xFC00) == a,
{
}

/// Combinations of tile flags.
pub proof fn lemma_flag_constants()
    by (bit_vector)
    ensures
        0x1000u16 | 0x2000u16 == 0x3000u16,
        0x2000u16 | 0x1000u16 == 0x3000u16,
        0x2000u16 | 0x4000u16 == 0x6000u16,
        37u16 | 0x3000u16 == 37 + 0x3000,
        844u16 | 0x4000u16 | 0x2000u16 | 0x1000u16 | 0x0800u16 == 844 + 0x7800,
        0x2000u16 | 0x1000u16 | (840u16 | 0x0800u16) == 840 + 0x3800,
        0u16 & 0x03ff == 0,
        0usize | 1usize == 1usize,
{
}

} // verus!
