//! Readers for the integers and byte groups of a wire format, most significant byte first.
use vstd::prelude::*;

verus! {

/// The 16-bit number whose big-endian image is `hi, lo`.
pub open spec fn be16(hi: u8, lo: u8) -> u16 {
    (hi as int * 0x100 + lo as int) as u16
}

/// The 32-bit number whose big-endian image is `b3, b2, b1, b0`.
pub open spec fn be32(b3: u8, b2: u8, b1: u8, b0: u8) -> u32 {
    (b3 as int * 0x100_0000 + b2 as int * 0x1_0000 + b1 as int * 0x100 + b0 as int) as u32
}

/// The big-endian 16-bit number at position `at` of `b`.
pub open spec fn be16_at(b: Seq<u8>, at: int) -> u16 {
    be16(b[at], b[at + 1])
}

/// The big-endian 32-bit number at position `at` of `b`.
pub open spec fn be32_at(b: Seq<u8>, at: int) -> u32 {
    be32(b[at], b[at + 1], b[at + 2], b[at + 3])
}

/// The big-endian image of a 16-bit number: two bytes, the more significant first.
pub open spec fn be16_bytes(x: u16) -> Seq<u8> {
    seq![(x as int / 0x100) as u8, (x as int % 0x100) as u8]
}

/// The big-endian image of a 32-bit number: four bytes, the most significant first.
pub open spec fn be32_bytes(x: u32) -> Seq<u8> {
    seq![
        (x as int / 0x100_0000) as u8,
        (x as int / 0x1_0000 % 0x100) as u8,
        (x as int / 0x100 % 0x100) as u8,
        (x as int % 0x100) as u8,
    ]
}

/// Reading the image of a 16-bit number gives the number back.
pub proof fn lemma_be16_of_bytes(x: u16)
    ensures
        be16_bytes(x).len() == 2,
        be16_at(be16_bytes(x), 0) == x,
{
}

/// The image of the number that two bytes spell is those two bytes.
pub proof fn lemma_be16_to_bytes(hi: u8, lo: u8)
    ensures
        be16_bytes(be16(hi, lo)) == seq![hi, lo],
{
}

/// Reading the image of a 32-bit number gives the number back.
pub proof fn lemma_be32_of_bytes(x: u32)
    ensures
        be32_bytes(x).len() == 4,
        be32_at(be32_bytes(x), 0) == x,
{
    assert(x == (x / 0x100_0000) * 0x100_0000 + (x / 0x1_0000 % 0x100) * 0x1_0000 + (x / 0x100
        % 0x100) * 0x100 + x % 0x100) by (bit_vector);
}

/// The image of the number that four bytes spell is those four bytes.
pub proof fn lemma_be32_to_bytes(b3: u8, b2: u8, b1: u8, b0: u8)
    ensures
        be32_bytes(be32(b3, b2, b1, b0)) == seq![b3, b2, b1, b0],
{
    let y: u32 = be32(b3, b2, b1, b0);
    assert(y / 0x100_0000 == b3 && y / 0x1_0000 % 0x100 == b2 && y / 0x100 % 0x100 == b1 && y
        % 0x100 == b0) by (bit_vector)
        requires
            y == b3 * 0x100_0000 + b2 * 0x1_0000 + b1 * 0x100 + b0,
    ;
}

/// The upper four bits of a byte, as a number below 16.
pub open spec fn high_nibble(b: u8) -> u8 {
    (b as int / 16) as u8
}

/// The lower four bits of a byte, as a number below 16.
pub open spec fn low_nibble(b: u8) -> u8 {
    (b as int % 16) as u8
}

/// Reads the upper four bits of a byte.
pub fn read_high_nibble(b: u8) -> (r: u8)
    ensures
        r == high_nibble(b),
        r < 16,
{
    assert(b >> 4 == b / 16) by (bit_vector);
    b >> 4
}

/// Reads the lower four bits of a byte.
pub fn read_low_nibble(b: u8) -> (r: u8)
    ensures
        r == low_nibble(b),
        r < 16,
{
    assert(b & 0x0f == b % 16) by (bit_vector);
    b & 0x0f
}

/// Reads a big-endian 16-bit number from `b[at]` and `b[at + 1]`.
pub fn read_be16(b: &[u8], at: usize) -> (r: u16)
    requires
        at + 2 <= b.len(),
    ensures
        r == be16_at(b@, at as int),
{
    let hi: u16 = b[at] as u16;
    let lo: u16 = b[at + 1] as u16;
    hi * 0x100 + lo
}

/// Reads a big-endian 32-bit number from the four bytes that start at `b[at]`.
pub fn read_be32(b: &[u8], at: usize) -> (r: u32)
    requires
        at + 4 <= b.len(),
    ensures
        r == be32_at(b@, at as int),
{
    let b3: u32 = b[at] as u32;
    let b2: u32 = b[at + 1] as u32;
    let b1: u32 = b[at + 2] as u32;
    let b0: u32 = b[at + 3] as u32;
    b3 * 0x100_0000 + b2 * 0x1_0000 + b1 * 0x100 + b0
}

} // verus!
