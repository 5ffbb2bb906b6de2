//! Operations on 32-bit words: addition modulo 2^32, circular rotation, and
//! the big-endian correspondence between words and bytes.

use vstd::prelude::*;

verus! {

/// Addition modulo 2^32.
pub open spec fn add_mod32(x: u32, y: u32) -> u32 {
    ((x + y) % 0x1_0000_0000) as u32
}

/// Circular left rotation of a 32-bit word by `n` places, for `0 < n < 32`.
pub open spec fn rotl(x: u32, n: u32) -> u32 {
    (x << n) | (x >> ((32 - n) as u32))
}

/// The word whose big-endian bytes are `b0 b1 b2 b3`.
pub open spec fn word_of_bytes(b0: u8, b1: u8, b2: u8, b3: u8) -> u32 {
    (b0 * 0x100_0000 + b1 * 0x1_0000 + b2 * 0x100 + b3) as u32
}

/// Byte `j` (0 is the most significant) of the big-endian encoding of `w`.
pub open spec fn byte_of_word(w: u32, j: int) -> u8 {
    if j == 0 {
        (w / 0x100_0000) as u8
    } else if j == 1 {
        ((w / 0x1_0000) % 0x100) as u8
    } else if j == 2 {
        ((w / 0x100) % 0x100) as u8
    } else {
        (w % 0x100) as u8
    }
}

/// Adds two words, discarding the carry out of bit 31.
pub fn wrapping_sum(x: u32, y: u32) -> (r: u32)
    ensures
        r == add_mod32(x, y),
{
    x.wrapping_add(y)
}

/// Rotates `x` left by `n` places.
pub fn rotate_left(x: u32, n: u32) -> (r: u32)
    requires
        0 < n < 32,
    ensures
        r == rotl(x, n),
{
    (x << n) | (x >> (32 - n))
}

/// Assembles a word from four bytes, most significant first.
pub fn word_from_be(b0: u8, b1: u8, b2: u8, b3: u8) -> (w: u32)
    ensures
        w == word_of_bytes(b0, b1, b2, b3),
{
    let w: u32 = ((b0 as u32) << 24) | ((b1 as u32) << 16) | ((b2 as u32) << 8) | (b3 as u32);
    assert(w == (b0 * 0x100_0000 + b1 * 0x1_0000 + b2 * 0x100 + b3) as u32) by (bit_vector)
        requires
            w == ((b0 as u32) << 24) | ((b1 as u32) << 16) | ((b2 as u32) << 8) | (b3 as u32),
    ;
    w
}

} // verus!
