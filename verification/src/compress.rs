//! The compression transform: eighty rounds that fold one 64-byte block into
//! the five-word chaining state.

use crate::word::{add_mod32, rotate_left, rotl, word_from_be, word_of_bytes, wrapping_sum};
use vstd::prelude::*;

verus! {

/// Round constant of rounds 0 to 19.
pub const K0: u32 = 0x5A827999;

/// Round constant of rounds 20 to 39.
pub const K1: u32 = 0x6ED9EBA1;

/// Round constant of rounds 40 to 59.
pub const K2: u32 = 0x8F1BBCDC;

/// Round constant of rounds 60 to 79.
pub const K3: u32 = 0xCA62C1D6;

/// The five working variables of the round loop.
#[derive(Clone, Copy)]
pub struct Working {
    pub a: u32,
    pub b: u32,
    pub c: u32,
    pub d: u32,
    pub e: u32,
}

/// Word `t` of a block read as sixteen big-endian 32-bit words.
pub open spec fn block_word(block: Seq<u8>, t: int) -> u32 {
    word_of_bytes(block[4 * t], block[4 * t + 1], block[4 * t + 2], block[4 * t + 3])
}

/// Word `t` of the message schedule of a block: the block's own sixteen
/// words, then each word the rotated xor of four earlier ones.
pub open spec fn schedule(block: Seq<u8>, t: int) -> u32
    decreases t,
{
    if t < 16 {
        block_word(block, t)
    } else {
        rotl(
            schedule(block, t - 3) ^ schedule(block, t - 8) ^ schedule(block, t - 14) ^ schedule(
                block,
                t - 16,
            ),
            1,
        )
    }
}

/// The nonlinear function of round `t`.
pub open spec fn round_f(t: int, b: u32, c: u32, d: u32) -> u32 {
    if t < 20 {
        (b & c) | (!b & d)
    } else if t < 40 {
        b ^ c ^ d
    } else if t < 60 {
        (b & c) | (b & d) | (c & d)
    } else {
        b ^ c ^ d
    }
}

/// The additive constant of round `t`.
pub open spec fn round_k(t: int) -> u32 {
    if t < 20 {
        K0
    } else if t < 40 {
        K1
    } else if t < 60 {
        K2
    } else {
        K3
    }
}

/// One round: the working variables after round `t` with schedule word `w`.
pub open spec fn step(v: Working, t: int, w: u32) -> Working {
    Working {
        a: add_mod32(
            add_mod32(add_mod32(add_mod32(rotl(v.a, 5), round_f(t, v.b, v.c, v.d)), v.e), round_k(t)),
            w,
        ),
        b: v.a,
        c: rotl(v.b, 30),
        d: v.c,
        e: v.d,
    }
}

/// The working variables after the first `t` rounds on `block`, started
/// from the chaining state `h`.
pub open spec fn rounds(h: Seq<u32>, block: Seq<u8>, t: int) -> Working
    decreases t,
{
    if t <= 0 {
        Working { a: h[0], b: h[1], c: h[2], d: h[3], e: h[4] }
    } else {
        step(rounds(h, block, t - 1), t - 1, schedule(block, t - 1))
    }
}

/// The chaining state after `block`: the old state plus, word by word, the
/// working variables after all eighty rounds.
#[verifier::opaque]
pub open spec fn compressed(h: Seq<u32>, block: Seq<u8>) -> Seq<u32> {
    let v = rounds(h, block, 80);
    seq![
        add_mod32(h[0], v.a),
        add_mod32(h[1], v.b),
        add_mod32(h[2], v.c),
        add_mod32(h[3], v.d),
        add_mod32(h[4], v.e),
    ]
}

/// Computes the nonlinear function of round `t`.
pub fn round_function(t: usize, b: u32, c: u32, d: u32) -> (f: u32)
    ensures
        f == round_f(t as int, b, c, d),
{
    if t < 20 {
        (b & c) | (!b & d)
    } else if t < 40 {
        b ^ c ^ d
    } else if t < 60 {
        (b & c) | (b & d) | (c & d)
    } else {
        b ^ c ^ d
    }
}

/// Gives the additive constant of round `t`.
pub fn round_constant(t: usize) -> (k: u32)
    ensures
        k == round_k(t as int),
{
    if t < 20 {
        K0
    } else if t < 40 {
        K1
    } else if t < 60 {
        K2
    } else {
        K3
    }
}

/// Expands a block into the eighty words of its message schedule.
pub fn expand(block: &[u8; 64]) -> (w: [u32; 80])
    ensures
        forall|t: int| 0 <= t < 80 ==> w@[t] == schedule(block@, t),
{
    let mut w: [u32; 80] = [0u32; 80];
    let mut t: usize = 0;
    while t < 16
        invariant
            t <= 16,
            forall|i: int| 0 <= i < t ==> w@[i] == schedule(block@, i),
        decreases 16 - t,
    {
        w[t] = word_from_be(block[4 * t], block[4 * t + 1], block[4 * t + 2], block[4 * t + 3]);
        t += 1;
    }
    while t < 80
        invariant
            16 <= t <= 80,
            forall|i: int| 0 <= i < t ==> w@[i] == schedule(block@, i),
        decreases 80 - t,
    {
        w[t] = rotate_left(w[t - 3] ^ w[t - 8] ^ w[t - 14] ^ w[t - 16], 1);
        t += 1;
    }
    w
}

/// Applies round `t` with schedule word `w` to the working variables.
pub fn round(v: Working, t: usize, w: u32) -> (r: Working)
    ensures
        r == step(v, t as int, w),
{
    let f = round_function(t, v.b, v.c, v.d);
    let k = round_constant(t);
    let temp = wrapping_sum(
        wrapping_sum(wrapping_sum(wrapping_sum(rotate_left(v.a, 5), f), v.e), k),
        w,
    );
    Working { a: temp, b: v.a, c: rotate_left(v.b, 30), d: v.c, e: v.d }
}

/// Folds one 64-byte block into the chaining state.
pub fn compress(state: &mut [u32; 5], block: &[u8; 64])
    ensures
        final(state)@ == compressed(old(state)@, block@),
{
    proof {
        reveal(compressed);
    }
    let w = expand(block);
    let mut v = Working { a: state[0], b: state[1], c: state[2], d: state[3], e: state[4] };
    let mut t: usize = 0;
    while t < 80
        invariant
            t <= 80,
            v == rounds(old(state)@, block@, t as int),
            forall|i: int| 0 <= i < 80 ==> w@[i] == schedule(block@, i),
            *state == *old(state),
        decreases 80 - t,
    {
        v = round(v, t, w[t]);
        t += 1;
    }
    let next: [u32; 5] = [
        wrapping_sum(state[0], v.a),
        wrapping_sum(state[1], v.b),
        wrapping_sum(state[2], v.c),
        wrapping_sum(state[3], v.d),
        wrapping_sum(state[4], v.e),
    ];
    *state = next;
}

} // verus!
