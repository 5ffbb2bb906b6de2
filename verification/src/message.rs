//! Messages as byte sequences: how a message is cut into blocks, how it is
//! padded, and what its digest is.

use crate::compress::compressed;
use crate::word::byte_of_word;
use vstd::arithmetic::div_mod::lemma_mod_multiples_vanish;
use vstd::prelude::*;

verus! {

/// Bytes in a block.
pub const BLOCK_SIZE: usize = 64;

/// Bytes in a digest.
pub const OUTPUT_SIZE: usize = 20;

/// First word of the initial chaining state.
pub const H0: u32 = 0x67452301;

/// Second word of the initial chaining state.
pub const H1: u32 = 0xEFCDAB89;

/// Third word of the initial chaining state.
pub const H2: u32 = 0x98BADCFE;

/// Fourth word of the initial chaining state.
pub const H3: u32 = 0x10325476;

/// Fifth word of the initial chaining state.
pub const H4: u32 = 0xC3D2E1F0;

/// The chaining state before any block.
pub open spec fn initial_state() -> Seq<u32> {
    seq![H0, H1, H2, H3, H4]
}

/// The chaining state after every whole block of `data`, taken in order
/// from the front; trailing bytes that fill no block are not read.
pub open spec fn absorb_blocks(h: Seq<u32>, data: Seq<u8>) -> Seq<u32>
    decreases data.len(),
{
    if data.len() < 64 {
        h
    } else {
        absorb_blocks(compressed(h, data.subrange(0, 64)), data.subrange(64, data.len() as int))
    }
}

/// The trailing bytes of `data` that fill no whole block.
pub open spec fn remainder(data: Seq<u8>) -> Seq<u8> {
    data.subrange(data.len() - data.len() % 64, data.len() as int)
}

/// `n` zero bytes.
pub open spec fn zeros(n: nat) -> Seq<u8> {
    Seq::new(n, |i: int| 0u8)
}

/// The eight bytes of `bits`, most significant first.
pub open spec fn length_field(bits: u64) -> Seq<u8> {
    seq![
        (bits / 0x100_0000_0000_0000) as u8,
        ((bits / 0x1_0000_0000_0000) % 0x100) as u8,
        ((bits / 0x100_0000_0000) % 0x100) as u8,
        ((bits / 0x1_0000_0000) % 0x100) as u8,
        ((bits / 0x100_0000) % 0x100) as u8,
        ((bits / 0x1_0000) % 0x100) as u8,
        ((bits / 0x100) % 0x100) as u8,
        (bits % 0x100) as u8,
    ]
}

/// How many zero bytes the padding holds after `pending` unprocessed bytes:
/// the fewest that bring marker, zeros and length field to a block boundary.
pub open spec fn zero_fill(pending: nat) -> nat {
    ((119 - pending % 64) % 64) as nat
}

/// The padding that follows `pending` unprocessed bytes: the marker byte
/// `0x80`, the zero fill, and the length field holding `bits`.
pub open spec fn padding(pending: nat, bits: u64) -> Seq<u8> {
    seq![0x80u8] + zeros(zero_fill(pending)) + length_field(bits)
}

/// The length in bits of a message of `len` bytes, as the 64-bit length
/// field holds it: modulo 2^64.
pub open spec fn bit_length(len: nat) -> u64 {
    ((len * 8) % 0x1_0000_0000_0000_0000) as u64
}

/// Computes the length field's value for a count of `len` bytes: the count
/// shifted left by three, bits shifted out at the top being dropped.
pub fn length_in_bits(len: u64) -> (bits: u64)
    ensures
        bits == bit_length(len as nat),
{
    let bits = len << 3;
    assert(len << 3 == ((len * 8) % 0x1_0000_0000_0000_0000) as u64) by (bit_vector);
    bits
}

/// The padding of a whole message of `len` bytes.
pub open spec fn message_padding(len: nat) -> Seq<u8> {
    padding(len, bit_length(len))
}

/// The twenty bytes of a chaining state: its five words, each big-endian.
pub open spec fn digest_bytes(h: Seq<u32>) -> Seq<u8> {
    Seq::new(20, |i: int| byte_of_word(h[i / 4], i % 4))
}

/// The SHA-1 digest of a message.
pub open spec fn sha1(message: Seq<u8>) -> Seq<u8> {
    digest_bytes(absorb_blocks(initial_state(), message + message_padding(message.len())))
}

/// The bytes left over after `a` and then `b` are those left over after
/// `b` is appended to what `a` left over.
pub proof fn lemma_remainder_concat(a: Seq<u8>, b: Seq<u8>)
    ensures
        remainder(remainder(a) + b) == remainder(a + b),
{
    assert(remainder(remainder(a) + b) =~= remainder(a + b));
}

/// Absorbing `a` and then, from where that left off, what `a` left over
/// followed by `b`, is absorbing `a + b` at once.
pub proof fn lemma_absorb_blocks_concat(h: Seq<u32>, a: Seq<u8>, b: Seq<u8>)
    ensures
        absorb_blocks(absorb_blocks(h, a), remainder(a) + b) == absorb_blocks(h, a + b),
    decreases a.len(),
{
    if a.len() < 64 {
        assert(remainder(a) == a) by {
            assert(remainder(a) =~= a);
        }
    } else {
        let first = a.subrange(0, 64);
        let rest = a.subrange(64, a.len() as int);
        let next = compressed(h, first);
        lemma_absorb_blocks_concat(next, rest, b);
        assert(remainder(rest) == remainder(a)) by {
            assert(rest.len() % 64 == a.len() % 64);
            assert(remainder(rest) =~= remainder(a));
        }
        assert((a + b).subrange(0, 64) == first) by {
            assert((a + b).subrange(0, 64) =~= first);
        }
        assert((a + b).subrange(64, (a + b).len() as int) == rest + b) by {
            assert((a + b).subrange(64, (a + b).len() as int) =~= rest + b);
        }
        assert(absorb_blocks(h, a) == absorb_blocks(next, rest));
        assert(absorb_blocks(h, a + b) == absorb_blocks(next, rest + b));
    }
}

/// The zero fill brings the marker and the zeros to eight bytes before a
/// block boundary, and no smaller count `k` does.
pub proof fn lemma_zero_fill_is_least(pending: nat, k: nat)
    ensures
        (pending + 1 + zero_fill(pending)) % 64 == 56,
        (pending + 1 + k) % 64 == 56 ==> zero_fill(pending) <= k,
{
}

/// Padding ends on a block boundary. It makes one last block where the
/// pending bytes leave room for the marker and the length field, which is
/// up to 55 of them, and two where they do not.
pub proof fn lemma_padding_blocks(pending: nat, bits: u64)
    requires
        pending < 64,
    ensures
        pending <= 55 ==> pending + padding(pending, bits).len() == 64,
        pending >= 56 ==> pending + padding(pending, bits).len() == 128,
{
}

/// Absorbing blocks leaves five chaining words.
pub proof fn lemma_absorb_blocks_len(h: Seq<u32>, data: Seq<u8>)
    requires
        h.len() == 5,
    ensures
        absorb_blocks(h, data).len() == 5,
    decreases data.len(),
{
    if data.len() >= 64 {
        reveal(compressed);
        lemma_absorb_blocks_len(
            compressed(h, data.subrange(0, 64)),
            data.subrange(64, data.len() as int),
        );
    }
}

/// The length field counts bits modulo 2^64, so it is the same for a byte
/// count and for that count modulo 2^64.
pub proof fn lemma_bit_length_wraps(len: nat)
    ensures
        bit_length((len % 0x1_0000_0000_0000_0000) as nat) == bit_length(len),
{
    let wrapped = len % 0x1_0000_0000_0000_0000;
    let turns = len / 0x1_0000_0000_0000_0000;
    assert(len == turns * 0x1_0000_0000_0000_0000 + wrapped);
    assert(len * 8 == wrapped * 8 + (turns * 8) * 0x1_0000_0000_0000_0000);
    lemma_mod_multiples_vanish((turns * 8) as int, (wrapped * 8) as int, 0x1_0000_0000_0000_0000);
}

/// The length field is 64 bits wide: messages whose lengths differ by a
/// multiple of 2^61 bytes, which is 2^64 bits, get the same padding.
pub proof fn lemma_padding_wraps(len: nat, turns: nat)
    ensures
        message_padding(len + turns * 0x2000_0000_0000_0000) == message_padding(len),
{
    let longer = len + turns * 0x2000_0000_0000_0000;
    assert(longer % 64 == len % 64) by {
        assert(longer == len + (turns * 0x80_0000_0000_0000) * 64);
        lemma_mod_multiples_vanish((turns * 0x80_0000_0000_0000) as int, len as int, 64);
    }
    assert(bit_length(longer) == bit_length(len)) by {
        assert(longer * 8 == len * 8 + turns * 0x1_0000_0000_0000_0000);
        lemma_mod_multiples_vanish(turns as int, (len * 8) as int, 0x1_0000_0000_0000_0000);
    }
}

} // verus!
