//! The block buffer of the engine, kept by the `block-buffer` crate, and the
//! big-endian output of the `byteorder` crate that `block-buffer` hands on.
//!
//! Nothing in this file is proved: each contract states what the named
//! function of the outside crate does, as its source shows it.

use crate::compress::compress;
use crate::message::{absorb_blocks, digest_bytes, padding, remainder};
use block_buffer::byteorder::{ByteOrder, BE};
use block_buffer::generic_array::typenum::U64;
use block_buffer::BlockBuffer;
use vstd::prelude::*;

verus! {

/// A `block_buffer::BlockBuffer` with blocks of 64 bytes: a 64-byte array
/// and a cursor.
#[verifier::external_body]
pub struct Buffer {
    inner: BlockBuffer<U64>,
}

/// The bytes that a buffer holds: those of its array before the cursor,
/// in the order in which they came.
pub uninterp spec fn buffered(buffer: Buffer) -> Seq<u8>;

/// `BlockBuffer::default`: a buffer with its cursor at zero, so holding
/// nothing.
#[verifier::external_body]
pub(crate) fn buffer_new() -> (buffer: Buffer)
    ensures
        buffered(buffer) == Seq::<u8>::empty(),
{
    Buffer { inner: BlockBuffer::default() }
}

/// `BlockBuffer::clone`: a buffer with the same array and cursor, so
/// holding the same bytes.
#[verifier::external_body]
pub(crate) fn buffer_clone(buffer: &Buffer) -> (copy: Buffer)
    ensures
        buffered(copy) == buffered(*buffer),
{
    Buffer { inner: buffer.inner.clone() }
}

/// `BlockBuffer::reset`: sets the cursor to zero, after which the buffer
/// holds nothing.
#[verifier::external_body]
pub(crate) fn buffer_reset(buffer: &mut Buffer)
    ensures
        buffered(*final(buffer)) == Seq::<u8>::empty(),
{
    buffer.inner.reset();
}

/// `BlockBuffer::input`, with `compress` on `state` as the function that
/// receives the blocks. The bytes held and `input` after them are handed
/// out block by block, in order, as soon as 64 of them are there; what
/// fills no whole block stays in the buffer.
#[verifier::external_body]
pub(crate) fn buffer_input(buffer: &mut Buffer, state: &mut [u32; 5], input: &[u8])
    ensures
        final(state)@ == absorb_blocks(old(state)@, buffered(*old(buffer)) + input@),
        buffered(*final(buffer)) == remainder(buffered(*old(buffer)) + input@),
{
    buffer.inner.input(input, |block| compress(state, block.as_slice().try_into().unwrap()));
}

/// `BlockBuffer::len64_padding` in big-endian order, with `compress` on
/// `state` as the function that receives the blocks. After the bytes held
/// it writes the byte `0x80`, then zero bytes up to the last eight bytes of
/// the block, or of a second block where the first has fewer than eight
/// left, then `bits` in those eight bytes, most significant first. It hands
/// out the one or two blocks so filled, in order, and sets the cursor to
/// zero.
#[verifier::external_body]
pub(crate) fn buffer_pad(buffer: &mut Buffer, state: &mut [u32; 5], bits: u64)
    ensures
        final(state)@ == absorb_blocks(
            old(state)@,
            buffered(*old(buffer)) + padding(buffered(*old(buffer)).len(), bits),
        ),
        buffered(*final(buffer)) == Seq::<u8>::empty(),
{
    buffer.inner.len64_padding::<BE, _>(
        bits,
        |block| compress(state, block.as_slice().try_into().unwrap()),
    );
}

/// `ByteOrder::write_u32_into` of `BigEndian`: writes each word as four
/// bytes, most significant first, the words in order.
#[verifier::external_body]
pub(crate) fn write_words(words: &[u32; 5]) -> (bytes: [u8; 20])
    ensures
        bytes@ == digest_bytes(words@),
{
    let mut bytes = [0u8; 20];
    BE::write_u32_into(words, &mut bytes);
    bytes
}

} // verus!
