//! What an engine holds, as plain values, and the laws of absorbing input.

use crate::message::{
    absorb_blocks, bit_length, digest_bytes, initial_state, lemma_absorb_blocks_concat,
    lemma_absorb_blocks_len, lemma_bit_length_wraps, lemma_remainder_concat, message_padding,
    padding, remainder, sha1,
};
use vstd::prelude::*;

verus! {

/// The three things an engine holds.
pub struct EngineState {
    /// The chaining state: five words, folded over every whole block so far.
    pub chaining: Seq<u32>,
    /// The bytes taken in that fill no whole block yet.
    pub pending: Seq<u8>,
    /// How many bytes were taken in, modulo 2^64.
    pub total_len: u64,
}

impl EngineState {
    /// The state of an engine that has taken in nothing.
    pub open spec fn fresh() -> EngineState {
        EngineState { chaining: initial_state(), pending: Seq::empty(), total_len: 0 }
    }

    /// Five chaining words, and never a whole block pending.
    pub open spec fn wf(self) -> bool {
        self.chaining.len() == 5 && self.pending.len() < 64
    }

    /// The state after `data` is taken in: the count grows by its length
    /// modulo 2^64, every block that the pending bytes and `data` fill is
    /// compressed in order, and the rest is pending.
    pub open spec fn absorb(self, data: Seq<u8>) -> EngineState {
        EngineState {
            chaining: absorb_blocks(self.chaining, self.pending + data),
            pending: remainder(self.pending + data),
            total_len: ((self.total_len + data.len()) % 0x1_0000_0000_0000_0000) as u64,
        }
    }

    /// The state after each part of `parts` is taken in, in order.
    pub open spec fn absorb_all(self, parts: Seq<Seq<u8>>) -> EngineState
        decreases parts.len(),
    {
        if parts.len() == 0 {
            self
        } else {
            self.absorb(parts.first()).absorb_all(parts.drop_first())
        }
    }

    /// The digest that finalizing gives: the pending bytes are padded, with
    /// the count times eight modulo 2^64 in the length field, the one or
    /// two blocks so filled are compressed, and the chaining state is
    /// written out big-endian.
    pub open spec fn digest(self) -> Seq<u8> {
        digest_bytes(
            absorb_blocks(
                self.chaining,
                self.pending + padding(self.pending.len(), bit_length(self.total_len as nat)),
            ),
        )
    }
}

/// Absorbing keeps a well-formed state well-formed.
pub proof fn lemma_absorb_wf(s: EngineState, data: Seq<u8>)
    requires
        s.wf(),
    ensures
        s.absorb(data).wf(),
{
    lemma_absorb_blocks_len(s.chaining, s.pending + data);
}

/// Absorbing nothing changes nothing.
pub proof fn lemma_absorb_nothing(s: EngineState)
    requires
        s.wf(),
    ensures
        s.absorb(Seq::empty()) == s,
{
    assert(s.pending + Seq::<u8>::empty() =~= s.pending);
    assert(remainder(s.pending) =~= s.pending);
}

/// Input may be cut anywhere: absorbing `a` and then `b` leaves the state
/// that absorbing `a + b` in one piece leaves.
pub proof fn lemma_absorb_concat(s: EngineState, a: Seq<u8>, b: Seq<u8>)
    ensures
        s.absorb(a).absorb(b) == s.absorb(a + b),
{
    let held = s.pending + a;
    lemma_absorb_blocks_concat(s.chaining, held, b);
    lemma_remainder_concat(held, b);
    assert(held + b =~= s.pending + (a + b));
}

/// Input may be cut into any number of parts: absorbing the parts one
/// after another leaves the state that absorbing their concatenation in
/// one piece leaves, and so gives the same digest.
pub proof fn lemma_absorb_all(s: EngineState, parts: Seq<Seq<u8>>)
    requires
        s.wf(),
    ensures
        s.absorb_all(parts) == s.absorb(parts.flatten()),
        s.absorb_all(parts).digest() == s.absorb(parts.flatten()).digest(),
    decreases parts.len(),
{
    if parts.len() == 0 {
        lemma_absorb_nothing(s);
        assert(parts.flatten() =~= Seq::<u8>::empty());
    } else {
        let head = parts.first();
        let tail = parts.drop_first();
        lemma_absorb_wf(s, head);
        lemma_absorb_all(s.absorb(head), tail);
        lemma_absorb_concat(s, head, tail.flatten());
        assert(parts.flatten() == head + tail.flatten());
    }
}

/// An engine that took in `message` from new, in one piece, gives the
/// SHA-1 digest of `message`.
pub proof fn lemma_digest_of_message(message: Seq<u8>)
    ensures
        EngineState::fresh().absorb(message).digest() == sha1(message),
{
    let s = EngineState::fresh().absorb(message);
    assert(Seq::<u8>::empty() + message =~= message);
    assert(s.pending.len() == message.len() % 64);
    assert(bit_length(s.total_len as nat) == bit_length(message.len())) by {
        lemma_bit_length_wraps(message.len());
    }
    assert(padding(s.pending.len(), bit_length(s.total_len as nat)) == message_padding(
        message.len(),
    ));
    lemma_absorb_blocks_concat(initial_state(), message, message_padding(message.len()));
}

/// Two engines that share a past go on apart: after `prefix`, taking in
/// `suffix` gives the digest of `prefix + suffix`, whatever another engine
/// that was at the same state takes in.
pub proof fn lemma_digest_of_continuation(prefix: Seq<u8>, suffix: Seq<u8>)
    ensures
        EngineState::fresh().absorb(prefix).absorb(suffix).digest() == sha1(prefix + suffix),
{
    lemma_absorb_concat(EngineState::fresh(), prefix, suffix);
    lemma_digest_of_message(prefix + suffix);
}

} // verus!
