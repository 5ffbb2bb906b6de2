//! The streaming engine.

use crate::buffer::{
    buffer_clone, buffer_input, buffer_new, buffer_pad, buffer_reset, buffered, write_words,
    Buffer,
};
use crate::message::{length_in_bits, sha1, H0, H1, H2, H3, H4};
use crate::model::{lemma_digest_of_message, EngineState};
use vstd::prelude::*;

verus! {

/// A SHA-1 computation in progress.
pub struct Sha1 {
    h: [u32; 5],
    len: u64,
    buffer: Buffer,
}

impl View for Sha1 {
    type V = EngineState;

    closed spec fn view(&self) -> EngineState {
        EngineState { chaining: self.h@, pending: buffered(self.buffer), total_len: self.len }
    }
}

impl Sha1 {
    /// An engine that has taken in nothing.
    pub fn new() -> (engine: Sha1)
        ensures
            engine@ == EngineState::fresh(),
    {
        let engine = Sha1 { h: [H0, H1, H2, H3, H4], len: 0, buffer: buffer_new() };
        assert(engine.h@ =~= EngineState::fresh().chaining);
        engine
    }

    /// Takes in `input`, of any length.
    pub fn update(&mut self, input: &[u8])
        ensures
            final(self)@ == old(self)@.absorb(input@),
            final(self)@.wf(),
    {
        self.len = self.len.wrapping_add(input.len() as u64);
        buffer_input(&mut self.buffer, &mut self.h, input);
    }

    /// Takes in `input` and hands the engine on, so that calls can be chained.
    pub fn chain(self, input: &[u8]) -> (engine: Sha1)
        ensures
            engine@ == self@.absorb(input@),
            engine@.wf(),
    {
        let mut engine = self;
        engine.update(input);
        engine
    }

    /// Pads what is pending, compresses the last block or two, and gives
    /// the digest. The engine is left as padding left it.
    fn finish(&mut self) -> (digest: [u8; 20])
        ensures
            digest@ == old(self)@.digest(),
    {
        let bits = length_in_bits(self.len);
        buffer_pad(&mut self.buffer, &mut self.h, bits);
        write_words(&self.h)
    }

    /// Gives the digest of all that was taken in, and consumes the engine.
    pub fn fixed_result(self) -> (digest: [u8; 20])
        ensures
            digest@ == self@.digest(),
    {
        let mut engine = self;
        engine.finish()
    }

    /// Gives the digest of all that was taken in, and consumes the engine.
    pub fn finalize(self) -> (digest: [u8; 20])
        ensures
            digest@ == self@.digest(),
    {
        self.fixed_result()
    }

    /// Gives the digest of all that was taken in, and leaves the engine as
    /// a new one.
    pub fn finalize_reset(&mut self) -> (digest: [u8; 20])
        ensures
            digest@ == old(self)@.digest(),
            final(self)@ == EngineState::fresh(),
    {
        let digest = self.finish();
        self.reset();
        digest
    }

    /// The SHA-1 digest of `data`.
    pub fn digest(data: &[u8]) -> (digest: [u8; 20])
        ensures
            digest@ == sha1(data@),
    {
        let mut engine = Sha1::new();
        engine.update(data);
        proof {
            lemma_digest_of_message(data@);
        }
        engine.fixed_result()
    }

    /// Brings the engine back to the state of a new one.
    pub fn reset(&mut self)
        ensures
            final(self)@ == EngineState::fresh(),
    {
        self.h = [H0, H1, H2, H3, H4];
        self.len = 0;
        buffer_reset(&mut self.buffer);
        assert(self.h@ =~= EngineState::fresh().chaining);
    }
}

impl Default for Sha1 {
    /// An engine that has taken in nothing.
    fn default() -> (engine: Sha1)
        ensures
            engine@ == EngineState::fresh(),
    {
        Sha1::new()
    }
}

impl Clone for Sha1 {
    /// A second engine in the same state, which goes on independently.
    fn clone(&self) -> (copy: Sha1)
        ensures
            copy@ == self@,
    {
        Sha1 { h: self.h, len: self.len, buffer: buffer_clone(&self.buffer) }
    }
}

} // verus!
