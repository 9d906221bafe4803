//! The per-call environment builder.
//!
//! An environment holds the serialized input for one execute or prove call.
//! The builder accumulates bytes — raw slices, or values serialized with the
//! zkVM codec — and finalizing it hands the backend an environment that
//! carries exactly those bytes. A builder is owned by one call and discarded
//! afterwards; no state leaks between calls.

use vstd::prelude::*;

use crate::backend::{env_build, env_input, env_write_slice, new_env_builder};
use crate::input::{bytes_of_words, input_encoding, input_len, words_to_bytes, InputValue};
use crate::Error;

verus! {

/// Accumulates the guest input for one execute or prove call.
#[derive(Debug)]
pub struct EnvBuilder {
    input: Vec<u8>,
}

impl View for EnvBuilder {
    type V = Seq<u8>;

    closed spec fn view(&self) -> Seq<u8> {
        self.input@
    }
}

impl EnvBuilder {
    /// A builder with no input yet.
    pub fn new() -> (r: EnvBuilder)
        ensures
            r@ == Seq::<u8>::empty(),
    {
        EnvBuilder { input: Vec::new() }
    }

    /// The bytes accumulated so far.
    pub fn input(&self) -> (r: &Vec<u8>)
        ensures
            r@ == self@,
    {
        &self.input
    }

    /// Appends raw bytes to the guest input.
    pub fn write_slice(&mut self, data: &[u8])
        ensures
            final(self)@ == old(self)@ + data@,
    {
        self.input.extend_from_slice(data);
        proof {
            assert(self.input@ =~= old(self).input@ + data@);
        }
    }

    /// Serializes a value with the zkVM codec and appends its words, in
    /// little-endian byte order, to the guest input. A value within the
    /// codec's length-framing range always succeeds; one too long for the
    /// framing is surfaced as the environment-write kind, nothing else, and
    /// leaves the builder unchanged.
    pub fn write(&mut self, value: &InputValue) -> (r: Result<(), Error>)
        ensures
            input_len(value@) <= u32::MAX ==> (r matches Ok(_) && final(self)@ == old(self)@
                + bytes_of_words(input_encoding(value@))),
            input_len(value@) > u32::MAX ==> (r matches Err(e) && e
                matches Error::FailedToWriteInputToProverEnv(_) && final(self)@ == old(self)@),
    {
        let words = match value.encode() {
            Ok(words) => words,
            Err(e) => {
                return Err(e);
            },
        };
        let bytes = words_to_bytes(&words);
        self.write_slice(bytes.as_slice());
        Ok(())
    }

    /// Assembles the backend environment. On success the environment's
    /// guest input is exactly the accumulated bytes; a rejected environment
    /// is surfaced as the environment-build kind and nothing else.
    pub fn finalize(&self) -> (r: Result<risc0_zkvm::ExecutorEnv<'static>, Error>)
        ensures
            r matches Ok(env) ==> env_input(env) == self@,
            r matches Err(e) ==> e matches Error::FailedToBuildProverEnv(_),
    {
        let mut builder = new_env_builder();
        env_write_slice(&mut builder, self.input.as_slice());
        proof {
            assert(Seq::<u8>::empty() + self.input@ =~= self.input@);
        }
        crate::env_build_outcome(env_build(&mut builder))
    }
}

} // verus!
