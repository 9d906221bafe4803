//! The decompression game: proving that a compressed transaction list was
//! decompressed correctly.

use vstd::prelude::*;

pub mod defaults;

use crate::common::GameConfig;
use crate::common::{GameExecutor, GameProver};
use crate::input::{InputValue, InputValueView};

verus! {

/// Configuration for the Decompression Game: the compiled guest binary and
/// the identifier that commits to it.
///
/// The identifier must be the one generated for exactly this binary; the
/// harness does not re-derive the correspondence, and a mismatched pair
/// only surfaces when a receipt is later verified.
#[derive(Debug)]
pub struct DecompressionGame {
    /// The compiled guest binary.
    pub binary: Vec<u8>,
    /// The fixed-width identifier that commits to the binary.
    pub verification_id: [u32; 8],
}

/// A named, pre-built scenario for the decompression game, carrying the
/// input value it feeds the guest.
#[derive(Debug)]
pub struct Fixture {
    /// The scenario's name, for reports.
    pub name: String,
    /// The input value handed to the guest.
    pub input: InputValue,
}

impl GameConfig for DecompressionGame {
    type Fixture = Fixture;

    open spec fn spec_elf(&self) -> Seq<u8> {
        self.binary@
    }

    open spec fn spec_id(&self) -> [u32; 8] {
        self.verification_id
    }

    open spec fn spec_fixture_input(&self, fixture: Fixture) -> InputValueView {
        fixture.input@
    }

    fn elf(&self) -> (r: &Vec<u8>) {
        &self.binary
    }

    fn id(&self) -> (r: [u32; 8]) {
        self.verification_id
    }

    fn get_fixture_input(&self, fixture: &Fixture) -> (r: InputValue) {
        fixture.input.duplicate()
    }
}

/// Type alias for Decompression Game Prover.
pub type DecompressionProver = GameProver<DecompressionGame>;

/// Type alias for Decompression Game Executor.
pub type DecompressionExecutor = GameExecutor<DecompressionGame>;

} // verus!
