//! The block execution game: proving that a block of transactions was
//! executed correctly.

use vstd::prelude::*;

pub mod defaults;

use crate::common::GameConfig;
use crate::common::{GameExecutor, GameProver};
use crate::input::{InputValue, InputValueView};

verus! {

/// Configuration for the Block Execution Game: the compiled guest binary
/// and the identifier that commits to it.
///
/// The identifier must be the one generated for exactly this binary; the
/// harness does not re-derive the correspondence, and a mismatched pair
/// only surfaces when a receipt is later verified.
#[derive(Debug)]
pub struct BlockExecutionGame {
    /// The compiled guest binary.
    pub binary: Vec<u8>,
    /// The fixed-width identifier that commits to the binary.
    pub verification_id: [u32; 8],
}

/// A named, pre-built scenario for the block execution game, carrying the
/// input value it feeds the guest.
#[derive(Debug)]
pub struct Fixture {
    /// The scenario's name, for reports.
    pub name: String,
    /// The input value handed to the guest.
    pub input: InputValue,
}

impl GameConfig for BlockExecutionGame {
    type Fixture = Fixture;

    open spec fn spec_elf(&self) -> Seq<u8> {
        self.binary@
    }

    open spec fn spec_id(&self) -> [u32; 8] {
        self.verification_id
    }

    open spec fn spec_fixture_input(&self, fixture: Fixture) -> InputValueView {
        fixture.input@
    }

    fn elf(&self) -> (r: &Vec<u8>) {
        &self.binary
    }

    fn id(&self) -> (r: [u32; 8]) {
        self.verification_id
    }

    fn get_fixture_input(&self, fixture: &Fixture) -> (r: InputValue) {
        fixture.input.duplicate()
    }
}

/// Type alias for Block Execution Game Prover.
pub type BlockExecutionProver = GameProver<BlockExecutionGame>;

/// Type alias for Block Execution Game Executor.
pub type BlockExecutionExecutor = GameExecutor<BlockExecutionGame>;

} // verus!
