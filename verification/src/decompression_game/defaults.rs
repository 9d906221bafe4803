//! Convenience functions for working with the default prover and executor.

use vstd::prelude::*;

use crate::backend::{default_executor_backend, default_prover_backend};
use crate::common::{GameExecutor, GameProver};
use crate::decompression_game::{DecompressionExecutor, DecompressionGame, DecompressionProver, Fixture};
use crate::input::input_len;
use crate::Error;

verus! {

/// Get a DecompressionProver wired to the proving engine that the backend
/// selects by default.
pub fn game_prover(game: DecompressionGame) -> (r: DecompressionProver)
    ensures
        r.game == game,
{
    GameProver::new(default_prover_backend(), game)
}

/// Get a DecompressionExecutor wired to the execution engine that the
/// backend selects by default.
pub fn game_executor(game: DecompressionGame) -> (r: DecompressionExecutor)
    ensures
        r.game == game,
{
    GameExecutor::new(default_executor_backend(), game)
}

/// Prove a fixture with the default prover.
pub fn prove_fixture(game: DecompressionGame, fixture: Fixture) -> (r: Result<
    risc0_zkvm::ProveInfo,
    Error,
>)
    ensures
        r matches Err(e) ==> (e matches Error::FailedToWriteInputToProverEnv(_) || e matches Error::FailedToBuildProverEnv(_) || e matches Error::FailedToProveProvingGame(_)),
        input_len(fixture.input@) > u32::MAX ==> r matches Err(
            Error::FailedToWriteInputToProverEnv(_),
        ),
        input_len(fixture.input@) <= u32::MAX ==> !(r matches Err(
            Error::FailedToWriteInputToProverEnv(_),
        )),
{
    game_prover(game).prove_fixture(fixture)
}

/// Execute a fixture with the default executor.
pub fn execute_fixture(game: DecompressionGame, fixture: Fixture) -> (r: Result<
    risc0_zkvm::SessionInfo,
    Error,
>)
    ensures
        r matches Err(e) ==> (e matches Error::FailedToWriteInputToProverEnv(_) || e matches Error::FailedToBuildProverEnv(_) || e matches Error::FailedToExecuteProvingGame(_)),
        input_len(fixture.input@) > u32::MAX ==> r matches Err(
            Error::FailedToWriteInputToProverEnv(_),
        ),
        input_len(fixture.input@) <= u32::MAX ==> !(r matches Err(
            Error::FailedToWriteInputToProverEnv(_),
        )),
{
    game_executor(game).execute_fixture(fixture)
}

} // verus!
