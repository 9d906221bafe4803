//! A harness that runs compiled guest programs inside the RISC Zero zkVM.
//!
//! The harness binds a game — a compiled guest binary together with the
//! fixed-width identifier that commits to it — to a zkVM engine, assembles
//! the guest's input channel, drives execution or proving, and verifies the
//! resulting proof against the game's identifier. Execution yields a session
//! report for cost estimation; proving yields a receipt that third parties
//! can check.

use vstd::prelude::*;

pub mod backend;
pub mod block_execution_game;
pub mod common;
pub mod decompression_game;
pub mod environment;
pub mod input;

verus! {

/// The closed set of failures that the harness surfaces. Every fallible
/// operation returns one of these kinds; callers branch on the kind, and the
/// underlying backend error rides along as an opaque cause for diagnostics.
#[derive(Debug)]
pub enum Error {
    /// The input could not be deserialized with bincode.
    FailedToDeserializeInput(bincode::Error),
    /// A value could not be serialized into the guest's input channel.
    FailedToWriteInputToProverEnv(String),
    /// The assembled environment was rejected by the backend.
    FailedToBuildProverEnv(String),
    /// The public output of a run could not be deserialized.
    FailedToDeserializePublicOutput(String),
    /// The backend aborted or erred while running the guest without proving.
    FailedToExecuteProvingGame(String),
    /// The backend aborted or erred while running the guest under the
    /// proving system.
    FailedToProveProvingGame(String),
    /// The cryptographic check of a receipt against an identifier did not
    /// pass.
    FailedToVerifyProof(String),
    /// A detected logical mismatch between an expected and an actual
    /// outcome.
    Fault(String),
}

impl Error {
    /// A short, fixed phrase naming the failure kind.
    pub fn kind_message(&self) -> (r: &'static str)
        ensures
            self matches Error::FailedToDeserializeInput(_) ==> r@ == "failed to deserialize input"@,
            self matches Error::FailedToWriteInputToProverEnv(_) ==> r@
                == "failed to write input to environment"@,
            self matches Error::FailedToBuildProverEnv(_) ==> r@
                == "failed to build prover environment"@,
            self matches Error::FailedToDeserializePublicOutput(_) ==> r@
                == "failed to deserialize public output"@,
            self matches Error::FailedToExecuteProvingGame(_) ==> r@
                == "failed to execute proving game"@,
            self matches Error::FailedToProveProvingGame(_) ==> r@
                == "failed to prove proving game"@,
            self matches Error::FailedToVerifyProof(_) ==> r@ == "failed to verify proof"@,
            self matches Error::Fault(_) ==> r@ == "FAULT"@,
    {
        match self {
            Error::FailedToDeserializeInput(_) => "failed to deserialize input",
            Error::FailedToWriteInputToProverEnv(_) => "failed to write input to environment",
            Error::FailedToBuildProverEnv(_) => "failed to build prover environment",
            Error::FailedToDeserializePublicOutput(_) => "failed to deserialize public output",
            Error::FailedToExecuteProvingGame(_) => "failed to execute proving game",
            Error::FailedToProveProvingGame(_) => "failed to prove proving game",
            Error::FailedToVerifyProof(_) => "failed to verify proof",
            Error::Fault(_) => "FAULT",
        }
    }

    /// The rendered message of the underlying cause, for diagnostics.
    pub fn cause_message(&self) -> (r: String)
        ensures
            self matches Error::FailedToWriteInputToProverEnv(msg) ==> r@ == msg@,
            self matches Error::FailedToBuildProverEnv(msg) ==> r@ == msg@,
            self matches Error::FailedToDeserializePublicOutput(msg) ==> r@ == msg@,
            self matches Error::FailedToExecuteProvingGame(msg) ==> r@ == msg@,
            self matches Error::FailedToProveProvingGame(msg) ==> r@ == msg@,
            self matches Error::FailedToVerifyProof(msg) ==> r@ == msg@,
            self matches Error::Fault(msg) ==> r@ == msg@,
    {
        match self {
            Error::FailedToDeserializeInput(e) => crate::backend::bincode_message(e),
            Error::FailedToWriteInputToProverEnv(msg) => clone_string(msg),
            Error::FailedToBuildProverEnv(msg) => clone_string(msg),
            Error::FailedToDeserializePublicOutput(msg) => clone_string(msg),
            Error::FailedToExecuteProvingGame(msg) => clone_string(msg),
            Error::FailedToProveProvingGame(msg) => clone_string(msg),
            Error::FailedToVerifyProof(msg) => clone_string(msg),
            Error::Fault(msg) => clone_string(msg),
        }
    }
}

/// Clones a string, keeping its characters.
fn clone_string(s: &String) -> (r: String)
    ensures
        r@ == s@,
{
    s.clone()
}

impl From<bincode::Error> for Error {
    /// Wraps a bincode failure as the input-deserialization kind.
    fn from(e: bincode::Error) -> (r: Error)
        ensures
            r == Error::FailedToDeserializeInput(e),
    {
        Error::FailedToDeserializeInput(e)
    }
}

impl vstd::std_specs::convert::FromSpecImpl<bincode::Error> for Error {
    open spec fn obeys_from_spec() -> bool {
        true
    }

    open spec fn from_spec(e: bincode::Error) -> Error {
        Error::FailedToDeserializeInput(e)
    }
}

/// Maps what the backend returned for a serialization attempt into the
/// harness's taxonomy: a failure to serialize a value into the input channel
/// is exactly the environment-write kind.
pub fn env_write_outcome(outcome: Result<Vec<u32>, String>) -> (r: Result<
    Vec<u32>,
    Error,
>)
    ensures
        outcome matches Ok(words) ==> r == Ok::<Vec<u32>, Error>(words),
        outcome matches Err(e) ==> r == Err::<Vec<u32>, Error>(
            Error::FailedToWriteInputToProverEnv(e),
        ),
{
    match outcome {
        Ok(words) => Ok(words),
        Err(e) => Err(Error::FailedToWriteInputToProverEnv(e)),
    }
}

/// Maps what the backend returned for an environment assembly into the
/// harness's taxonomy: a rejected environment is exactly the
/// environment-build kind.
pub fn env_build_outcome(
    outcome: Result<risc0_zkvm::ExecutorEnv<'static>, String>,
) -> (r: Result<risc0_zkvm::ExecutorEnv<'static>, Error>)
    ensures
        outcome matches Ok(env) ==> r == Ok::<risc0_zkvm::ExecutorEnv<'static>, Error>(env),
        outcome matches Err(e) ==> r == Err::<risc0_zkvm::ExecutorEnv<'static>, Error>(
            Error::FailedToBuildProverEnv(e),
        ),
{
    match outcome {
        Ok(env) => Ok(env),
        Err(e) => Err(Error::FailedToBuildProverEnv(e)),
    }
}

/// Maps what the execution engine returned into the harness's taxonomy: an
/// engine failure while running without proving is exactly the execution
/// kind.
pub fn execution_outcome(
    outcome: Result<risc0_zkvm::SessionInfo, String>,
) -> (r: Result<risc0_zkvm::SessionInfo, Error>)
    ensures
        outcome matches Ok(info) ==> r == Ok::<risc0_zkvm::SessionInfo, Error>(info),
        outcome matches Err(e) ==> r == Err::<risc0_zkvm::SessionInfo, Error>(
            Error::FailedToExecuteProvingGame(e),
        ),
{
    match outcome {
        Ok(info) => Ok(info),
        Err(e) => Err(Error::FailedToExecuteProvingGame(e)),
    }
}

/// Maps what the proving engine returned into the harness's taxonomy: an
/// engine failure while proving is exactly the proving kind.
pub fn proving_outcome(
    outcome: Result<risc0_zkvm::ProveInfo, String>,
) -> (r: Result<risc0_zkvm::ProveInfo, Error>)
    ensures
        outcome matches Ok(info) ==> r == Ok::<risc0_zkvm::ProveInfo, Error>(info),
        outcome matches Err(e) ==> r == Err::<risc0_zkvm::ProveInfo, Error>(
            Error::FailedToProveProvingGame(e),
        ),
{
    match outcome {
        Ok(info) => Ok(info),
        Err(e) => Err(Error::FailedToProveProvingGame(e)),
    }
}

/// Maps what the verifier returned into the harness's taxonomy: a failed
/// cryptographic check — a tampered receipt, a receipt for a different
/// binary, or a corrupted proof — is exactly the verification kind, never
/// any other and never a silent success.
pub fn verification_outcome(outcome: Result<(), String>) -> (r: Result<(), Error>)
    ensures
        outcome matches Ok(u) ==> r == Ok::<(), Error>(u),
        outcome matches Err(e) ==> r == Err::<(), Error>(Error::FailedToVerifyProof(e)),
{
    match outcome {
        Ok(u) => Ok(u),
        Err(e) => Err(Error::FailedToVerifyProof(e)),
    }
}

} // verus!
