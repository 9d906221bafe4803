//! The trusted boundary around the RISC Zero host crate.
//!
//! Everything the harness asks of the zkVM backend goes through this module:
//! the environment builder, the execution and proving engines, and receipt
//! verification. Each wrapper makes exactly one call into the backend and
//! states only what that call's source and documentation show.

use vstd::prelude::*;

verus! {

#[verifier::external_type_specification]
#[verifier::external_body]
pub struct ExBincodeErrorKind(bincode::ErrorKind);

#[verifier::external_type_specification]
#[verifier::external_body]
pub struct ExExecutorEnvBuilder<'a>(risc0_zkvm::ExecutorEnvBuilder<'a>);

#[verifier::external_type_specification]
#[verifier::external_body]
pub struct ExExecutorEnv<'a>(risc0_zkvm::ExecutorEnv<'a>);

#[verifier::external_type_specification]
#[verifier::external_body]
pub struct ExProveInfo(risc0_zkvm::ProveInfo);

#[verifier::external_type_specification]
#[verifier::external_body]
pub struct ExSessionInfo(risc0_zkvm::SessionInfo);

#[verifier::external_type_specification]
#[verifier::external_body]
pub struct ExReceipt(risc0_zkvm::Receipt);

/// The bytes that an environment builder has accumulated for the guest's
/// input channel.
pub uninterp spec fn builder_input(b: risc0_zkvm::ExecutorEnvBuilder<'static>) -> Seq<u8>;

/// The bytes that a finished environment will hand to the guest as its
/// input channel.
pub uninterp spec fn env_input(env: risc0_zkvm::ExecutorEnv<'static>) -> Seq<u8>;

/// The words the zkVM codec produces for a byte vector: a u32 length word,
/// then one word per byte.
pub open spec fn bytes_encoding(bytes: Seq<u8>) -> Seq<u32> {
    seq![bytes.len() as u32] + bytes.map(|i: int, b: u8| b as u32)
}

/// The words the zkVM codec produces for a word vector: a u32 length word,
/// then the words themselves.
pub open spec fn words_encoding(words: Seq<u32>) -> Seq<u32> {
    seq![words.len() as u32] + words
}

/// Relies on risc0_zkvm::ExecutorEnvBuilder::default: a fresh builder holds
/// no guest input.
#[verifier::external_body]
pub(crate) fn new_env_builder() -> (b: risc0_zkvm::ExecutorEnvBuilder<'static>)
    ensures
        builder_input(b) == Seq::<u8>::empty(),
{
    risc0_zkvm::ExecutorEnvBuilder::default()
}

/// Relies on risc0_zkvm::ExecutorEnvBuilder::write_slice: the bytes are
/// appended to the guest input accumulated so far.
#[verifier::external_body]
pub(crate) fn env_write_slice(b: &mut risc0_zkvm::ExecutorEnvBuilder<'static>, data: &[u8])
    ensures
        builder_input(*final(b)) == builder_input(*old(b)) + data@,
{
    b.write_slice(data);
}

/// Relies on risc0_zkvm::ExecutorEnvBuilder::build: on success the finished
/// environment carries exactly the accumulated guest input.
#[verifier::external_body]
pub(crate) fn env_build(
    b: &mut risc0_zkvm::ExecutorEnvBuilder<'static>,
) -> (r: Result<risc0_zkvm::ExecutorEnv<'static>, String>)
    ensures
        r matches Ok(env) ==> env_input(env) == builder_input(*old(b)),
{
    b.build().map_err(|e| format!("{e}"))
}

/// Relies on risc0_zkvm::serde::to_vec: the codec frames a byte vector
/// with a u32 length word and then writes each byte as one word, and for a
/// vector within the framing's range it cannot fail. It panics on a longer
/// vector, so such vectors are kept out.
#[verifier::external_body]
pub(crate) fn encode_bytes(value: &Vec<u8>) -> (r: Result<Vec<u32>, String>)
    requires
        value@.len() <= u32::MAX as usize,
    ensures
        r is Ok,
        r matches Ok(words) ==> words@ == bytes_encoding(value@),
{
    risc0_zkvm::serde::to_vec(value).map_err(|e| format!("{e}"))
}

/// Relies on risc0_zkvm::serde::to_vec: the codec frames a word vector
/// with a u32 length word and then writes the words themselves, and for a
/// vector within the framing's range it cannot fail. It panics on a longer
/// vector, so such vectors are kept out.
#[verifier::external_body]
pub(crate) fn encode_words(value: &Vec<u32>) -> (r: Result<Vec<u32>, String>)
    requires
        value@.len() <= u32::MAX as usize,
    ensures
        r is Ok,
        r matches Ok(words) ==> words@ == words_encoding(value@),
{
    risc0_zkvm::serde::to_vec(value).map_err(|e| format!("{e}"))
}

/// A shared handle to a RISC Zero proving engine. The handle is reference
/// counted, so one engine instance serves repeated sequential calls; the
/// harness never mutates it.
#[verifier::external_body]
pub struct ProverBackend {
    handle: std::rc::Rc<dyn risc0_zkvm::Prover>,
}

/// A shared handle to a RISC Zero execution engine. The handle is reference
/// counted, so one engine instance serves repeated sequential calls; the
/// harness never mutates it.
#[verifier::external_body]
pub struct ExecutorBackend {
    handle: std::rc::Rc<dyn risc0_zkvm::Executor>,
}

/// Relies on risc0_zkvm::default_prover: selects a proving engine from the
/// process environment and feature flags. Nothing is known of the choice,
/// and a misconfigured process environment — an engine selected there that
/// is not installed — makes the selection itself abort; no argument of the
/// harness can rule that out.
#[verifier::external_body]
pub(crate) fn default_prover_backend() -> (r: ProverBackend)
{
    ProverBackend { handle: risc0_zkvm::default_prover() }
}

/// Relies on risc0_zkvm::default_executor: selects an execution engine from
/// the process environment and feature flags. Nothing is known of the choice,
/// and a misconfigured process environment — an engine selected there that
/// is not installed — makes the selection itself abort; no argument of the
/// harness can rule that out.
#[verifier::external_body]
pub(crate) fn default_executor_backend() -> (r: ExecutorBackend)
{
    ExecutorBackend { handle: risc0_zkvm::default_executor() }
}

/// Relies on risc0_zkvm::Prover::prove: runs the guest binary under the
/// proving system with the given environment. The outcome depends on the
/// engine and the process environment, so nothing is promised of it.
#[verifier::external_body]
pub(crate) fn backend_prove(
    backend: &ProverBackend,
    env: risc0_zkvm::ExecutorEnv<'static>,
    elf: &[u8],
) -> (r: Result<risc0_zkvm::ProveInfo, String>)
{
    backend.handle.prove(env, elf).map_err(|e| format!("{e}"))
}

/// Relies on risc0_zkvm::Executor::execute: runs the guest binary with the
/// given environment, without proving. The outcome depends on the engine and
/// the process environment, so nothing is promised of it.
#[verifier::external_body]
pub(crate) fn backend_execute(
    backend: &ExecutorBackend,
    env: risc0_zkvm::ExecutorEnv<'static>,
    elf: &[u8],
) -> (r: Result<risc0_zkvm::SessionInfo, String>)
{
    backend.handle.execute(env, elf).map_err(|e| format!("{e}"))
}

/// Relies on risc0_zkvm::Receipt::verify: checks the proof cryptographically
/// against the given image identifier. The backend decides the outcome, so
/// nothing is promised of it.
#[verifier::external_body]
pub(crate) fn receipt_verify(
    receipt: &risc0_zkvm::Receipt,
    image_id: &[u32; 8],
) -> (r: Result<(), String>)
{
    receipt.verify(*image_id).map_err(|e| format!("{e}"))
}

/// Relies on bincode::ErrorKind's Display rendering, for diagnostics only.
#[verifier::external_body]
pub(crate) fn bincode_message(e: &bincode::Error) -> (r: String)
{
    format!("{e}")
}

} // verus!
