//! The generic proving-game harness.
//!
//! A game descriptor binds a compiled guest binary to the identifier that
//! commits to it and maps fixtures to input values. The prover and the
//! executor share that contract and the environment builder; they differ
//! only in what the backend produces — a proof artifact or a bare session
//! report — and in the error kind they surface.

use vstd::prelude::*;

use crate::backend::{backend_execute, backend_prove, receipt_verify, ExecutorBackend, ProverBackend};
use crate::environment::EnvBuilder;
use crate::input::{input_len, InputValue, InputValueView};
use crate::Error;

verus! {

/// The capability contract of one game: its compiled guest binary, the
/// fixed-width identifier that commits to that binary, and the mapping from
/// fixtures to input values. Purely static data; all failures are deferred
/// to the components that consume these values.
///
/// The identifier must be the one generated for exactly the binary; the
/// harness trusts the descriptor's author, and a mismatched pair only
/// surfaces when a receipt is later verified.
pub trait GameConfig: Sized {
    /// The type of fixture used in this game.
    type Fixture;

    /// The bytes of the compiled guest binary.
    spec fn spec_elf(&self) -> Seq<u8>;

    /// The identifier that commits to the guest binary.
    spec fn spec_id(&self) -> [u32; 8];

    /// The input value a fixture feeds the guest.
    spec fn spec_fixture_input(&self, fixture: Self::Fixture) -> InputValueView;

    /// Get the guest binary for this game.
    fn elf(&self) -> (r: &Vec<u8>)
        ensures
            r@ == self.spec_elf(),
    ;

    /// Get the identifier for this game, used for verification.
    fn id(&self) -> (r: [u32; 8])
        ensures
            r == self.spec_id(),
    ;

    /// Get the input value for a specific fixture.
    fn get_fixture_input(&self, fixture: &Self::Fixture) -> (r: InputValue)
        ensures
            r@ == self.spec_fixture_input(*fixture),
    ;
}

/// A generic prover for zkVM games.
pub struct GameProver<G: GameConfig> {
    /// The shared proving engine handle; reused across sequential calls and
    /// never mutated by the harness.
    pub prover: ProverBackend,
    /// The game descriptor.
    pub game: G,
}

impl<G: GameConfig> GameProver<G> {
    /// Create a new GameProver wrapping the given proving engine.
    pub fn new(prover: ProverBackend, game: G) -> (r: GameProver<G>)
        ensures
            r.prover == prover,
            r.game == game,
    {
        GameProver { prover, game }
    }

    /// Prove the game using raw input bytes. A single attempt: a rejected
    /// environment or an engine failure is returned at once, as exactly the
    /// environment-build or the proving kind, and nothing is retried.
    pub fn prove(&self, input: &[u8]) -> (r: Result<risc0_zkvm::ProveInfo, Error>)
        ensures
            r matches Err(e) ==> (e matches Error::FailedToBuildProverEnv(_) || e matches Error::FailedToProveProvingGame(_)),
    {
        let mut env = EnvBuilder::new();
        env.write_slice(input);
        let env = match env.finalize() {
            Ok(env) => env,
            Err(e) => {
                return Err(e);
            },
        };
        crate::proving_outcome(backend_prove(&self.prover, env, self.game.elf().as_slice()))
    }

    /// Prove the game using a serializable input. Beyond the raw-bytes
    /// failures, a value too long for the codec's length framing — the one
    /// value the codec cannot take — is returned as exactly the
    /// environment-write kind, before the engine is reached; no other input
    /// ever yields that kind.
    pub fn prove_serializable(&self, input: &InputValue) -> (r: Result<
        risc0_zkvm::ProveInfo,
        Error,
    >)
        ensures
            r matches Err(e) ==> (e matches Error::FailedToWriteInputToProverEnv(_) || e matches Error::FailedToBuildProverEnv(_) || e matches Error::FailedToProveProvingGame(_)),
            input_len(input@) > u32::MAX ==> r matches Err(Error::FailedToWriteInputToProverEnv(_)),
            input_len(input@) <= u32::MAX ==> !(r matches Err(
                Error::FailedToWriteInputToProverEnv(_),
            )),
    {
        let mut env = EnvBuilder::new();
        match env.write(input) {
            Ok(_) => (),
            Err(e) => {
                return Err(e);
            },
        }
        let env = match env.finalize() {
            Ok(env) => env,
            Err(e) => {
                return Err(e);
            },
        };
        crate::proving_outcome(backend_prove(&self.prover, env, self.game.elf().as_slice()))
    }

    /// Prove using a test fixture. The fixture's input value follows the
    /// serializable path, with the same bounds.
    pub fn prove_fixture(&self, fixture: G::Fixture) -> (r: Result<risc0_zkvm::ProveInfo, Error>)
        ensures
            r matches Err(e) ==> (e matches Error::FailedToWriteInputToProverEnv(_) || e matches Error::FailedToBuildProverEnv(_) || e matches Error::FailedToProveProvingGame(_)),
            input_len(self.game.spec_fixture_input(fixture)) > u32::MAX ==> r matches Err(
                Error::FailedToWriteInputToProverEnv(_),
            ),
            input_len(self.game.spec_fixture_input(fixture)) <= u32::MAX ==> !(r matches Err(
                Error::FailedToWriteInputToProverEnv(_),
            )),
    {
        let raw_input = self.game.get_fixture_input(&fixture);
        self.prove_serializable(&raw_input)
    }

    /// Configure a custom environment and then prove with it. The caller's
    /// function receives a fresh, empty builder; an error of its own is
    /// passed through unchanged and stops the call before the engine, and
    /// the build and proving kinds arise only once it has succeeded.
    pub fn prove_with_env<F: FnOnce(EnvBuilder) -> Result<EnvBuilder, Error>>(&self, f: F) -> (r:
        Result<risc0_zkvm::ProveInfo, Error>)
        requires
            forall|b: EnvBuilder| b@ == Seq::<u8>::empty() ==> call_requires(f, (b,)),
        ensures
            r matches Ok(_) ==> (exists|b: EnvBuilder, b2: EnvBuilder|
                b@ == Seq::<u8>::empty() && #[trigger] call_ensures(f, (b,), Ok(b2))),
            r matches Err(e) ==> ((exists|b: EnvBuilder|
                b@ == Seq::<u8>::empty() && call_ensures(f, (b,), Err(e)))
                || ((e matches Error::FailedToBuildProverEnv(_)
                || e matches Error::FailedToProveProvingGame(_)) && (exists|
                    b: EnvBuilder,
                    b2: EnvBuilder,
                |
                    b@ == Seq::<u8>::empty() && #[trigger] call_ensures(f, (b,), Ok(b2))))),
    {
        let fresh = EnvBuilder::new();
        let ghost handed = fresh;
        let builder = match f(fresh) {
            Ok(builder) => builder,
            Err(e) => {
                return Err(e);
            },
        };
        proof {
            assert(handed@ == Seq::<u8>::empty() && call_ensures(
                f,
                (handed,),
                Ok::<EnvBuilder, Error>(builder),
            ));
        }
        let env = match builder.finalize() {
            Ok(env) => env,
            Err(e) => {
                return Err(e);
            },
        };
        crate::proving_outcome(backend_prove(&self.prover, env, self.game.elf().as_slice()))
    }

    /// Verify a receipt against this game's identifier. Verification is
    /// side-effect-free; a failed cryptographic check — a tampered receipt,
    /// a receipt produced for a different binary, or a corrupted proof — is
    /// returned as exactly the verification kind, never silently and never
    /// as another kind.
    pub fn verify_receipt(&self, receipt: &risc0_zkvm::Receipt) -> (r: Result<(), Error>)
        ensures
            r matches Err(e) ==> e matches Error::FailedToVerifyProof(_),
    {
        let id = self.game.id();
        crate::verification_outcome(receipt_verify(receipt, &id))
    }
}

/// A generic executor for zkVM games.
pub struct GameExecutor<G: GameConfig> {
    /// The shared execution engine handle; reused across sequential calls
    /// and never mutated by the harness.
    pub executor: ExecutorBackend,
    /// The game descriptor.
    pub game: G,
}

impl<G: GameConfig> GameExecutor<G> {
    /// Create a new GameExecutor wrapping the given execution engine.
    pub fn new(executor: ExecutorBackend, game: G) -> (r: GameExecutor<G>)
        ensures
            r.executor == executor,
            r.game == game,
    {
        GameExecutor { executor, game }
    }

    /// Execute the game using raw input bytes. A single attempt: a rejected
    /// environment or an engine failure is returned at once, as exactly the
    /// environment-build or the execution kind, and nothing is retried.
    pub fn execute(&self, input: &[u8]) -> (r: Result<risc0_zkvm::SessionInfo, Error>)
        ensures
            r matches Err(e) ==> (e matches Error::FailedToBuildProverEnv(_) || e matches Error::FailedToExecuteProvingGame(_)),
    {
        let mut env = EnvBuilder::new();
        env.write_slice(input);
        let env = match env.finalize() {
            Ok(env) => env,
            Err(e) => {
                return Err(e);
            },
        };
        crate::execution_outcome(backend_execute(&self.executor, env, self.game.elf().as_slice()))
    }

    /// Execute the game using a serializable input. Beyond the raw-bytes
    /// failures, a value too long for the codec's length framing — the one
    /// value the codec cannot take — is returned as exactly the
    /// environment-write kind, before the engine is reached; no other input
    /// ever yields that kind.
    pub fn execute_serializable(&self, input: &InputValue) -> (r: Result<
        risc0_zkvm::SessionInfo,
        Error,
    >)
        ensures
            r matches Err(e) ==> (e matches Error::FailedToWriteInputToProverEnv(_) || e matches Error::FailedToBuildProverEnv(_) || e matches Error::FailedToExecuteProvingGame(_)),
            input_len(input@) > u32::MAX ==> r matches Err(Error::FailedToWriteInputToProverEnv(_)),
            input_len(input@) <= u32::MAX ==> !(r matches Err(
                Error::FailedToWriteInputToProverEnv(_),
            )),
    {
        let mut env = EnvBuilder::new();
        match env.write(input) {
            Ok(_) => (),
            Err(e) => {
                return Err(e);
            },
        }
        let env = match env.finalize() {
            Ok(env) => env,
            Err(e) => {
                return Err(e);
            },
        };
        crate::execution_outcome(backend_execute(&self.executor, env, self.game.elf().as_slice()))
    }

    /// Execute using a test fixture. The fixture's input value follows the
    /// serializable path, with the same bounds.
    pub fn execute_fixture(&self, fixture: G::Fixture) -> (r: Result<
        risc0_zkvm::SessionInfo,
        Error,
    >)
        ensures
            r matches Err(e) ==> (e matches Error::FailedToWriteInputToProverEnv(_) || e matches Error::FailedToBuildProverEnv(_) || e matches Error::FailedToExecuteProvingGame(_)),
            input_len(self.game.spec_fixture_input(fixture)) > u32::MAX ==> r matches Err(
                Error::FailedToWriteInputToProverEnv(_),
            ),
            input_len(self.game.spec_fixture_input(fixture)) <= u32::MAX ==> !(r matches Err(
                Error::FailedToWriteInputToProverEnv(_),
            )),
    {
        let raw_input = self.game.get_fixture_input(&fixture);
        self.execute_serializable(&raw_input)
    }

    /// Configure a custom environment and then execute with it. The
    /// caller's function receives a fresh, empty builder; an error of its
    /// own is passed through unchanged and stops the call before the
    /// engine, and the build and execution kinds arise only once it has
    /// succeeded.
    pub fn execute_with_env<F: FnOnce(EnvBuilder) -> Result<EnvBuilder, Error>>(&self, f: F) -> (r:
        Result<risc0_zkvm::SessionInfo, Error>)
        requires
            forall|b: EnvBuilder| b@ == Seq::<u8>::empty() ==> call_requires(f, (b,)),
        ensures
            r matches Ok(_) ==> (exists|b: EnvBuilder, b2: EnvBuilder|
                b@ == Seq::<u8>::empty() && #[trigger] call_ensures(f, (b,), Ok(b2))),
            r matches Err(e) ==> ((exists|b: EnvBuilder|
                b@ == Seq::<u8>::empty() && call_ensures(f, (b,), Err(e)))
                || ((e matches Error::FailedToBuildProverEnv(_)
                || e matches Error::FailedToExecuteProvingGame(_)) && (exists|
                    b: EnvBuilder,
                    b2: EnvBuilder,
                |
                    b@ == Seq::<u8>::empty() && #[trigger] call_ensures(f, (b,), Ok(b2))))),
    {
        let fresh = EnvBuilder::new();
        let ghost handed = fresh;
        let builder = match f(fresh) {
            Ok(builder) => builder,
            Err(e) => {
                return Err(e);
            },
        };
        proof {
            assert(handed@ == Seq::<u8>::empty() && call_ensures(
                f,
                (handed,),
                Ok::<EnvBuilder, Error>(builder),
            ));
        }
        let env = match builder.finalize() {
            Ok(env) => env,
            Err(e) => {
                return Err(e);
            },
        };
        crate::execution_outcome(backend_execute(&self.executor, env, self.game.elf().as_slice()))
    }
}

} // verus!
