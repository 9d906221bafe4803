//! Tests that drive the harness against the engine that the backend selects
//! by default. No r0vm server is installed here, so every run fails inside
//! the engine; what these tests pin down is that the failure surfaces as
//! exactly the right kind, after the environment was assembled successfully.

use fuel_proving_games_risc0::block_execution_game as beg;
use fuel_proving_games_risc0::decompression_game as dg;
use fuel_proving_games_risc0::environment::EnvBuilder;
use fuel_proving_games_risc0::input::InputValue;
use fuel_proving_games_risc0::Error;

fn decompression_game() -> dg::DecompressionGame {
    dg::DecompressionGame { binary: vec![0, 1, 2, 3], verification_id: [0; 8] }
}

fn block_execution_game() -> beg::BlockExecutionGame {
    beg::BlockExecutionGame { binary: vec![0, 1, 2, 3], verification_id: [0; 8] }
}

#[test]
fn an_engine_failure_surfaces_as_the_execution_kind() {
    let executor = dg::defaults::game_executor(decompression_game());
    let r = executor.execute(&[1, 2, 3, 4]);
    assert!(matches!(r, Err(Error::FailedToExecuteProvingGame(_))));
}

#[test]
fn an_engine_failure_surfaces_as_the_proving_kind() {
    let prover = dg::defaults::game_prover(decompression_game());
    let r = prover.prove(&[1, 2, 3, 4]);
    assert!(matches!(r, Err(Error::FailedToProveProvingGame(_))));
}

#[test]
fn execute_serializable_keeps_the_execution_kind() {
    let executor = dg::defaults::game_executor(decompression_game());
    let r = executor.execute_serializable(&InputValue::Bytes(vec![1, 2]));
    assert!(matches!(r, Err(Error::FailedToExecuteProvingGame(_))));
}

#[test]
fn execute_fixture_keeps_the_execution_kind() {
    let fixture = dg::Fixture {
        name: "empty compressed block".to_string(),
        input: InputValue::Bytes(Vec::new()),
    };
    let r = dg::defaults::execute_fixture(decompression_game(), fixture);
    assert!(matches!(r, Err(Error::FailedToExecuteProvingGame(_))));
}

#[test]
fn prove_fixture_keeps_the_proving_kind() {
    let fixture = beg::Fixture {
        name: "one transfer".to_string(),
        input: InputValue::Words(vec![1, 2, 3]),
    };
    let r = beg::defaults::prove_fixture(block_execution_game(), fixture);
    assert!(matches!(r, Err(Error::FailedToProveProvingGame(_))));
}

#[test]
fn block_execution_executor_keeps_the_execution_kind() {
    let fixture = beg::Fixture {
        name: "one transfer".to_string(),
        input: InputValue::Words(vec![1, 2, 3]),
    };
    let r = beg::defaults::execute_fixture(block_execution_game(), fixture);
    assert!(matches!(r, Err(Error::FailedToExecuteProvingGame(_))));
}

#[test]
fn a_with_env_run_reaches_the_engine_and_keeps_its_kind() {
    let executor = dg::defaults::game_executor(decompression_game());
    let r = executor.execute_with_env(|mut b: EnvBuilder| {
        b.write_slice(&[9, 9, 9]);
        Ok(b)
    });
    assert!(matches!(r, Err(Error::FailedToExecuteProvingGame(_))));
}

#[test]
fn a_with_env_configuration_error_passes_through_unchanged() {
    let prover = dg::defaults::game_prover(decompression_game());
    let r = prover.prove_with_env(|_b: EnvBuilder| Err(Error::Fault("mismatch".to_string())));
    match r {
        Err(Error::Fault(msg)) => assert_eq!(msg, "mismatch"),
        _ => panic!("the configuration error was not passed through"),
    }
}

#[test]
fn a_receipt_without_integrity_fails_with_the_verification_kind() {
    let id: [u32; 8] = [1, 2, 3, 4, 5, 6, 7, 8];
    let claim = risc0_zkvm::ReceiptClaim::ok(id, vec![0u8; 4]);
    let receipt = risc0_zkvm::Receipt::new(
        risc0_zkvm::InnerReceipt::Fake(risc0_zkvm::FakeReceipt::new(claim)),
        vec![0u8; 4],
    );
    let game = dg::DecompressionGame { binary: vec![0], verification_id: id };
    let prover = dg::defaults::game_prover(game);
    let r = prover.verify_receipt(&receipt);
    assert!(matches!(r, Err(Error::FailedToVerifyProof(_))));
}

#[test]
fn a_receipt_for_another_identifier_fails_with_the_verification_kind() {
    let produced_under: [u32; 8] = [1, 1, 1, 1, 1, 1, 1, 1];
    let checked_against: [u32; 8] = [2, 2, 2, 2, 2, 2, 2, 2];
    let claim = risc0_zkvm::ReceiptClaim::ok(produced_under, Vec::<u8>::new());
    let receipt = risc0_zkvm::Receipt::new(
        risc0_zkvm::InnerReceipt::Fake(risc0_zkvm::FakeReceipt::new(claim)),
        Vec::new(),
    );
    let game = dg::DecompressionGame { binary: vec![0], verification_id: checked_against };
    let prover = dg::defaults::game_prover(game);
    let r = prover.verify_receipt(&receipt);
    assert!(matches!(r, Err(Error::FailedToVerifyProof(_))));
}
