use fuel_proving_games_risc0::{
    env_build_outcome, env_write_outcome, execution_outcome, proving_outcome,
    verification_outcome, Error,
};

#[test]
fn a_serialization_failure_is_the_environment_write_kind() {
    let r = env_write_outcome(Err("boom".to_string()));
    match r {
        Err(Error::FailedToWriteInputToProverEnv(msg)) => assert_eq!(msg, "boom"),
        _ => panic!("wrong kind"),
    }
}

#[test]
fn a_serialization_success_passes_through() {
    let r = env_write_outcome(Ok(vec![1, 2, 3]));
    assert_eq!(r.unwrap(), vec![1, 2, 3]);
}

#[test]
fn a_rejected_environment_is_the_environment_build_kind() {
    let r = env_build_outcome(Err("rejected".to_string()));
    match r {
        Err(Error::FailedToBuildProverEnv(msg)) => assert_eq!(msg, "rejected"),
        _ => panic!("wrong kind"),
    }
}

#[test]
fn an_engine_failure_without_proving_is_the_execution_kind() {
    let r = execution_outcome(Err("abort".to_string()));
    match r {
        Err(Error::FailedToExecuteProvingGame(msg)) => assert_eq!(msg, "abort"),
        _ => panic!("wrong kind"),
    }
}

#[test]
fn an_engine_failure_while_proving_is_the_proving_kind() {
    let r = proving_outcome(Err("abort".to_string()));
    match r {
        Err(Error::FailedToProveProvingGame(msg)) => assert_eq!(msg, "abort"),
        _ => panic!("wrong kind"),
    }
}

#[test]
fn a_failed_cryptographic_check_is_the_verification_kind() {
    let r = verification_outcome(Err("tampered".to_string()));
    match r {
        Err(Error::FailedToVerifyProof(msg)) => assert_eq!(msg, "tampered"),
        _ => panic!("wrong kind"),
    }
}

#[test]
fn a_passed_cryptographic_check_stays_a_success() {
    assert!(verification_outcome(Ok(())).is_ok());
}

#[test]
fn a_bincode_failure_converts_to_the_input_deserialization_kind() {
    let cause: bincode::Error = Box::new(bincode::ErrorKind::SizeLimit);
    let e = Error::from(cause);
    assert!(matches!(e, Error::FailedToDeserializeInput(_)));
    assert_eq!(e.kind_message(), "failed to deserialize input");
}

#[test]
fn kind_messages_name_each_kind() {
    assert_eq!(
        Error::FailedToWriteInputToProverEnv("x".to_string()).kind_message(),
        "failed to write input to environment"
    );
    assert_eq!(
        Error::FailedToBuildProverEnv("x".to_string()).kind_message(),
        "failed to build prover environment"
    );
    assert_eq!(
        Error::FailedToDeserializePublicOutput("x".to_string()).kind_message(),
        "failed to deserialize public output"
    );
    assert_eq!(
        Error::FailedToExecuteProvingGame("x".to_string()).kind_message(),
        "failed to execute proving game"
    );
    assert_eq!(
        Error::FailedToProveProvingGame("x".to_string()).kind_message(),
        "failed to prove proving game"
    );
    assert_eq!(
        Error::FailedToVerifyProof("x".to_string()).kind_message(),
        "failed to verify proof"
    );
    assert_eq!(Error::Fault("x".to_string()).kind_message(), "FAULT");
}

#[test]
fn the_cause_rides_along_for_diagnostics() {
    let e = Error::FailedToVerifyProof("bad seal".to_string());
    assert_eq!(e.cause_message(), "bad seal");
    let e = Error::Fault("expected 3, got 4".to_string());
    assert_eq!(e.cause_message(), "expected 3, got 4");
}
