use fuel_proving_games_risc0::block_execution_game as beg;
use fuel_proving_games_risc0::common::GameConfig;
use fuel_proving_games_risc0::decompression_game as dg;
use fuel_proving_games_risc0::input::InputValue;

#[test]
fn block_execution_descriptor_hands_back_its_parts() {
    let game = beg::BlockExecutionGame {
        binary: vec![1, 2, 3],
        verification_id: [1, 2, 3, 4, 5, 6, 7, 8],
    };
    assert_eq!(game.elf().as_slice(), &[1u8, 2, 3]);
    assert_eq!(game.id(), [1, 2, 3, 4, 5, 6, 7, 8]);
}

#[test]
fn block_execution_fixture_input_is_the_fixture_value() {
    let game = beg::BlockExecutionGame { binary: vec![0], verification_id: [0; 8] };
    let fixture = beg::Fixture {
        name: "empty block".to_string(),
        input: InputValue::Bytes(vec![4, 2]),
    };
    let input = game.get_fixture_input(&fixture);
    assert!(matches!(input, InputValue::Bytes(b) if b == vec![4, 2]));
}

#[test]
fn decompression_descriptor_hands_back_its_parts() {
    let game = dg::DecompressionGame {
        binary: vec![9, 9],
        verification_id: [8, 7, 6, 5, 4, 3, 2, 1],
    };
    assert_eq!(game.elf().as_slice(), &[9u8, 9]);
    assert_eq!(game.id(), [8, 7, 6, 5, 4, 3, 2, 1]);
}

#[test]
fn decompression_fixture_input_is_the_fixture_value() {
    let game = dg::DecompressionGame { binary: vec![0], verification_id: [0; 8] };
    let fixture = dg::Fixture {
        name: "empty compressed block".to_string(),
        input: InputValue::Bytes(Vec::new()),
    };
    let input = game.get_fixture_input(&fixture);
    assert!(matches!(input, InputValue::Bytes(b) if b.is_empty()));
}
