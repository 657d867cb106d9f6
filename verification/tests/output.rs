use chip8::cpu_helpers::ExecutionResult;
use chip8::output::OutputState;

#[test]
fn output_state_hands_its_byte_back() {
    let state = OutputState::new(7);
    assert_eq!(state.get(), 7);
    assert_eq!(state.test, 7);
}

#[test]
fn execution_result_keeps_its_fields() {
    let result = ExecutionResult::new(vec![0, 1, 0], true);
    assert_eq!(result.display_state, vec![0, 1, 0]);
    assert!(result.should_beep);
}
