use bubly::state::{GameState, InvalidTransition, StateMachine};

#[test]
fn machine_starts_waiting() {
    let machine = StateMachine::new();
    assert_eq!(machine.current(), GameState::Waiting);
}

#[test]
fn transition_between_the_two_states() {
    let mut machine = StateMachine::new();
    assert_eq!(machine.transition(GameState::Running), Ok(()));
    assert_eq!(machine.current(), GameState::Running);
    assert_eq!(machine.transition(GameState::Waiting), Ok(()));
    assert_eq!(machine.current(), GameState::Waiting);
}

#[test]
fn transition_to_current_state_is_refused() {
    let mut machine = StateMachine::new();
    assert_eq!(machine.transition(GameState::Waiting), Err(InvalidTransition));
    assert_eq!(machine.current(), GameState::Waiting);
    let mut running = StateMachine::in_state(GameState::Running);
    assert_eq!(running.transition(GameState::Running), Err(InvalidTransition));
    assert_eq!(running.current(), GameState::Running);
}

#[test]
fn ensure_is_silent_when_already_there() {
    let mut machine = StateMachine::in_state(GameState::Running);
    machine.ensure(GameState::Running);
    assert_eq!(machine.current(), GameState::Running);
    machine.ensure(GameState::Waiting);
    assert_eq!(machine.current(), GameState::Waiting);
}
