use bubly::component::{Bird, InputSample, Interaction, MainMenu};
use bubly::state::{GameState, StateMachine};
use bubly::system::input::{clicked, jump, start_game};

const QUIET: InputSample =
    InputSample { key_pressed: false, key_just_pressed: false, pointer_just_pressed: false };

fn resting() -> Bird {
    Bird { x: 0, y: 0, rotation: 0, linvel_x: 0, linvel_y: 0, angvel: 0, gravity_scale: 0 }
}

fn falling() -> Bird {
    Bird {
        x: 0,
        y: -30_000,
        rotation: -400,
        linvel_x: 12,
        linvel_y: -300_000,
        angvel: 0,
        gravity_scale: 15_000,
    }
}

#[test]
fn click_is_found_among_interactions() {
    assert!(!clicked(&[]));
    assert!(!clicked(&[Interaction::Hovered, Interaction::Untouched]));
    assert!(clicked(&[Interaction::Hovered, Interaction::Clicked]));
}

#[test]
fn held_key_starts_a_run() {
    let mut player = Some(resting());
    let mut machine = StateMachine::new();
    let mut menu = MainMenu { z: 10_000 };
    let input = InputSample { key_pressed: true, ..QUIET };
    assert!(start_game(&input, &[], &mut player, &mut machine, &mut menu));
    assert_eq!(machine.current(), GameState::Running);
    assert_eq!(menu.z, -1_000);
    assert_eq!(player, Some(Bird { gravity_scale: 15_000, ..resting() }));
}

#[test]
fn pointer_or_button_starts_a_run() {
    for (input, interactions) in [
        (InputSample { pointer_just_pressed: true, ..QUIET }, vec![]),
        (QUIET, vec![Interaction::Clicked]),
        (QUIET, vec![Interaction::Untouched, Interaction::Hovered, Interaction::Clicked]),
    ] {
        let mut player = Some(resting());
        let mut machine = StateMachine::new();
        let mut menu = MainMenu { z: 10_000 };
        assert!(start_game(&input, &interactions, &mut player, &mut machine, &mut menu));
        assert_eq!(machine.current(), GameState::Running);
        assert_eq!(player.unwrap().gravity_scale, 15_000);
    }
}

#[test]
fn all_sources_at_once_are_one_pulse() {
    let all = InputSample { key_pressed: true, key_just_pressed: true, pointer_just_pressed: true };
    let one = InputSample { key_just_pressed: true, ..QUIET };
    let buttons = [Interaction::Clicked, Interaction::Clicked];

    let mut started = Some(resting());
    let mut machine = StateMachine::new();
    let mut menu = MainMenu { z: 10_000 };
    assert!(start_game(&all, &buttons, &mut started, &mut machine, &mut menu));
    assert_eq!(started, Some(Bird { gravity_scale: 15_000, ..resting() }));

    let running = StateMachine::in_state(GameState::Running);
    let mut by_all = Some(falling());
    let mut by_one = Some(falling());
    assert!(jump(&all, &running, &mut by_all));
    assert!(jump(&one, &running, &mut by_one));
    assert_eq!(by_all, by_one);
    assert_eq!(by_all.unwrap().linvel_y, 600_000);
}

#[test]
fn no_pulse_starts_nothing() {
    let mut player = Some(resting());
    let mut machine = StateMachine::new();
    let mut menu = MainMenu { z: 10_000 };
    let input = InputSample { key_just_pressed: true, ..QUIET };
    let hovered = [Interaction::Hovered];
    assert!(!start_game(&input, &hovered, &mut player, &mut machine, &mut menu));
    assert_eq!(machine.current(), GameState::Waiting);
    assert_eq!(menu.z, 10_000);
    assert_eq!(player, Some(resting()));
}

#[test]
fn start_has_no_effect_while_running() {
    let mut player = Some(falling());
    let mut machine = StateMachine::in_state(GameState::Running);
    let mut menu = MainMenu { z: 10_000 };
    let input = InputSample { key_pressed: true, ..QUIET };
    assert!(!start_game(&input, &[], &mut player, &mut machine, &mut menu));
    assert_eq!(machine.current(), GameState::Running);
    assert_eq!(menu.z, 10_000);
    assert_eq!(player, Some(falling()));
}

#[test]
fn start_has_no_effect_without_a_player() {
    let mut player = None;
    let mut machine = StateMachine::new();
    let mut menu = MainMenu { z: 10_000 };
    let input = InputSample { key_pressed: true, ..QUIET };
    assert!(!start_game(&input, &[Interaction::Clicked], &mut player, &mut machine, &mut menu));
    assert_eq!(machine.current(), GameState::Waiting);
    assert_eq!(menu.z, 10_000);
    assert_eq!(player, None);
}

#[test]
fn jump_overwrites_the_velocity() {
    let machine = StateMachine::in_state(GameState::Running);
    let input = InputSample { key_pressed: true, key_just_pressed: true, ..QUIET };
    let mut player = Some(falling());
    assert!(jump(&input, &machine, &mut player));
    assert_eq!(
        player,
        Some(Bird { linvel_x: 0, linvel_y: 600_000, rotation: 300, ..falling() })
    );
    assert!(jump(&input, &machine, &mut player));
    assert_eq!(player.unwrap().linvel_y, 600_000);
}

#[test]
fn held_key_does_not_jump() {
    let machine = StateMachine::in_state(GameState::Running);
    let input = InputSample { key_pressed: true, ..QUIET };
    let mut player = Some(falling());
    assert!(!jump(&input, &machine, &mut player));
    assert_eq!(player, Some(falling()));
}

#[test]
fn jump_has_no_effect_while_waiting_or_without_a_player() {
    let input = InputSample { pointer_just_pressed: true, ..QUIET };
    let waiting = StateMachine::new();
    let mut player = Some(resting());
    assert!(!jump(&input, &waiting, &mut player));
    assert_eq!(player, Some(resting()));
    let running = StateMachine::in_state(GameState::Running);
    let mut nobody = None;
    assert!(!jump(&input, &running, &mut nobody));
    assert_eq!(nobody, None);
}
