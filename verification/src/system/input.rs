//! From sampled input to the start of a run or a jump.

use crate::component::{gravity_matches_state, Bird, InputSample, Interaction, MainMenu};
use crate::state::{GameState, StateMachine};
use crate::units::{ACTIVE_GRAVITY, JUMP_TILT, JUMP_VELOCITY, MENU_BEHIND};
use vstd::prelude::*;

verus! {

/// Whether any button reports a click.
pub open spec fn any_clicked(interactions: Seq<Interaction>) -> bool {
    exists|i: int| 0 <= i < interactions.len() && #[trigger] interactions[i] == Interaction::Clicked
}

/// Whether the tick holds a pulse that starts a run: the key is down, the
/// pointer went down, or a button was clicked. However many of the sources
/// are active, it is one pulse.
pub open spec fn start_pulse(input: InputSample, interactions: Seq<Interaction>) -> bool {
    input.key_pressed || input.pointer_just_pressed || any_clicked(interactions)
}

/// Whether the tick holds a fresh pulse, one that a held key does not
/// repeat: the key or the pointer went down in this tick.
pub open spec fn jump_pulse(input: InputSample) -> bool {
    input.key_just_pressed || input.pointer_just_pressed
}

/// The player as a run begins: as before, with gravity switched on.
pub open spec fn launched(bird: Bird) -> Bird {
    Bird { gravity_scale: ACTIVE_GRAVITY, ..bird }
}

/// The player after a jump: the vertical velocity is set, not added to,
/// the horizontal one is cleared, and the head is tilted up.
pub open spec fn jumped(bird: Bird) -> Bird {
    Bird { linvel_x: 0, linvel_y: JUMP_VELOCITY, rotation: JUMP_TILT, ..bird }
}

/// Computes [`any_clicked`].
pub fn clicked(interactions: &[Interaction]) -> (found: bool)
    ensures
        found == any_clicked(interactions@),
{
    let mut i: usize = 0;
    while i < interactions.len()
        invariant
            i <= interactions.len(),
            forall|j: int| 0 <= j < i ==> #[trigger] interactions@[j] != Interaction::Clicked,
        decreases interactions.len() - i,
    {
        if interactions[i] == Interaction::Clicked {
            return true;
        }
        i = i + 1;
    }
    false
}

/// Puts the menu behind the scene.
fn hide_menu(menu: &mut MainMenu)
    ensures
        final(menu).z == MENU_BEHIND,
{
    menu.z = MENU_BEHIND;
}

/// Starts a run on a pulse while the machine waits.
///
/// With a player, the machine in `Waiting` and a start pulse in the tick,
/// the menu is hidden, the machine goes to `Running` and gravity is
/// switched on for the player; the result is `true`. In every other case
/// nothing changes and the result is `false`.
pub fn start_game(
    input: &InputSample,
    interactions: &[Interaction],
    player: &mut Option<Bird>,
    machine: &mut StateMachine,
    menu: &mut MainMenu,
) -> (started: bool)
    ensures
        started == (old(machine)@ == GameState::Waiting && *old(player) is Some && start_pulse(
            *input,
            interactions@,
        )),
        started ==> {
            &&& final(machine)@ == GameState::Running
            &&& final(menu).z == MENU_BEHIND
            &&& (*old(player) matches Some(bird) && *final(player) == Some(launched(bird)))
        },
        !started ==> {
            &&& final(machine)@ == old(machine)@
            &&& *final(menu) == *old(menu)
            &&& *final(player) == *old(player)
        },
        gravity_matches_state(old(machine)@, *old(player)) ==> gravity_matches_state(
            final(machine)@,
            *final(player),
        ),
{
    if machine.current() != GameState::Waiting {
        return false;
    }
    match *player {
        None => false,
        Some(bird) => {
            if input.key_pressed || input.pointer_just_pressed || clicked(interactions) {
                hide_menu(menu);
                machine.ensure(GameState::Running);
                let mut falling = bird;
                falling.gravity_scale = ACTIVE_GRAVITY;
                *player = Some(falling);
                true
            } else {
                false
            }
        },
    }
}

/// Makes the player jump on a fresh pulse while a run is on.
///
/// With a player, the machine in `Running` and a fresh pulse in the tick,
/// the player is given the jump's velocity and tilt, see [`jumped`]; the
/// result is `true`. In every other case nothing changes and the result is
/// `false`.
pub fn jump(input: &InputSample, machine: &StateMachine, player: &mut Option<Bird>) -> (leapt: bool)
    ensures
        leapt == (machine@ == GameState::Running && *old(player) is Some && jump_pulse(*input)),
        leapt ==> (*old(player) matches Some(bird) && *final(player) == Some(jumped(bird))),
        !leapt ==> *final(player) == *old(player),
        gravity_matches_state(machine@, *old(player)) ==> gravity_matches_state(
            machine@,
            *final(player),
        ),
{
    if machine.current() != GameState::Running {
        return false;
    }
    match *player {
        None => false,
        Some(bird) => {
            if input.key_just_pressed || input.pointer_just_pressed {
                let mut rising = bird;
                rising.linvel_y = JUMP_VELOCITY;
                rising.linvel_x = 0;
                rising.rotation = JUMP_TILT;
                *player = Some(rising);
                true
            } else {
                false
            }
        },
    }
}

} // verus!
