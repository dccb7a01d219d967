//! The two-state machine that gates every other part of the game.

use vstd::prelude::*;

verus! {

/// Whether a run is on.
#[derive(Clone, Copy, Debug, PartialEq, Eq, Hash, Structural)]
pub enum GameState {
    /// No run is on: the menu shows and the player hangs still.
    Waiting,
    /// A run is on: gravity acts, obstacles spawn and score.
    Running,
}

/// A transition was asked for into the state the machine is already in.
#[derive(Clone, Copy, Debug, PartialEq, Eq, Structural)]
pub struct InvalidTransition;

/// Holder of the current [`GameState`]. Its view is that state.
#[derive(Clone, Copy, Debug)]
pub struct StateMachine {
    current: GameState,
}

impl View for StateMachine {
    type V = GameState;

    closed spec fn view(&self) -> GameState {
        self.current
    }
}

impl StateMachine {
    /// A machine in the initial state, `Waiting`.
    pub fn new() -> (machine: Self)
        ensures
            machine@ == GameState::Waiting,
    {
        StateMachine { current: GameState::Waiting }
    }

    /// A machine in the given state.
    pub fn in_state(state: GameState) -> (machine: Self)
        ensures
            machine@ == state,
    {
        StateMachine { current: state }
    }

    /// The state the machine is in.
    pub fn current(&self) -> (state: GameState)
        ensures
            state == self@,
    {
        self.current
    }

    /// Moves the machine to `to`. Asking for the state it is already in is
    /// refused and changes nothing.
    pub fn transition(&mut self, to: GameState) -> (outcome: Result<(), InvalidTransition>)
        ensures
            outcome is Err <==> to == old(self)@,
            outcome is Ok ==> final(self)@ == to,
            outcome is Err ==> final(self)@ == old(self)@,
    {
        if self.current == to {
            Err(InvalidTransition)
        } else {
            self.current = to;
            Ok(())
        }
    }

    /// Brings the machine to `to`, whether or not it was there already.
    pub fn ensure(&mut self, to: GameState)
        ensures
            final(self)@ == to,
    {
        if self.current != to {
            self.current = to;
        }
    }
}

} // verus!
