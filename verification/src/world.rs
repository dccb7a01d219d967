//! The whole of the game's state in one record, and the order in which the
//! systems of a tick act on it.

use crate::component::{
    gravity_matches_state, AnimationTimer, Bird, Boundary, CollisionEvent, FinalResult, GameData,
    GameOverEvent, HighScore, InputSample, Interaction, MainMenu, Obstacle, Score, Scroll,
    Viewport,
};
use crate::state::{GameState, StateMachine};
use crate::system::input::{jump, jump_pulse, jumped, launched, start_game, start_pulse};
use crate::system::spawn::{
    drop_oor_obstacles, extended_by, flap_anim, has_room, kept, next_frame, spawn_due, SpawnError,
};
use crate::system::{
    best_of, bird_crash, birdhead_direction, crash_begins, credited, crossings, highest_text,
    infinitive_ground, reset_player, score, show_menu, tilted,
};
use crate::text::decimal;
use crate::timer::Timer;
use crate::units::{FLAP_FRAMES, MENU_BEHIND, MENU_FRONT};
use vstd::prelude::*;

verus! {

/// Everything the rules read and change, passed through the systems of a
/// tick by reference.
pub struct World {
    pub viewport: Viewport,
    pub machine: StateMachine,
    pub player: Option<Bird>,
    pub obstacles: Vec<Obstacle>,
    pub scrolls: Vec<Scroll>,
    pub boundaries: Vec<Boundary>,
    pub score: Score,
    pub data: GameData,
    pub menu: MainMenu,
    pub final_result: FinalResult,
    pub high_score: HighScore,
    pub spawn_timer: Timer,
    pub flap_timer: AnimationTimer,
    /// The frame of the player's animation that shows.
    pub frame: usize,
}

/// The obstacles after the scorer has seen each of them.
pub open spec fn all_credited(obstacles: Seq<Obstacle>) -> Seq<Obstacle> {
    obstacles.map_values(|obstacle: Obstacle| credited(obstacle))
}

/// The player after the tilt system has seen it, if there is one.
pub open spec fn sunk(player: Option<Bird>) -> Option<Bird> {
    match player {
        Some(bird) => Some(tilted(bird)),
        None => None,
    }
}

impl World {
    /// What holds of the world between any two ticks: gravity acts on the
    /// player exactly while a run is on.
    pub open spec fn wf(&self) -> bool {
        gravity_matches_state(self.machine@, self.player)
    }

    /// Whether the contacts of a tick end the run that is on.
    pub open spec fn crashes(&self, events: Seq<CollisionEvent>) -> bool {
        self.machine@ == GameState::Running && crash_begins(events)
    }

    /// Whether the score has room for what the obstacles would add in a
    /// tick with these contacts.
    pub open spec fn score_fits(&self, events: Seq<CollisionEvent>) -> bool {
        self.machine@ == GameState::Running && !crash_begins(events) ==> self.score.value
            + crossings(self.obstacles@) <= u64::MAX
    }

    /// The first half of a tick, before the physics step: input.
    ///
    /// While waiting, a start pulse begins a run; while a run is on, a
    /// fresh pulse makes the player jump. The two never act in one tick,
    /// and without a player input does nothing. The result tells whether
    /// the input had an effect.
    pub fn before_physics(&mut self, input: &InputSample, interactions: &[Interaction]) -> (acted:
        bool)
        requires
            old(self).wf(),
        ensures
            final(self).wf(),
            *final(self) == (World {
                machine: final(self).machine,
                menu: final(self).menu,
                player: final(self).player,
                ..*old(self)
            }),
            old(self).machine@ == GameState::Waiting ==> {
                &&& acted == (old(self).player is Some && start_pulse(*input, interactions@))
                &&& acted ==> {
                    &&& final(self).machine@ == GameState::Running
                    &&& final(self).menu.z == MENU_BEHIND
                    &&& (old(self).player matches Some(bird) && final(self).player == Some(
                        launched(bird),
                    ))
                }
            },
            old(self).machine@ == GameState::Running ==> {
                &&& acted == (old(self).player is Some && jump_pulse(*input))
                &&& acted ==> {
                    &&& final(self).machine@ == GameState::Running
                    &&& final(self).menu == old(self).menu
                    &&& (old(self).player matches Some(bird) && final(self).player == Some(
                        jumped(bird),
                    ))
                }
            },
            !acted ==> {
                &&& final(self).machine@ == old(self).machine@
                &&& final(self).menu == old(self).menu
                &&& final(self).player == old(self).player
            },
    {
        if self.machine.current() == GameState::Waiting {
            start_game(input, interactions, &mut self.player, &mut self.machine, &mut self.menu)
        } else {
            jump(input, &self.machine, &mut self.player)
        }
    }

    /// The second half of a tick, after the physics step, given the
    /// contacts that the step reported and the time `delta` that it took.
    ///
    /// In this order: while a run is on, a crash ends it and brings up the
    /// menu; what is still running is scored and the player's head sinks;
    /// obstacles that have left are removed and those that are due are
    /// added; the strips wrap around; the animation advances. A crash thus
    /// resets the world before anything could score or spawn in the same
    /// tick.
    ///
    /// The result is the game-over signal if the run ended. It is an error
    /// if obstacles were due in a run and the viewport has no room for
    /// one; everything else of the tick has happened then all the same.
    pub fn after_physics(&mut self, events: &[CollisionEvent], delta: u64) -> (outcome: Result<
        Option<GameOverEvent>,
        SpawnError,
    >)
        requires
            old(self).wf(),
            old(self).score_fits(events@),
        ensures
            final(self).wf(),
            final(self).viewport == old(self).viewport,
            final(self).boundaries == old(self).boundaries,
            old(self).crashes(events@) ==> {
                &&& outcome == Ok::<Option<GameOverEvent>, SpawnError>(Some(GameOverEvent))
                &&& final(self).machine@ == GameState::Waiting
                &&& final(self).player == reset_player(old(self).player)
                &&& final(self).obstacles@.len() == 0
                &&& final(self).data.score == old(self).score.value
                &&& final(self).data.highest_score == best_of(
                    old(self).data.highest_score,
                    old(self).score.value,
                )
                &&& final(self).score.value == 0
                &&& final(self).menu.z == MENU_FRONT
                &&& final(self).final_result.text@ == decimal(old(self).score.value as nat)
                &&& final(self).high_score.text@ == highest_text(final(self).data.highest_score)
            },
            !old(self).crashes(events@) ==> {
                &&& final(self).machine@ == old(self).machine@
                &&& final(self).data == old(self).data
                &&& final(self).menu == old(self).menu
                &&& final(self).final_result == old(self).final_result
                &&& final(self).high_score == old(self).high_score
            },
            !old(self).crashes(events@) && old(self).machine@ == GameState::Running ==> {
                &&& final(self).score.value == old(self).score.value + crossings(
                    old(self).obstacles@,
                )
                &&& final(self).player == sunk(old(self).player)
                &&& if old(self).spawn_timer.firings(delta) > 0 && !has_room(old(self).viewport) {
                    &&& outcome == Err::<Option<GameOverEvent>, SpawnError>(SpawnError::NoRoom)
                    &&& final(self).obstacles@ == kept(
                        all_credited(old(self).obstacles@),
                        old(self).viewport,
                    )
                } else {
                    &&& outcome == Ok::<Option<GameOverEvent>, SpawnError>(None)
                    &&& extended_by(
                        kept(all_credited(old(self).obstacles@), old(self).viewport),
                        final(self).obstacles@,
                        old(self).spawn_timer.firings(delta),
                        old(self).viewport,
                    )
                }
            },
            old(self).machine@ == GameState::Waiting ==> {
                &&& outcome == Ok::<Option<GameOverEvent>, SpawnError>(None)
                &&& final(self).score == old(self).score
                &&& final(self).player == old(self).player
                &&& final(self).obstacles@ == kept(old(self).obstacles@, old(self).viewport)
            },
            final(self).scrolls@.len() == old(self).scrolls@.len(),
            forall|i: int|
                0 <= i < old(self).scrolls@.len() ==> #[trigger] final(self).scrolls@[i] == old(
                    self,
                ).scrolls@[i].wrapped(old(self).viewport),
            final(self).spawn_timer.interval() == old(self).spawn_timer.interval(),
            final(self).spawn_timer.elapsed() == old(self).spawn_timer.carried(delta),
            final(self).flap_timer.0.interval() == old(self).flap_timer.0.interval(),
            final(self).flap_timer.0.elapsed() == old(self).flap_timer.0.carried(delta),
            final(self).frame == if old(self).flap_timer.0.firings(delta) > 0 {
                next_frame(old(self).frame, FLAP_FRAMES)
            } else {
                old(self).frame as int
            },
            final(self).machine@ == GameState::Running ==> final(self).score.value >= old(
                self,
            ).score.value,
            final(self).data.highest_score >= old(self).data.highest_score,
    {
        let signal = if self.machine.current() == GameState::Running {
            bird_crash(
                events,
                &mut self.machine,
                &mut self.obstacles,
                &mut self.player,
                &mut self.score,
                &mut self.data,
            )
        } else {
            None
        };
        show_menu(
            &self.data,
            &mut self.menu,
            &mut self.final_result,
            &mut self.high_score,
            &signal,
        );
        let ghost seen = self.obstacles@;
        score(&self.machine, &mut self.score, &mut self.obstacles);
        proof {
            if self.machine@ == GameState::Running {
                assert(self.obstacles@ =~= all_credited(seen));
            }
        }
        if self.machine.current() == GameState::Running {
            birdhead_direction(&mut self.player);
        }
        drop_oor_obstacles(&self.viewport, &mut self.obstacles);
        proof {
            if signal is Some {
                assert(self.obstacles@.len() == 0) by {
                    reveal(Seq::filter);
                }
            }
        }
        let due = self.spawn_timer.tick(delta);
        let spawned = spawn_due(&self.machine, &self.viewport, &mut self.obstacles, due);
        infinitive_ground(&self.viewport, &mut self.scrolls);
        self.frame = flap_anim(delta, &mut self.flap_timer, self.frame, FLAP_FRAMES);
        proof {
            if signal is Some {
                assert(signal == Some(GameOverEvent));
            }
        }
        match spawned {
            Ok(_) => Ok(signal),
            Err(error) => Err(error),
        }
    }
}

} // verus!
