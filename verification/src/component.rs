//! The records the game's rules work on.

use crate::text::{decimal, format_decimal, parse_decimal, parsed};
use crate::timer::Timer;
use crate::state::GameState;
use crate::units::{OBSTACLE_HEIGHT, OBSTACLE_WIDTH};
use vstd::prelude::*;

verus! {

/// The visible area. The camera sits at the origin, so the area reaches
/// from `-half_width` to `half_width` and from `-half_height` to
/// `half_height`.
#[derive(Clone, Copy, Debug, PartialEq, Eq, Structural)]
pub struct Viewport {
    pub half_width: u32,
    pub half_height: u32,
}

impl Viewport {
    /// The `x` of the left edge.
    pub open spec fn left(&self) -> int {
        -(self.half_width as int)
    }

    /// The `x` of the right edge.
    pub open spec fn right(&self) -> int {
        self.half_width as int
    }

    /// The full height.
    pub open spec fn height(&self) -> int {
        2 * self.half_height
    }
}

/// The player: the one body that falls and jumps. It is never destroyed,
/// only put back to rest.
#[derive(Clone, Copy, Debug, PartialEq, Eq, Structural)]
pub struct Bird {
    pub x: i64,
    pub y: i64,
    /// Visual tilt, in thousandths of a radian.
    pub rotation: i64,
    pub linvel_x: i64,
    pub linvel_y: i64,
    pub angvel: i64,
    /// Zero while waiting, positive while a run is on.
    pub gravity_scale: i64,
}

impl Bird {
    /// The player at rest: at the origin, level, still and weightless.
    pub open spec fn rest() -> Bird {
        Bird { x: 0, y: 0, rotation: 0, linvel_x: 0, linvel_y: 0, angvel: 0, gravity_scale: 0 }
    }

    /// The player at rest, see [`Bird::rest`].
    pub fn at_rest() -> (bird: Bird)
        ensures
            bird == Bird::rest(),
    {
        Bird { x: 0, y: 0, rotation: 0, linvel_x: 0, linvel_y: 0, angvel: 0, gravity_scale: 0 }
    }
}

/// A pair of poles with a gap between them, moving left at a constant
/// velocity.
#[derive(Clone, Copy, Debug, PartialEq, Eq, Structural)]
pub struct Obstacle {
    /// Whether this obstacle has already been credited to the score.
    pub scored: bool,
    pub x: i64,
    pub velocity: i64,
    /// How far the upper pole reaches down from the top of the viewport.
    pub upper_height: i64,
    /// How far the lower pole reaches up from the bottom of the viewport.
    pub lower_height: i64,
    /// The `y` of the centre of the upper pole's collider.
    pub upper_y: i64,
    /// The `y` of the centre of the lower pole's collider.
    pub lower_y: i64,
}

impl Obstacle {
    /// The lower edge of the upper pole's collider.
    pub open spec fn gap_top(&self) -> int {
        self.upper_y - OBSTACLE_HEIGHT / 2
    }

    /// The upper edge of the lower pole's collider.
    pub open spec fn gap_bottom(&self) -> int {
        self.lower_y + OBSTACLE_HEIGHT / 2
    }

    /// Whether the obstacle is behind the player, who stays at `x = 0`, and
    /// has not been credited yet.
    pub open spec fn passes_player(&self) -> bool {
        !self.scored && self.x < 0
    }

    /// Whether the obstacle's right edge is left of the viewport's left
    /// edge.
    pub open spec fn out_of_range(&self, viewport: Viewport) -> bool {
        self.x + OBSTACLE_WIDTH / 2 < viewport.left()
    }

    /// Computes [`Obstacle::passes_player`].
    pub fn is_passing_player(&self) -> (passing: bool)
        ensures
            passing == self.passes_player(),
    {
        !self.scored && self.x < 0
    }

    /// Computes [`Obstacle::out_of_range`].
    pub fn is_out_of_range(&self, viewport: &Viewport) -> (out: bool)
        ensures
            out == self.out_of_range(*viewport),
    {
        let left: i64 = -(viewport.half_width as i64);
        self.x < left - OBSTACLE_WIDTH / 2
    }
}

/// One strip of ground or background, `2 * half_width` wide and centred at
/// `x`, moving at a constant velocity.
#[derive(Clone, Copy, Debug, PartialEq, Eq, Structural)]
pub struct Scroll {
    pub half_width: u32,
    pub x: i64,
    pub y: i64,
    pub velocity: i64,
}

impl Scroll {
    /// The full width.
    pub open spec fn width(&self) -> int {
        2 * self.half_width
    }

    /// Whether the strip's right edge is at or left of the viewport's left
    /// edge.
    pub open spec fn off_left(&self, viewport: Viewport) -> bool {
        self.x + self.half_width <= viewport.left()
    }

    /// The strip after one pass of the scroller: moved right by one and a
    /// half widths where it had left the viewport, else as it was.
    pub open spec fn wrapped(&self, viewport: Viewport) -> Scroll {
        if self.off_left(viewport) {
            Scroll { x: (self.x + 3 * self.half_width) as i64, ..*self }
        } else {
            *self
        }
    }

    /// Computes [`Scroll::off_left`].
    pub fn is_off_left(&self, viewport: &Viewport) -> (off: bool)
        ensures
            off == self.off_left(*viewport),
    {
        self.x <= -(viewport.half_width as i64) - self.half_width as i64
    }
}

/// A still collider that closes the play area at the top or the bottom.
#[derive(Clone, Copy, Debug, PartialEq, Eq, Structural)]
pub struct Boundary {
    pub y: i64,
    pub half_width: i64,
    pub half_height: i64,
}

/// The score of the run that is on, as the display shows it.
#[derive(Clone, Copy, Debug, PartialEq, Eq, Structural)]
pub struct Score {
    pub value: u64,
}

impl Score {
    /// The text on display.
    pub open spec fn text(&self) -> Seq<char> {
        decimal(self.value as nat)
    }

    /// A score of zero.
    pub fn new() -> (score: Score)
        ensures
            score.value == 0,
    {
        Score { value: 0 }
    }

    /// Writes the score out for display.
    pub fn to_text(&self) -> (text: String)
        ensures
            text@ == self.text(),
    {
        format_decimal(self.value)
    }

    /// Reads a score back from displayed text; text that is no number gives
    /// none.
    pub fn from_text(text: &str) -> (score: Option<Score>)
        ensures
            score is Some <==> parsed(text@) is Some,
            score matches Some(s) ==> parsed(text@) == Some(s.value),
    {
        match parse_decimal(text) {
            Some(value) => Some(Score { value }),
            None => None,
        }
    }
}

/// The menu overlay. It shows while it is in front of the scene.
#[derive(Clone, Copy, Debug, PartialEq, Eq, Structural)]
pub struct MainMenu {
    pub z: i64,
}

/// The line of the menu that shows the score of the run that just ended.
#[derive(Clone, Debug)]
pub struct FinalResult {
    pub text: String,
}

/// The line of the menu that shows the best score of the session.
#[derive(Clone, Debug)]
pub struct HighScore {
    pub text: String,
}

/// The timer that paces the player's animation.
#[derive(Clone, Copy, Debug)]
pub struct AnimationTimer(pub Timer);

/// Scores of the session: that of the last run that ended, and the best.
#[derive(Clone, Copy, Debug, PartialEq, Eq, Structural)]
pub struct GameData {
    pub score: u64,
    pub highest_score: u64,
}

impl Default for GameData {
    fn default() -> (data: GameData)
        ensures
            data.score == 0,
            data.highest_score == 0,
    {
        GameData { score: 0, highest_score: 0 }
    }
}

/// The signal that a run has ended.
#[derive(Clone, Copy, Debug, PartialEq, Eq, Structural)]
pub struct GameOverEvent;

/// A contact between two bodies, as the physics engine reports it. The two
/// numbers are the engine's handles of the bodies.
#[derive(Clone, Copy, Debug, PartialEq, Eq, Structural)]
pub enum CollisionEvent {
    Started(u64, u64),
    Stopped(u64, u64),
}

/// What the pointer does to a button.
#[derive(Clone, Copy, Debug, PartialEq, Eq, Structural)]
pub enum Interaction {
    Clicked,
    Hovered,
    Untouched,
}

/// The input sources as sampled in one tick.
#[derive(Clone, Copy, Debug, PartialEq, Eq, Structural)]
pub struct InputSample {
    /// The space key is down.
    pub key_pressed: bool,
    /// The space key went down in this tick.
    pub key_just_pressed: bool,
    /// The left mouse button went down, or the screen was tapped, in this
    /// tick.
    pub pointer_just_pressed: bool,
}

/// Whether gravity acts on the player exactly while a run is on. Where
/// there is no player nothing is asked.
pub open spec fn gravity_matches_state(state: GameState, player: Option<Bird>) -> bool {
    player matches Some(bird) ==> (bird.gravity_scale > 0 <==> state == GameState::Running)
}

} // verus!
