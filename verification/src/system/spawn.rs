//! What brings records into the world and takes them out again: the
//! initial scene, the obstacles, and the player's animation.

use crate::component::{
    AnimationTimer, Bird, Boundary, FinalResult, GameData, HighScore, MainMenu, Obstacle, Score,
    Scroll, Viewport,
};
use crate::state::{GameState, StateMachine};
use crate::timer::Timer;
use crate::units::{
    BG_FAR_VELOC, BG_HALF_WIDTH, BG_MID_VELOC, BG_NEAR_VELOC, FLAP_INTERVAL, GROUND_HALF_WIDTH,
    GROUND_HEIGHT, GROUND_INSET, GROUND_MARGIN, HVELOC, MENU_BEHIND, OBSTACLE_HEIGHT,
    PLAYER_CLEARANCE, POLE_HALF_WIDTH, SPAWN_INTERVAL, UNIT,
};
use crate::world::World;
use vstd::prelude::*;
use vstd::string::*;

verus! {

/// Why no obstacle could be made.
#[derive(Clone, Copy, Debug, PartialEq, Eq, Structural)]
pub enum SpawnError {
    /// The viewport is too low to hold both poles at their least height
    /// with the player's clearance between them.
    NoRoom,
}

/// The vertical span that the two poles of an obstacle share: the
/// viewport's height less the clearance left to the player.
pub open spec fn playable_span(viewport: Viewport) -> int {
    viewport.height() - PLAYER_CLEARANCE
}

/// Whether the upper pole may be `upper` high: neither pole may be lower
/// than the ground margin.
pub open spec fn split_allowed(viewport: Viewport, upper: int) -> bool {
    GROUND_MARGIN <= upper <= playable_span(viewport) - GROUND_MARGIN
}

/// Whether the viewport admits any split at all.
pub open spec fn has_room(viewport: Viewport) -> bool {
    2 * GROUND_MARGIN <= playable_span(viewport)
}

/// The obstacle whose upper pole is `upper` high: not yet scored, just
/// beyond the right edge of the viewport, moving left, with the lower pole
/// taking the rest of the playable span.
pub open spec fn obstacle_at_split(viewport: Viewport, upper: int) -> Obstacle {
    let lower = playable_span(viewport) - upper;
    Obstacle {
        scored: false,
        x: (viewport.right() + POLE_HALF_WIDTH / 2) as i64,
        velocity: HVELOC,
        upper_height: upper as i64,
        lower_height: lower as i64,
        upper_y: (viewport.half_height - upper + OBSTACLE_HEIGHT / 2) as i64,
        lower_y: (lower - viewport.half_height - OBSTACLE_HEIGHT / 2) as i64,
    }
}

/// Whether `obstacle` is one that the spawner may make in `viewport`.
pub open spec fn freshly_spawned(viewport: Viewport, obstacle: Obstacle) -> bool {
    exists|upper: int| #[trigger]
        split_allowed(viewport, upper) && obstacle == obstacle_at_split(viewport, upper)
}

/// The heights of the poles of a spawned obstacle are within bounds and add
/// up to the playable span, and the gap between the two colliders is the
/// player's clearance: the upper collider ends where the upper pole's
/// height is measured down from the top edge, the lower one where the lower
/// pole's height is measured up from the bottom edge.
pub proof fn lemma_gap_bounds(viewport: Viewport, obstacle: Obstacle)
    requires
        freshly_spawned(viewport, obstacle),
    ensures
        GROUND_MARGIN <= obstacle.upper_height <= playable_span(viewport) - GROUND_MARGIN,
        GROUND_MARGIN <= obstacle.lower_height <= playable_span(viewport) - GROUND_MARGIN,
        obstacle.lower_height == playable_span(viewport) - obstacle.upper_height,
        obstacle.gap_top() == viewport.half_height - obstacle.upper_height,
        obstacle.gap_bottom() == obstacle.lower_height - viewport.half_height,
        obstacle.gap_top() - obstacle.gap_bottom() == PLAYER_CLEARANCE,
        !obstacle.scored,
        obstacle.x > viewport.right(),
        obstacle.velocity < 0,
{
    let upper = choose|upper: int| #[trigger]
        split_allowed(viewport, upper) && obstacle == obstacle_at_split(viewport, upper);
    assert(obstacle == obstacle_at_split(viewport, upper));
}

/// Draws the height of an upper pole with `rand::Rng::gen_range` on the
/// generator of the current thread, over the inclusive range from `lowest` to
/// `highest`. The contract claims only that the draw lies within the range;
/// an empty range, on which the call would panic, is left out.
#[verifier::external_body]
fn draw_split(lowest: i64, highest: i64) -> (split: i64)
    requires
        lowest <= highest,
    ensures
        lowest <= split <= highest,
{
    rand::Rng::gen_range(&mut rand::thread_rng(), lowest..=highest)
}

/// The least and the greatest height that the upper pole may have, if the
/// viewport has room for an obstacle.
pub fn split_range(viewport: &Viewport) -> (range: Option<(i64, i64)>)
    ensures
        range is Some <==> has_room(*viewport),
        range matches Some((lowest, highest)) ==> lowest == GROUND_MARGIN && highest
            == playable_span(*viewport) - GROUND_MARGIN,
{
    let span: i64 = 2 * (viewport.half_height as i64) - PLAYER_CLEARANCE;
    if span - GROUND_MARGIN < GROUND_MARGIN {
        None
    } else {
        Some((GROUND_MARGIN, span - GROUND_MARGIN))
    }
}

/// The obstacle whose upper pole is `upper_height` high, or none where
/// that height is out of bounds.
pub fn obstacle_with_split(viewport: &Viewport, upper_height: i64) -> (obstacle: Option<Obstacle>)
    ensures
        obstacle is Some <==> split_allowed(*viewport, upper_height as int),
        obstacle matches Some(made) ==> made == obstacle_at_split(*viewport, upper_height as int),
{
    let half_height: i64 = viewport.half_height as i64;
    let span: i64 = 2 * half_height - PLAYER_CLEARANCE;
    if upper_height < GROUND_MARGIN || upper_height > span - GROUND_MARGIN {
        return None;
    }
    let lower_height: i64 = span - upper_height;
    Some(
        Obstacle {
            scored: false,
            x: viewport.half_width as i64 + POLE_HALF_WIDTH / 2,
            velocity: HVELOC,
            upper_height,
            lower_height,
            upper_y: half_height - upper_height + OBSTACLE_HEIGHT / 2,
            lower_y: lower_height - half_height - OBSTACLE_HEIGHT / 2,
        },
    )
}

/// Adds one obstacle with a randomly placed gap, while a run is on.
///
/// Outside a run nothing happens. In a run, a viewport without room for an
/// obstacle is an error and nothing changes. Otherwise the new obstacle is
/// appended to `obstacles` and returned.
pub fn spawn_obstacle(
    machine: &StateMachine,
    viewport: &Viewport,
    obstacles: &mut Vec<Obstacle>,
) -> (outcome: Result<Option<Obstacle>, SpawnError>)
    ensures
        machine@ != GameState::Running ==> outcome == Ok::<Option<Obstacle>, SpawnError>(None)
            && final(obstacles)@ == old(obstacles)@,
        machine@ == GameState::Running && !has_room(*viewport) ==> outcome == Err::<
            Option<Obstacle>,
            SpawnError,
        >(SpawnError::NoRoom) && final(obstacles)@ == old(obstacles)@,
        machine@ == GameState::Running && has_room(*viewport) ==> (outcome matches Ok(Some(made))
            && freshly_spawned(*viewport, made) && final(obstacles)@ == old(obstacles)@.push(made)),
{
    if machine.current() != GameState::Running {
        return Ok(None);
    }
    match split_range(viewport) {
        None => Err(SpawnError::NoRoom),
        Some((lowest, highest)) => {
            let upper_height = draw_split(lowest, highest);
            assert(split_allowed(*viewport, upper_height as int));
            match obstacle_with_split(viewport, upper_height) {
                Some(made) => {
                    obstacles.push(made);
                    Ok(Some(made))
                },
                None => Err(SpawnError::NoRoom),
            }
        },
    }
}

/// Whether `after` is `before` with `count` obstacles appended, each of
/// them one that the spawner may make in `viewport`.
pub open spec fn extended_by(
    before: Seq<Obstacle>,
    after: Seq<Obstacle>,
    count: int,
    viewport: Viewport,
) -> bool {
    &&& after.len() == before.len() + count
    &&& after.take(before.len() as int) =~= before
    &&& forall|i: int|
        before.len() <= i < after.len() ==> freshly_spawned(viewport, #[trigger] after[i])
}

/// Adds the `due` obstacles that the spawn timer asks for in one tick,
/// while a run is on.
///
/// Outside a run, or with none due, nothing happens. In a run with some
/// due, a viewport without room for an obstacle is an error and nothing
/// changes. Otherwise `due` obstacles are appended, each with a gap of its
/// own, and the result is their number.
pub fn spawn_due(
    machine: &StateMachine,
    viewport: &Viewport,
    obstacles: &mut Vec<Obstacle>,
    due: u64,
) -> (outcome: Result<u64, SpawnError>)
    ensures
        machine@ != GameState::Running || due == 0 ==> outcome == Ok::<u64, SpawnError>(0)
            && final(obstacles)@ == old(obstacles)@,
        machine@ == GameState::Running && due > 0 && !has_room(*viewport) ==> outcome == Err::<
            u64,
            SpawnError,
        >(SpawnError::NoRoom) && final(obstacles)@ == old(obstacles)@,
        machine@ == GameState::Running && due > 0 && has_room(*viewport) ==> outcome == Ok::<
            u64,
            SpawnError,
        >(due) && extended_by(old(obstacles)@, final(obstacles)@, due as int, *viewport),
{
    if machine.current() != GameState::Running || due == 0 {
        return Ok(0);
    }
    if split_range(viewport).is_none() {
        return Err(SpawnError::NoRoom);
    }
    let ghost before = obstacles@;
    let mut made: u64 = 0;
    assert(obstacles@.take(before.len() as int) =~= before);
    while made < due
        invariant
            made <= due,
            machine@ == GameState::Running,
            has_room(*viewport),
            extended_by(before, obstacles@, made as int, *viewport),
        decreases due - made,
    {
        let ghost so_far = obstacles@;
        if spawn_obstacle(machine, viewport, obstacles).is_err() {
            return Err(SpawnError::NoRoom);
        }
        proof {
            assert(obstacles@.take(before.len() as int) =~= so_far.take(before.len() as int));
            assert forall|i: int| before.len() <= i < obstacles@.len() implies freshly_spawned(
                *viewport,
                #[trigger] obstacles@[i],
            ) by {
                if i < so_far.len() {
                    assert(obstacles@[i] == so_far[i]);
                }
            }
        }
        made = made + 1;
    }
    Ok(made)
}

/// The obstacles that stay after a sweep: those whose right edge has not
/// passed the left edge of the viewport, in their order.
pub open spec fn kept(obstacles: Seq<Obstacle>, viewport: Viewport) -> Seq<Obstacle> {
    obstacles.filter(|obstacle: Obstacle| !obstacle.out_of_range(viewport))
}

/// Removes every obstacle that has left the viewport on the left.
pub fn drop_oor_obstacles(viewport: &Viewport, obstacles: &mut Vec<Obstacle>)
    ensures
        final(obstacles)@ == kept(old(obstacles)@, *viewport),
{
    let mut staying: Vec<Obstacle> = Vec::new();
    let mut i: usize = 0;
    proof {
        reveal(Seq::filter);
        assert(obstacles@.take(0) =~= Seq::<Obstacle>::empty());
    }
    while i < obstacles.len()
        invariant
            i <= obstacles.len(),
            staying@ == kept(obstacles@.take(i as int), *viewport),
        decreases obstacles.len() - i,
    {
        let obstacle = obstacles[i];
        proof {
            reveal(Seq::filter);
            assert(obstacles@.take(i + 1).drop_last() =~= obstacles@.take(i as int));
            assert(obstacles@.take(i + 1).last() == obstacle);
        }
        if !obstacle.is_out_of_range(viewport) {
            staying.push(obstacle);
        }
        i = i + 1;
    }
    assert(obstacles@.take(i as int) =~= obstacles@);
    *obstacles = staying;
}

/// The frame that follows `frame` in an animation of `frame_count` frames,
/// going round.
pub open spec fn next_frame(frame: usize, frame_count: usize) -> int {
    (frame + 1) % (frame_count as int)
}

/// Advances the timer of an animation by `delta` and returns the frame to
/// show: the next one if the timer fired in this tick, however often, else
/// the one that shows already.
pub fn flap_anim(delta: u64, timer: &mut AnimationTimer, frame: usize, frame_count: usize) -> (shown:
    usize)
    requires
        frame_count > 0,
    ensures
        final(timer).0.interval() == old(timer).0.interval(),
        final(timer).0.elapsed() == old(timer).0.carried(delta),
        shown == if old(timer).0.firings(delta) > 0 {
            next_frame(frame, frame_count)
        } else {
            frame as int
        },
{
    let fired = timer.0.tick(delta);
    if fired > 0 {
        let within: usize = frame % frame_count;
        let next: usize = within + 1;
        proof {
            let count = frame_count as int;
            vstd::arithmetic::div_mod::lemma_fundamental_div_mod(frame as int, count);
            let quotient = frame as int / count;
            assert(quotient * count == count * quotient) by (nonlinear_arith);
            if next == frame_count {
                assert(frame + 1 == (quotient + 1) * count) by (nonlinear_arith)
                    requires
                        frame == count * quotient + within,
                        within + 1 == count,
                ;
                vstd::arithmetic::div_mod::lemma_fundamental_div_mod_converse(
                    frame + 1,
                    count,
                    quotient + 1,
                    0,
                );
            } else {
                vstd::arithmetic::div_mod::lemma_fundamental_div_mod_converse(
                    frame + 1,
                    count,
                    quotient,
                    next as int,
                );
            }
        }
        if next == frame_count {
            0
        } else {
            next
        }
    } else {
        frame
    }
}

/// Two strips of one layer, side by side: the first centred at `x`, the
/// second one width to its right.
pub open spec fn strip_pair(x: int, y: int, half_width: u32, velocity: i64) -> Seq<Scroll> {
    seq![
        Scroll { half_width, x: x as i64, y: y as i64, velocity },
        Scroll { half_width, x: (x + 2 * half_width) as i64, y: y as i64, velocity },
    ]
}

/// The three background layers, far to near, two strips each.
pub open spec fn background_strips() -> Seq<Scroll> {
    strip_pair(0, 0, BG_HALF_WIDTH, BG_FAR_VELOC) + strip_pair(0, 0, BG_HALF_WIDTH, BG_MID_VELOC)
        + strip_pair(0, 0, BG_HALF_WIDTH, BG_NEAR_VELOC)
}

/// The `y` of the ground at the bottom: the strip's centre lies so that the
/// strip sticks out of the viewport by the ground inset.
pub open spec fn floor_y(viewport: Viewport) -> int {
    GROUND_HEIGHT / 2 - GROUND_INSET - viewport.half_height
}

/// The two layers of ground, at the bottom and at the top of the viewport,
/// two strips each.
pub open spec fn ground_strips(viewport: Viewport) -> Seq<Scroll> {
    strip_pair(0, floor_y(viewport), GROUND_HALF_WIDTH, HVELOC) + strip_pair(
        10 * UNIT,
        -floor_y(viewport),
        GROUND_HALF_WIDTH,
        HVELOC,
    )
}

/// The two still colliders behind the ground strips.
pub open spec fn ground_boundaries(viewport: Viewport) -> Seq<Boundary> {
    seq![
        Boundary {
            y: floor_y(viewport) as i64,
            half_width: GROUND_HALF_WIDTH as i64,
            half_height: (GROUND_HEIGHT / 2 - 6 * UNIT) as i64,
        },
        Boundary {
            y: (-floor_y(viewport)) as i64,
            half_width: GROUND_HALF_WIDTH as i64,
            half_height: (GROUND_HEIGHT / 2 - 6 * UNIT) as i64,
        },
    ]
}

/// Appends the two strips of one layer.
fn spawn_scrollable(scrolls: &mut Vec<Scroll>, x: i64, y: i64, half_width: u32, hveloc: i64)
    requires
        x + 2 * half_width <= i64::MAX,
    ensures
        final(scrolls)@ == old(scrolls)@ + strip_pair(x as int, y as int, half_width, hveloc),
{
    scrolls.push(Scroll { half_width, x, y, velocity: hveloc });
    scrolls.push(Scroll { half_width, x: x + 2 * (half_width as i64), y, velocity: hveloc });
    assert(scrolls@ =~= old(scrolls)@ + strip_pair(x as int, y as int, half_width, hveloc));
}

/// Appends the background layers.
fn spawn_bg(scrolls: &mut Vec<Scroll>)
    ensures
        final(scrolls)@ == old(scrolls)@ + background_strips(),
{
    spawn_scrollable(scrolls, 0, 0, BG_HALF_WIDTH, BG_FAR_VELOC);
    spawn_scrollable(scrolls, 0, 0, BG_HALF_WIDTH, BG_MID_VELOC);
    spawn_scrollable(scrolls, 0, 0, BG_HALF_WIDTH, BG_NEAR_VELOC);
    assert(scrolls@ =~= old(scrolls)@ + background_strips());
}

/// The player as a session begins.
fn spawn_bird() -> (bird: Bird)
    ensures
        bird == Bird::rest(),
{
    Bird::at_rest()
}

/// The display as a session begins: a score of zero, and the menu with its
/// two lines not yet filled in.
fn spawn_ui() -> (ui: (Score, MainMenu, FinalResult, HighScore))
    ensures
        ui.0.value == 0,
        ui.1.z == MENU_BEHIND,
        ui.2.text@ == "Score"@,
        ui.3.text@ == "Highest"@,
{
    (
        Score::new(),
        MainMenu { z: MENU_BEHIND },
        FinalResult { text: "Score".to_owned() },
        HighScore { text: "Highest".to_owned() },
    )
}

/// The world as a session begins: waiting, the player at rest, no obstacle,
/// the background and ground strips in place, all scores at zero and both
/// timers with nothing accumulated.
pub fn setup(viewport: Viewport) -> (world: World)
    ensures
        world.viewport == viewport,
        world.machine@ == GameState::Waiting,
        world.player == Some(Bird::rest()),
        world.obstacles@.len() == 0,
        world.scrolls@ == background_strips() + ground_strips(viewport),
        world.boundaries@ == ground_boundaries(viewport),
        world.score.value == 0,
        world.data.score == 0,
        world.data.highest_score == 0,
        world.menu.z == MENU_BEHIND,
        world.final_result.text@ == "Score"@,
        world.high_score.text@ == "Highest"@,
        world.spawn_timer.interval() == SPAWN_INTERVAL,
        world.spawn_timer.elapsed() == 0,
        world.flap_timer.0.interval() == FLAP_INTERVAL,
        world.flap_timer.0.elapsed() == 0,
        world.frame == 0,
        world.wf(),
{
    let half_height: i64 = viewport.half_height as i64;
    let floor: i64 = GROUND_HEIGHT / 2 - GROUND_INSET - half_height;
    let mut scrolls: Vec<Scroll> = Vec::new();
    spawn_bg(&mut scrolls);
    spawn_scrollable(&mut scrolls, 0, floor, GROUND_HALF_WIDTH, HVELOC);
    spawn_scrollable(&mut scrolls, 10 * UNIT, -floor, GROUND_HALF_WIDTH, HVELOC);
    assert(scrolls@ =~= background_strips() + ground_strips(viewport));
    let mut boundaries: Vec<Boundary> = Vec::new();
    boundaries.push(
        Boundary {
            y: floor,
            half_width: GROUND_HALF_WIDTH as i64,
            half_height: GROUND_HEIGHT / 2 - 6 * UNIT,
        },
    );
    boundaries.push(
        Boundary {
            y: -floor,
            half_width: GROUND_HALF_WIDTH as i64,
            half_height: GROUND_HEIGHT / 2 - 6 * UNIT,
        },
    );
    assert(boundaries@ =~= ground_boundaries(viewport));
    let ui = spawn_ui();
    World {
        viewport,
        machine: StateMachine::new(),
        player: Some(spawn_bird()),
        obstacles: Vec::new(),
        scrolls,
        boundaries,
        score: ui.0,
        data: GameData::default(),
        menu: ui.1,
        final_result: ui.2,
        high_score: ui.3,
        spawn_timer: Timer::new(SPAWN_INTERVAL).unwrap(),
        flap_timer: AnimationTimer(Timer::new(FLAP_INTERVAL).unwrap()),
        frame: 0,
    }
}

} // verus!
