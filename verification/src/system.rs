//! The systems that run after the physics step of a tick: crash handling,
//! scoring, the menu, the scrolling world and the player's tilt.

pub mod input;
pub mod spawn;

use crate::component::{
    gravity_matches_state, Bird, CollisionEvent, FinalResult, GameData, GameOverEvent, HighScore,
    MainMenu, Obstacle, Score, Scroll, Viewport,
};
use crate::state::{GameState, StateMachine};
use crate::text::{decimal, format_decimal};
use crate::units::{MENU_FRONT, TILT_FLOOR, TILT_STEP};
use vstd::prelude::*;
use vstd::string::*;

verus! {

/// Whether any of the contacts reported for a tick is the begin of one.
/// Which bodies touched is not looked at: every begin counts as a crash of
/// the player.
pub open spec fn crash_begins(events: Seq<CollisionEvent>) -> bool {
    exists|i: int| 0 <= i < events.len() && #[trigger] events[i] is Started
}

/// The player after a crash: back at rest, if there is one.
pub open spec fn reset_player(player: Option<Bird>) -> Option<Bird> {
    match player {
        Some(_) => Some(Bird::rest()),
        None => None,
    }
}

/// The greater of two scores.
pub open spec fn best_of(a: u64, b: u64) -> u64 {
    if a < b {
        b
    } else {
        a
    }
}

/// Computes [`crash_begins`], stopping at the first begin of a contact.
pub fn any_begin(events: &[CollisionEvent]) -> (found: bool)
    ensures
        found == crash_begins(events@),
{
    let mut i: usize = 0;
    while i < events.len()
        invariant
            i <= events.len(),
            forall|j: int| 0 <= j < i ==> !(#[trigger] events@[j] is Started),
        decreases events.len() - i,
    {
        match events[i] {
            CollisionEvent::Started(_, _) => {
                assert(events@[i as int] is Started);
                return true;
            },
            CollisionEvent::Stopped(_, _) => {},
        }
        i = i + 1;
    }
    false
}

/// Ends the run on the first begin of a contact among `events`.
///
/// Then the game-over signal is returned, the machine is brought to
/// `Waiting`, every obstacle is removed, the player is put back to rest, the
/// displayed score is committed to `data` (and raises the best score where
/// it exceeds it) and the display goes back to zero. Later events of the
/// tick change nothing more. Without such an event nothing changes.
pub fn bird_crash(
    events: &[CollisionEvent],
    machine: &mut StateMachine,
    obstacles: &mut Vec<Obstacle>,
    player: &mut Option<Bird>,
    score: &mut Score,
    data: &mut GameData,
) -> (signal: Option<GameOverEvent>)
    ensures
        signal is Some <==> crash_begins(events@),
        crash_begins(events@) ==> {
            &&& final(machine)@ == GameState::Waiting
            &&& final(obstacles)@.len() == 0
            &&& *final(player) == reset_player(*old(player))
            &&& final(data).score == old(score).value
            &&& final(data).highest_score == best_of(old(data).highest_score, old(score).value)
            &&& final(score).value == 0
            &&& final(score).text() == seq!['0']
            &&& gravity_matches_state(final(machine)@, *final(player))
        },
        !crash_begins(events@) ==> {
            &&& final(machine)@ == old(machine)@
            &&& final(obstacles)@ == old(obstacles)@
            &&& *final(player) == *old(player)
            &&& *final(score) == *old(score)
            &&& *final(data) == *old(data)
        },
        final(data).highest_score >= old(data).highest_score,
{
    if !any_begin(events) {
        return None;
    }
    machine.ensure(GameState::Waiting);
    obstacles.clear();
    if player.is_some() {
        *player = Some(Bird::at_rest());
    }
    data.score = score.value;
    if data.highest_score < data.score {
        data.highest_score = data.score;
    }
    score.value = 0;
    assert(score.text() =~= seq!['0']);
    Some(GameOverEvent)
}

/// The obstacle after the scorer has seen it: marked as scored if it was
/// passing the player, else as it was.
pub open spec fn credited(obstacle: Obstacle) -> Obstacle {
    if obstacle.passes_player() {
        Obstacle { scored: true, ..obstacle }
    } else {
        obstacle
    }
}

/// How many of the obstacles are passing the player: behind the player and
/// not yet scored.
pub open spec fn crossings(obstacles: Seq<Obstacle>) -> nat {
    obstacles.filter(|obstacle: Obstacle| obstacle.passes_player()).len()
}

proof fn lemma_crossings_step(obstacles: Seq<Obstacle>)
    requires
        obstacles.len() > 0,
    ensures
        crossings(obstacles) == crossings(obstacles.drop_last()) + if obstacles.last().passes_player() {
            1nat
        } else {
            0nat
        },
{
    reveal(Seq::filter);
}

proof fn lemma_crossings_prefix(obstacles: Seq<Obstacle>, k: int)
    requires
        0 <= k <= obstacles.len(),
    ensures
        crossings(obstacles.take(k)) <= crossings(obstacles),
    decreases obstacles.len() - k,
{
    if k == obstacles.len() {
        assert(obstacles.take(k) =~= obstacles);
    } else {
        assert(obstacles.take(k + 1).drop_last() =~= obstacles.take(k));
        lemma_crossings_step(obstacles.take(k + 1));
        lemma_crossings_prefix(obstacles, k + 1);
    }
}

/// Credits every obstacle that is passing the player, while a run is on.
///
/// Each such obstacle is marked as scored and adds one to the displayed
/// score; several in one tick each add one. Outside a run nothing changes.
pub fn score(machine: &StateMachine, score: &mut Score, obstacles: &mut Vec<Obstacle>)
    requires
        machine@ == GameState::Running ==> old(score).value + crossings(old(obstacles)@)
            <= u64::MAX,
    ensures
        final(obstacles)@.len() == old(obstacles)@.len(),
        machine@ == GameState::Running ==> {
            &&& final(score).value == old(score).value + crossings(old(obstacles)@)
            &&& forall|i: int|
                0 <= i < old(obstacles)@.len() ==> #[trigger] final(obstacles)@[i] == credited(
                    old(obstacles)@[i],
                )
        },
        machine@ != GameState::Running ==> {
            &&& *final(score) == *old(score)
            &&& final(obstacles)@ == old(obstacles)@
        },
        final(score).value >= old(score).value,
{
    if machine.current() != GameState::Running {
        return ;
    }
    let ghost before = obstacles@;
    let ghost start = score.value;
    let count = obstacles.len();
    let mut value: u64 = score.value;
    let mut i: usize = 0;
    proof {
        reveal(Seq::filter);
        assert(before.take(0) =~= Seq::<Obstacle>::empty());
    }
    while i < count
        invariant
            i <= count,
            count == before.len(),
            obstacles@.len() == count,
            start + crossings(before) <= u64::MAX,
            value == start + crossings(before.take(i as int)),
            forall|j: int| 0 <= j < i ==> #[trigger] obstacles@[j] == credited(before[j]),
            forall|j: int| i <= j < count ==> #[trigger] obstacles@[j] == before[j],
        decreases count - i,
    {
        let obstacle = obstacles[i];
        proof {
            assert(before.take(i + 1).drop_last() =~= before.take(i as int));
            assert(before.take(i + 1).last() == obstacle);
            lemma_crossings_step(before.take(i + 1));
            lemma_crossings_prefix(before, i + 1);
        }
        if obstacle.is_passing_player() {
            let mut marked = obstacle;
            marked.scored = true;
            obstacles.set(i, marked);
            value = value + 1;
        }
        i = i + 1;
    }
    assert(before.take(count as int) =~= before);
    score.value = value;
}

/// The displayed score rises in a tick only by what obstacles pass the
/// player in it: there are as many crossings as there are obstacles whose
/// mark goes from unscored to scored, at most one per obstacle, and none
/// without such an obstacle.
pub proof fn lemma_score_rises_only_on_crossing(obstacles: Seq<Obstacle>)
    ensures
        crossings(obstacles) <= obstacles.len(),
        crossings(obstacles) > 0 <==> exists|i: int|
            0 <= i < obstacles.len() && !(#[trigger] obstacles[i]).scored && credited(
                obstacles[i],
            ).scored,
    decreases obstacles.len(),
{
    if obstacles.len() == 0 {
        reveal(Seq::filter);
    } else {
        let front = obstacles.drop_last();
        lemma_crossings_step(obstacles);
        lemma_score_rises_only_on_crossing(front);
        if crossings(front) > 0 {
            let i = choose|i: int|
                0 <= i < front.len() && !(#[trigger] front[i]).scored && credited(front[i]).scored;
            assert(obstacles[i] == front[i]);
        }
        if obstacles.last().passes_player() {
            assert(!obstacles[obstacles.len() - 1].scored);
        }
        if exists|i: int|
            0 <= i < obstacles.len() && !(#[trigger] obstacles[i]).scored && credited(
                obstacles[i],
            ).scored {
            let i = choose|i: int|
                0 <= i < obstacles.len() && !(#[trigger] obstacles[i]).scored && credited(
                    obstacles[i],
                ).scored;
            if i < front.len() {
                assert(front[i] == obstacles[i]);
            }
        }
    }
}

/// No obstacle is credited twice. Let `later` be the same obstacles at a
/// later tick, moved wherever, each one still marked if the scorer had
/// marked it in `earlier`. Then none that was passing in `earlier` is
/// passing in `later`, and the two ticks together add at most one per
/// obstacle to the score.
pub proof fn lemma_scores_at_most_once(earlier: Seq<Obstacle>, later: Seq<Obstacle>)
    requires
        later.len() == earlier.len(),
        forall|i: int|
            0 <= i < earlier.len() && credited(#[trigger] earlier[i]).scored ==> later[i].scored,
    ensures
        forall|i: int|
            0 <= i < earlier.len() && (#[trigger] earlier[i]).passes_player()
                ==> !later[i].passes_player(),
        crossings(earlier) + crossings(later) <= earlier.len(),
    decreases earlier.len(),
{
    if earlier.len() == 0 {
        reveal(Seq::filter);
    } else {
        let last = earlier.len() - 1;
        assert(credited(earlier[last]).scored ==> later[last].scored);
        lemma_crossings_step(earlier);
        lemma_crossings_step(later);
        assert forall|i: int|
            0 <= i < earlier.drop_last().len() && credited(
                #[trigger] earlier.drop_last()[i],
            ).scored implies later.drop_last()[i].scored by {
            assert(earlier.drop_last()[i] == earlier[i]);
            assert(later.drop_last()[i] == later[i]);
        }
        lemma_scores_at_most_once(earlier.drop_last(), later.drop_last());
        assert forall|i: int|
            0 <= i < earlier.len() && (#[trigger] earlier[i]).passes_player() implies !later[i].passes_player() by {
            assert(credited(earlier[i]).scored);
        }
    }
}

/// Whether `ticks` holds the same `count` obstacles tick after tick, moved
/// wherever between two ticks, with the scorer run in every tick: what it
/// marked in one tick is still marked in the next.
pub open spec fn marks_carry_over(ticks: Seq<Seq<Obstacle>>, count: nat) -> bool {
    &&& forall|t: int| 0 <= t < ticks.len() ==> (#[trigger] ticks[t]).len() == count
    &&& forall|t: int, i: int|
        0 <= t < ticks.len() - 1 && 0 <= i < count && credited(#[trigger] ticks[t][i]).scored
            ==> ticks[t + 1][i].scored
}

/// Over any number of ticks an obstacle is credited in at most one: if it
/// is passing the player in one tick, it is passing in no later one.
pub proof fn lemma_one_credit_per_obstacle(
    ticks: Seq<Seq<Obstacle>>,
    count: nat,
    i: int,
    first: int,
    later: int,
)
    requires
        marks_carry_over(ticks, count),
        0 <= i < count,
        0 <= first < later < ticks.len(),
        ticks[first][i].passes_player(),
    ensures
        ticks[later][i].scored,
        !ticks[later][i].passes_player(),
    decreases later - first,
{
    if later == first + 1 {
        assert(credited(ticks[first][i]).scored);
    } else {
        lemma_one_credit_per_obstacle(ticks, count, i, first, later - 1);
        assert(credited(ticks[later - 1][i]).scored);
    }
}

/// Once the scorer has run, running it again on the same obstacles adds
/// nothing.
pub proof fn lemma_credited_adds_nothing(obstacles: Seq<Obstacle>)
    ensures
        crossings(obstacles.map_values(|obstacle: Obstacle| credited(obstacle))) == 0,
    decreases obstacles.len(),
{
    let marked = obstacles.map_values(|obstacle: Obstacle| credited(obstacle));
    if obstacles.len() == 0 {
        reveal(Seq::filter);
    } else {
        lemma_crossings_step(marked);
        assert(marked.drop_last() =~= obstacles.drop_last().map_values(
            |obstacle: Obstacle| credited(obstacle),
        ));
        lemma_credited_adds_nothing(obstacles.drop_last());
        assert(marked.last() == credited(obstacles.last()));
    }
}

/// What the menu's line for the best score reads.
pub open spec fn highest_text(highest_score: u64) -> Seq<char> {
    "Highest: "@ + decimal(highest_score as nat)
}

/// Brings up the menu when a run has ended: on the game-over signal the
/// menu comes to the front and its two lines show the score of the run and
/// the best score. Without the signal nothing changes.
pub fn show_menu(
    data: &GameData,
    menu: &mut MainMenu,
    final_result: &mut FinalResult,
    high_score: &mut HighScore,
    signal: &Option<GameOverEvent>,
)
    ensures
        signal is Some ==> {
            &&& final(menu).z == MENU_FRONT
            &&& final(final_result).text@ == decimal(data.score as nat)
            &&& final(high_score).text@ == highest_text(data.highest_score)
        },
        signal is None ==> {
            &&& *final(menu) == *old(menu)
            &&& *final(final_result) == *old(final_result)
            &&& *final(high_score) == *old(high_score)
        },
{
    if signal.is_some() {
        menu.z = MENU_FRONT;
        final_result.text = format_decimal(data.score);
        let mut line = "Highest: ".to_owned();
        let digits = format_decimal(data.highest_score);
        line.append(digits.as_str());
        high_score.text = line;
    }
}

/// Keeps ground and background going round: every strip whose right edge
/// has reached the left edge of the viewport is moved right by one and a
/// half of its width, behind the strip that trails it. Strips still in
/// sight stay as they are.
pub fn infinitive_ground(viewport: &Viewport, scrolls: &mut Vec<Scroll>)
    ensures
        final(scrolls)@.len() == old(scrolls)@.len(),
        forall|i: int|
            0 <= i < old(scrolls)@.len() ==> #[trigger] final(scrolls)@[i] == old(scrolls)@[i].wrapped(
                *viewport,
            ),
{
    let ghost before = scrolls@;
    let count = scrolls.len();
    let mut i: usize = 0;
    while i < count
        invariant
            i <= count,
            count == before.len(),
            scrolls@.len() == count,
            forall|j: int| 0 <= j < i ==> #[trigger] scrolls@[j] == before[j].wrapped(*viewport),
            forall|j: int| i <= j < count ==> #[trigger] scrolls@[j] == before[j],
        decreases count - i,
    {
        let strip = scrolls[i];
        if strip.is_off_left(viewport) {
            let mut moved = strip;
            moved.x = strip.x + 3 * (strip.half_width as i64);
            scrolls.set(i, moved);
        }
        i = i + 1;
    }
}

/// A strip that has left the viewport reappears exactly one and a half
/// widths further right, and nothing else about it changes; a strip that
/// has not left stays where it is.
pub proof fn lemma_wrap_shift(strip: Scroll, viewport: Viewport)
    ensures
        strip.off_left(viewport) ==> 2 * (strip.wrapped(viewport).x - strip.x) == 3 * strip.width(),
        !strip.off_left(viewport) ==> strip.wrapped(viewport) == strip,
        strip.wrapped(viewport).half_width == strip.half_width,
        strip.wrapped(viewport).y == strip.y,
        strip.wrapped(viewport).velocity == strip.velocity,
        strip.wrapped(viewport).x >= strip.x,
{
}

/// The player's head after one tick of sinking: while the player falls and
/// the tilt is above the floor, the tilt goes down by one step.
pub open spec fn tilted(bird: Bird) -> Bird {
    if bird.linvel_y < 0 && bird.rotation > TILT_FLOOR {
        Bird { rotation: (bird.rotation - TILT_STEP) as i64, ..bird }
    } else {
        bird
    }
}

/// Lets the player's head sink while the player falls, see [`tilted`].
pub fn birdhead_direction(player: &mut Option<Bird>)
    ensures
        *old(player) matches Some(bird) ==> *final(player) == Some(tilted(bird)),
        *old(player) is None ==> *final(player) is None,
        forall|state: GameState|
            gravity_matches_state(state, *old(player)) ==> gravity_matches_state(
                state,
                *final(player),
            ),
{
    match *player {
        Some(bird) => {
            if bird.linvel_y < 0 && bird.rotation > TILT_FLOOR {
                let mut sunk = bird;
                sunk.rotation = bird.rotation - TILT_STEP;
                *player = Some(sunk);
            }
        },
        None => {},
    }
}

} // verus!
