use bubly::component::{AnimationTimer, Bird, Boundary, Obstacle, Scroll, Viewport};
use bubly::state::{GameState, StateMachine};
use bubly::system::spawn::{
    drop_oor_obstacles, flap_anim, obstacle_with_split, setup, spawn_due, spawn_obstacle,
    split_range, SpawnError,
};
use bubly::timer::Timer;

fn window() -> Viewport {
    Viewport { half_width: 360_000, half_height: 640_000 }
}

fn obstacle_at(x: i64) -> Obstacle {
    Obstacle {
        scored: false,
        x,
        velocity: -90_000,
        upper_height: 500_000,
        lower_height: 536_400,
        upper_y: 1_140_000,
        lower_y: -1_103_600,
    }
}

#[test]
fn split_range_of_the_usual_window() {
    assert_eq!(split_range(&window()), Some((110_000, 926_400)));
}

#[test]
fn split_range_needs_room_for_both_margins() {
    let lowest = Viewport { half_width: 360_000, half_height: 231_800 };
    assert_eq!(split_range(&lowest), Some((110_000, 110_000)));
    let too_low = Viewport { half_width: 360_000, half_height: 231_799 };
    assert_eq!(split_range(&too_low), None);
    let flat = Viewport { half_width: 360_000, half_height: 0 };
    assert_eq!(split_range(&flat), None);
}

#[test]
fn obstacle_is_laid_out_around_the_split() {
    let made = obstacle_with_split(&window(), 500_000).unwrap();
    assert_eq!(
        made,
        Obstacle {
            scored: false,
            x: 382_000,
            velocity: -90_000,
            upper_height: 500_000,
            lower_height: 536_400,
            upper_y: 1_140_000,
            lower_y: -1_103_600,
        }
    );
    let gap_top = made.upper_y - 1_000_000;
    let gap_bottom = made.lower_y + 1_000_000;
    assert_eq!(gap_top, 640_000 - 500_000);
    assert_eq!(gap_bottom, -640_000 + 536_400);
    assert_eq!(gap_top - gap_bottom, 243_600);
}

#[test]
fn split_out_of_bounds_makes_no_obstacle() {
    assert!(obstacle_with_split(&window(), 110_000).is_some());
    assert!(obstacle_with_split(&window(), 926_400).is_some());
    assert_eq!(obstacle_with_split(&window(), 109_999), None);
    assert_eq!(obstacle_with_split(&window(), 926_401), None);
    assert_eq!(obstacle_with_split(&window(), i64::MIN), None);
    assert_eq!(obstacle_with_split(&window(), i64::MAX), None);
}

#[test]
fn spawned_gaps_are_within_bounds() {
    let machine = StateMachine::in_state(GameState::Running);
    let viewport = window();
    let mut obstacles = Vec::new();
    for round in 0..500 {
        let made = spawn_obstacle(&machine, &viewport, &mut obstacles).unwrap().unwrap();
        assert_eq!(obstacles.len(), round + 1);
        assert_eq!(obstacles[round], made);
        assert!(110_000 <= made.upper_height && made.upper_height <= 926_400);
        assert!(110_000 <= made.lower_height && made.lower_height <= 926_400);
        assert_eq!(made.upper_height + made.lower_height, 1_036_400);
        assert_eq!(Some(made), obstacle_with_split(&viewport, made.upper_height));
        assert!(!made.scored);
        assert_eq!(made.x, 382_000);
        assert_eq!(made.velocity, -90_000);
    }
}

#[test]
fn spawned_gaps_vary() {
    let machine = StateMachine::in_state(GameState::Running);
    let viewport = window();
    let mut obstacles = Vec::new();
    for _ in 0..200 {
        spawn_obstacle(&machine, &viewport, &mut obstacles).unwrap();
    }
    let first = obstacles[0].upper_height;
    assert!(obstacles.iter().any(|o| o.upper_height != first));
    assert!(obstacles.iter().any(|o| o.upper_height != 110_000));
    assert!(obstacles.iter().any(|o| o.upper_height != 926_400));
}

#[test]
fn single_split_is_always_drawn() {
    let machine = StateMachine::in_state(GameState::Running);
    let viewport = Viewport { half_width: 100, half_height: 231_800 };
    let mut obstacles = Vec::new();
    let made = spawn_obstacle(&machine, &viewport, &mut obstacles).unwrap().unwrap();
    assert_eq!(made.upper_height, 110_000);
    assert_eq!(made.lower_height, 110_000);
}

#[test]
fn nothing_spawns_outside_a_run() {
    let machine = StateMachine::new();
    let mut obstacles = vec![obstacle_at(5)];
    assert_eq!(spawn_obstacle(&machine, &window(), &mut obstacles), Ok(None));
    assert_eq!(obstacles, vec![obstacle_at(5)]);
    let flat = Viewport { half_width: 1, half_height: 1 };
    assert_eq!(spawn_obstacle(&machine, &flat, &mut obstacles), Ok(None));
    assert_eq!(spawn_due(&machine, &window(), &mut obstacles, 3), Ok(0));
    assert_eq!(obstacles, vec![obstacle_at(5)]);
}

#[test]
fn spawn_without_room_is_an_error() {
    let machine = StateMachine::in_state(GameState::Running);
    let flat = Viewport { half_width: 360_000, half_height: 200_000 };
    let mut obstacles = vec![obstacle_at(5)];
    assert_eq!(spawn_obstacle(&machine, &flat, &mut obstacles), Err(SpawnError::NoRoom));
    assert_eq!(obstacles, vec![obstacle_at(5)]);
    assert_eq!(spawn_due(&machine, &flat, &mut obstacles, 2), Err(SpawnError::NoRoom));
    assert_eq!(spawn_due(&machine, &flat, &mut obstacles, 0), Ok(0));
    assert_eq!(obstacles, vec![obstacle_at(5)]);
}

#[test]
fn due_obstacles_are_appended() {
    let machine = StateMachine::in_state(GameState::Running);
    let viewport = window();
    let mut obstacles = vec![obstacle_at(5), obstacle_at(-7)];
    assert_eq!(spawn_due(&machine, &viewport, &mut obstacles, 3), Ok(3));
    assert_eq!(obstacles.len(), 5);
    assert_eq!(&obstacles[..2], &[obstacle_at(5), obstacle_at(-7)]);
    for made in &obstacles[2..] {
        assert_eq!(Some(*made), obstacle_with_split(&viewport, made.upper_height));
    }
}

#[test]
fn obstacles_left_of_the_viewport_are_dropped() {
    let viewport = window();
    let mut obstacles = vec![
        obstacle_at(-410_001),
        obstacle_at(-410_000),
        obstacle_at(382_000),
        obstacle_at(-900_000),
        obstacle_at(-409_999),
        obstacle_at(i64::MIN),
    ];
    drop_oor_obstacles(&viewport, &mut obstacles);
    assert_eq!(obstacles, vec![obstacle_at(-410_000), obstacle_at(382_000), obstacle_at(-409_999)]);
    drop_oor_obstacles(&viewport, &mut obstacles);
    assert_eq!(obstacles.len(), 3);
    assert!(obstacle_at(-410_001).is_out_of_range(&viewport));
    assert!(!obstacle_at(-410_000).is_out_of_range(&viewport));
}

#[test]
fn animation_advances_when_the_timer_fires() {
    let mut timer = AnimationTimer(Timer::new(100_000_000).unwrap());
    assert_eq!(flap_anim(60_000_000, &mut timer, 0, 2), 0);
    assert_eq!(timer.0.accumulated(), 60_000_000);
    assert_eq!(flap_anim(60_000_000, &mut timer, 0, 2), 1);
    assert_eq!(timer.0.accumulated(), 20_000_000);
    assert_eq!(flap_anim(80_000_000, &mut timer, 1, 2), 0);
    assert_eq!(timer.0.accumulated(), 0);
    assert_eq!(flap_anim(0, &mut timer, 1, 2), 1);
}

#[test]
fn animation_advances_once_however_long_the_tick() {
    let mut timer = AnimationTimer(Timer::new(100_000_000).unwrap());
    assert_eq!(flap_anim(950_000_000, &mut timer, 3, 5), 4);
    assert_eq!(timer.0.accumulated(), 50_000_000);
    assert_eq!(flap_anim(50_000_000, &mut timer, 4, 5), 0);
    assert_eq!(flap_anim(100_000_000, &mut timer, 0, 1), 0);
    assert_eq!(flap_anim(100_000_000, &mut timer, usize::MAX, 7), ((usize::MAX % 7) + 1) % 7);
    assert_eq!(flap_anim(100_000_000, &mut timer, usize::MAX, usize::MAX), 1);
    assert_eq!(flap_anim(100_000_000, &mut timer, usize::MAX - 1, usize::MAX), 0);
}

#[test]
fn timer_carries_the_remainder() {
    assert!(Timer::new(0).is_none());
    let mut timer = Timer::new(5_000_000_000).unwrap();
    assert_eq!(timer.period(), 5_000_000_000);
    assert_eq!(timer.tick(4_999_999_999), 0);
    assert_eq!(timer.tick(1), 1);
    assert_eq!(timer.accumulated(), 0);
    assert_eq!(timer.tick(12_000_000_000), 2);
    assert_eq!(timer.accumulated(), 2_000_000_000);
    assert_eq!(timer.tick(u64::MAX), 3_689_348_815);
    assert_eq!(timer.accumulated(), 709_551_615);
    let mut fine = Timer::new(1).unwrap();
    assert_eq!(fine.tick(u64::MAX), u64::MAX);
    assert_eq!(fine.accumulated(), 0);
    let mut coarse = Timer::new(u64::MAX).unwrap();
    assert_eq!(coarse.tick(u64::MAX - 1), 0);
    assert_eq!(coarse.tick(u64::MAX), 1);
    assert_eq!(coarse.accumulated(), u64::MAX - 1);
}

#[test]
fn session_begins_waiting_and_at_rest() {
    let world = setup(window());
    assert_eq!(world.viewport, window());
    assert_eq!(world.machine.current(), GameState::Waiting);
    assert_eq!(
        world.player,
        Some(Bird {
            x: 0,
            y: 0,
            rotation: 0,
            linvel_x: 0,
            linvel_y: 0,
            angvel: 0,
            gravity_scale: 0
        })
    );
    assert!(world.obstacles.is_empty());
    assert_eq!(world.score.value, 0);
    assert_eq!(world.score.to_text(), "0");
    assert_eq!((world.data.score, world.data.highest_score), (0, 0));
    assert_eq!(world.menu.z, -1_000);
    assert_eq!(world.final_result.text, "Score");
    assert_eq!(world.high_score.text, "Highest");
    assert_eq!(world.spawn_timer.period(), 5_000_000_000);
    assert_eq!(world.spawn_timer.accumulated(), 0);
    assert_eq!(world.flap_timer.0.period(), 100_000_000);
    assert_eq!(world.flap_timer.0.accumulated(), 0);
    assert_eq!(world.frame, 0);
}

#[test]
fn session_begins_with_all_strips_in_place() {
    let world = setup(window());
    let strip = |half_width: u32, x: i64, y: i64, velocity: i64| Scroll { half_width, x, y, velocity };
    assert_eq!(
        world.scrolls,
        vec![
            strip(768_000, 0, 0, -10_000),
            strip(768_000, 1_536_000, 0, -10_000),
            strip(768_000, 0, 0, -20_000),
            strip(768_000, 1_536_000, 0, -20_000),
            strip(768_000, 0, 0, -50_000),
            strip(768_000, 1_536_000, 0, -50_000),
            strip(1_000_000, 0, -610_000, -90_000),
            strip(1_000_000, 2_000_000, -610_000, -90_000),
            strip(1_000_000, 10_000, 610_000, -90_000),
            strip(1_000_000, 2_010_000, 610_000, -90_000),
        ]
    );
    assert_eq!(
        world.boundaries,
        vec![
            Boundary { y: -610_000, half_width: 1_000_000, half_height: 44_000 },
            Boundary { y: 610_000, half_width: 1_000_000, half_height: 44_000 },
        ]
    );
}
