//! Behavioral tests of the game engine: construction, turning, pausing,
//! ticking, growth, and game-over conditions.

use snek::Context;
use snek::GameState;
use snek::PlayerDirection;
use snek::Point;

fn playing(mut c: Context) -> Context {
    c.state = GameState::Playing;
    c
}

#[test]
fn new_engine_initial_state() {
    let c = Context::new();
    assert_eq!(c.state, GameState::Paused);
    assert_eq!(
        c.player_position,
        vec![Point(20, 15), Point(19, 15), Point(18, 15)]
    );
    assert_eq!(c.player_direction, PlayerDirection::Right);
    assert_eq!(c.food, None);
    assert_eq!(c.board_size, Point(40, 30));
    assert!(c.is_well_formed());
}

#[test]
fn translate_tick_moves_snake_one_cell() {
    let mut c = playing(Context::new());
    c.food = Some(Point(5, 5));
    c.next_tick();
    assert_eq!(c.state, GameState::Playing);
    assert_eq!(
        c.player_position,
        vec![Point(21, 15), Point(20, 15), Point(19, 15)]
    );
    assert_eq!(c.food, Some(Point(5, 5)));
}

#[test]
fn eating_food_grows_snake_by_one() {
    let mut c = playing(Context::new());
    c.food = Some(Point(21, 15));
    c.next_tick();
    assert_eq!(c.state, GameState::Playing);
    assert_eq!(
        c.player_position,
        vec![Point(21, 15), Point(20, 15), Point(19, 15), Point(18, 15)]
    );
    assert_eq!(c.food, None);
}

#[test]
fn length_constant_on_non_eating_ticks() {
    let mut c = playing(Context::new());
    c.food = Some(Point(5, 5));
    for _ in 0..10 {
        let before = c.player_position.len();
        c.next_tick();
        assert_eq!(c.state, GameState::Playing);
        assert_eq!(c.player_position.len(), before);
    }
}

#[test]
fn reversal_turn_is_ignored_all_other_turns_apply() {
    // a fresh engine has last committed Right: Left must be refused
    let mut c = Context::new();
    c.move_left();
    assert_eq!(c.player_direction, PlayerDirection::Right);
    c.move_up();
    assert_eq!(c.player_direction, PlayerDirection::Up);
    c.move_down();
    assert_eq!(c.player_direction, PlayerDirection::Down);
    // last committed is still Right: even after queued turns, Left stays out
    c.move_left();
    assert_eq!(c.player_direction, PlayerDirection::Down);
    c.move_right();
    assert_eq!(c.player_direction, PlayerDirection::Right);
}

#[test]
fn reversal_guard_follows_committed_direction_after_tick() {
    let mut c = playing(Context::new());
    c.food = Some(Point(5, 5));
    c.move_up();
    c.next_tick(); // commits Up; head now (20, 14)
    assert_eq!(c.player_position[0], Point(20, 14));
    c.move_down(); // reversal of committed Up: ignored
    assert_eq!(c.player_direction, PlayerDirection::Up);
    c.move_left();
    assert_eq!(c.player_direction, PlayerDirection::Left);
    c.next_tick(); // commits Left
    assert_eq!(c.player_position[0], Point(19, 14));
    c.move_right(); // reversal of committed Left: ignored
    assert_eq!(c.player_direction, PlayerDirection::Left);
}

#[test]
fn paused_ticks_freeze_snake_and_direction() {
    let mut c = Context::new();
    assert_eq!(c.state, GameState::Paused);
    for _ in 0..5 {
        c.next_tick();
        assert_eq!(c.state, GameState::Paused);
        assert_eq!(
            c.player_position,
            vec![Point(20, 15), Point(19, 15), Point(18, 15)]
        );
        assert_eq!(c.player_direction, PlayerDirection::Right);
    }
}

#[test]
fn over_ticks_freeze_snake_and_direction() {
    let mut c = Context::new();
    c.state = GameState::Over;
    for _ in 0..5 {
        c.next_tick();
        assert_eq!(c.state, GameState::Over);
        assert_eq!(
            c.player_position,
            vec![Point(20, 15), Point(19, 15), Point(18, 15)]
        );
        assert_eq!(c.player_direction, PlayerDirection::Right);
    }
}

#[test]
fn frozen_tick_keeps_existing_food() {
    let mut c = Context::new();
    c.food = Some(Point(7, 8));
    c.next_tick();
    assert_eq!(c.food, Some(Point(7, 8)));
    c.next_tick();
    assert_eq!(c.food, Some(Point(7, 8)));
}

#[test]
fn toggle_pause_cycles_playing_and_paused() {
    let mut c = Context::new();
    c.toggle_pause();
    assert_eq!(c.state, GameState::Playing);
    c.toggle_pause();
    assert_eq!(c.state, GameState::Paused);
}

#[test]
fn restart_from_over_restores_initial_values() {
    let mut c = playing(Context::new());
    c.food = Some(Point(5, 5));
    // steer the snake elsewhere before dying, so the restart is visible
    c.move_up();
    c.next_tick();
    c.next_tick();
    assert_eq!(c.player_position[0], Point(20, 13));
    // drive it up into the wall
    for _ in 0..13 {
        c.next_tick();
    }
    assert_eq!(c.state, GameState::Over);
    c.toggle_pause();
    assert_eq!(c.state, GameState::Playing);
    assert_eq!(
        c.player_position,
        vec![Point(20, 15), Point(19, 15), Point(18, 15)]
    );
    assert_eq!(c.player_direction, PlayerDirection::Right);
    // the restored last-committed direction is Right: Left is refused again
    c.move_left();
    assert_eq!(c.player_direction, PlayerDirection::Right);
    // food was left untouched by the restart
    assert_eq!(c.food, Some(Point(5, 5)));
}

#[test]
fn wall_collision_up_ends_game_and_keeps_snake() {
    let mut c = playing(Context::new());
    c.food = Some(Point(5, 5));
    c.move_up();
    // head starts at (20, 15); 14 ticks reach y == 1, the last interior row
    for _ in 0..14 {
        c.next_tick();
    }
    assert_eq!(c.state, GameState::Playing);
    assert_eq!(c.player_position[0], Point(20, 1));
    let before = c.player_position.clone();
    c.next_tick(); // would move to (20, 0): a wall cell
    assert_eq!(c.state, GameState::Over);
    assert_eq!(c.player_position, before);
}

#[test]
fn left_wall_collision_from_edge_cell() {
    // head at (1, 15) moving left: the next head (0, 15) is a wall cell
    let mut c = playing(Context::new());
    c.player_position = vec![Point(1, 15), Point(2, 15), Point(3, 15)];
    c.player_direction = PlayerDirection::Left;
    c.food = Some(Point(10, 10));
    assert!(c.is_well_formed());
    c.next_tick();
    assert_eq!(c.state, GameState::Over);
    assert_eq!(
        c.player_position,
        vec![Point(1, 15), Point(2, 15), Point(3, 15)]
    );
}

#[test]
fn self_collision_ends_game_and_keeps_snake() {
    let mut c = playing(Context::new());
    // a hook of five cells: moving down from (5, 5) hits the body at (5, 6)
    c.player_position = vec![
        Point(5, 5),
        Point(4, 5),
        Point(4, 6),
        Point(5, 6),
        Point(6, 6),
    ];
    c.player_direction = PlayerDirection::Down;
    c.food = Some(Point(10, 10));
    assert!(c.is_well_formed());
    let before = c.player_position.clone();
    c.next_tick();
    assert_eq!(c.state, GameState::Over);
    assert_eq!(c.player_position, before);
    assert_eq!(c.food, Some(Point(10, 10)));
}

#[test]
fn is_well_formed_rejects_broken_states() {
    let mut c = Context::new();
    assert!(c.is_well_formed());
    c.board_size = Point(10, 10);
    assert!(!c.is_well_formed());

    let mut c = Context::new();
    c.player_position = vec![];
    assert!(!c.is_well_formed());

    let mut c = Context::new();
    c.player_position = vec![Point(0, 5)]; // on the wall
    assert!(!c.is_well_formed());

    let mut c = Context::new();
    c.player_position = vec![Point(5, 5), Point(9, 9)]; // not adjacent
    assert!(!c.is_well_formed());

    let mut c = Context::new();
    c.player_position = vec![Point(5, 5), Point(5, 6), Point(5, 5)]; // repeated
    assert!(!c.is_well_formed());

    let mut c = Context::new();
    c.food = Some(Point(0, 0)); // food on the wall
    assert!(!c.is_well_formed());
}
