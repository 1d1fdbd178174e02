use number_catcher::constants::{WINDOW_HEIGHT, WINDOW_WIDTH};
use number_catcher::structs::{GameMode, GameState, HeldKeys, Vec2, WindowSize};

fn running() -> GameState {
    let mut state = GameState::new(WindowSize { width: WINDOW_WIDTH, height: WINDOW_HEIGHT }, 0);
    state.current_mode = GameMode::Running;
    state.current_target = 10;
    state
}

fn held(left: bool, right: bool, up: bool, down: bool) -> HeldKeys {
    HeldKeys { left, right, up, down }
}

#[test]
fn each_key_moves_the_ship_by_its_speed() {
    let mut state = running();
    state.handle_input(held(true, false, false, false));
    assert_eq!(state.ship.position, Vec2 { x: 4900, y: 5000 });
    state.handle_input(held(false, true, false, false));
    assert_eq!(state.ship.position, Vec2 { x: 5000, y: 5000 });
    state.handle_input(held(false, false, true, false));
    assert_eq!(state.ship.position, Vec2 { x: 5000, y: 4920 });
    state.handle_input(held(false, false, false, true));
    assert_eq!(state.ship.position, Vec2 { x: 5000, y: 5000 });
    state.handle_input(held(false, false, false, false));
    assert_eq!(state.ship.position, Vec2 { x: 5000, y: 5000 });
}

#[test]
fn keys_combine_to_diagonal_moves() {
    let mut state = running();
    state.handle_input(held(true, false, true, false));
    assert_eq!(state.ship.position, Vec2 { x: 4900, y: 4920 });
    state.handle_input(held(false, true, false, true));
    assert_eq!(state.ship.position, Vec2 { x: 5000, y: 5000 });
}

#[test]
fn opposite_keys_cancel_inside_the_window() {
    let mut state = running();
    state.handle_input(held(true, true, true, true));
    assert_eq!(state.ship.position, Vec2 { x: 5000, y: 5000 });
}

#[test]
fn opposite_keys_at_the_left_limit_move_right() {
    let mut state = running();
    state.ship.position = Vec2 { x: 49, y: -1 };
    state.handle_input(held(true, true, true, true));
    assert_eq!(state.ship.position, Vec2 { x: 149, y: 79 });
}

#[test]
fn ship_stops_at_the_left_and_top_limits() {
    let mut state = running();
    state.ship.position = Vec2 { x: 50, y: 0 };
    state.handle_input(held(true, false, true, false));
    assert_eq!(state.ship.position, Vec2 { x: -50, y: -80 });
    state.handle_input(held(true, false, true, false));
    assert_eq!(state.ship.position, Vec2 { x: -50, y: -80 });
    state.ship.position = Vec2 { x: 49, y: -1 };
    state.handle_input(held(true, false, true, false));
    assert_eq!(state.ship.position, Vec2 { x: 49, y: -1 });
}

#[test]
fn ship_stops_at_the_right_and_bottom_limits() {
    let mut state = running();
    state.ship.position = Vec2 { x: 10090, y: 7430 };
    state.handle_input(held(false, true, false, true));
    assert_eq!(state.ship.position, Vec2 { x: 10190, y: 7510 });
    state.handle_input(held(false, true, false, true));
    assert_eq!(state.ship.position, Vec2 { x: 10190, y: 7510 });
    state.ship.position = Vec2 { x: 10091, y: 7431 };
    state.handle_input(held(false, true, false, true));
    assert_eq!(state.ship.position, Vec2 { x: 10091, y: 7431 });
}

#[test]
fn ship_walks_across_the_window_and_stays_near_it() {
    let mut state = running();
    for _ in 0..500 {
        state.handle_input(held(false, true, false, true));
    }
    assert_eq!(state.ship.position, Vec2 { x: 10100, y: 7480 });
    for _ in 0..500 {
        state.handle_input(held(true, false, true, false));
    }
    assert_eq!(state.ship.position, Vec2 { x: 0, y: -40 });
}

#[test]
fn ship_moves_only_while_a_round_is_running() {
    for mode in [
        GameMode::IntroScreen,
        GameMode::NextRoundScreen,
        GameMode::OvershotScreen,
        GameMode::OutOfTimeScreen,
        GameMode::WinScreen,
        GameMode::DeathScreen,
    ] {
        let mut state = running();
        state.current_mode = mode;
        let before = state.clone();
        state.handle_input(held(true, false, false, true));
        assert_eq!(state, before);
    }
}

#[test]
fn a_window_smaller_than_the_insets_lets_the_ship_go_left_and_up_only() {
    let mut state = running();
    state.window_size = WindowSize { width: 10, height: 20 };
    state.ship.position = Vec2 { x: 60, y: 10 };
    state.handle_input(held(false, true, false, true));
    assert_eq!(state.ship.position, Vec2 { x: 60, y: 10 });
    state.handle_input(held(true, false, true, false));
    assert_eq!(state.ship.position, Vec2 { x: -40, y: -70 });
}

#[test]
fn ship_stops_at_the_end_of_the_coordinates() {
    let mut state = running();
    state.ship.position = Vec2 { x: 50, y: 0 };
    state.ship.speed = Vec2 { x: i64::MAX, y: i64::MAX };
    state.handle_input(held(true, false, true, false));
    assert_eq!(state.ship.position, Vec2 { x: 50 - i64::MAX, y: -i64::MAX });
    state.ship.position = Vec2 { x: 100, y: 100 };
    state.handle_input(held(false, true, false, true));
    assert_eq!(state.ship.position, Vec2 { x: i64::MAX, y: i64::MAX });
}
