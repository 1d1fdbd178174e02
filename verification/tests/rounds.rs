use number_catcher::constants::{
    MAX_TARGET, MIN_ROUND_TIME_SECONDS, MIN_TARGET, STARTING_LIVES, STARTING_ROUND_TIME_SECONDS,
};
use number_catcher::structs::{Bubble, GameMode, GameState, Key, Ship, Vec2, WindowSize};

fn window() -> WindowSize {
    WindowSize { width: 1024, height: 768 }
}

fn bubble(index: u32, number: u32, x: i64, y: i64) -> Bubble {
    Bubble { index, number, position: Vec2 { x, y }, speed: Vec2 { x: 0, y: 10 } }
}

#[test]
fn new_state_starts_on_the_intro_screen() {
    let state = GameState::new(window(), 7);
    assert_eq!(state.window_size, window());
    assert_eq!(state.current_mode, GameMode::IntroScreen);
    assert_eq!(state.current_round, 0);
    assert_eq!(state.round_start_time_seconds, 7);
    assert_eq!(state.round_allowed_time_seconds, 45);
    assert_eq!(state.round_time_remaining_seconds, 45);
    assert_eq!(state.lives_remaining, 3);
    assert_eq!(state.current_target, 0);
    assert!(state.numbers_caught.is_empty());
    assert_eq!(state.score, 0);
    assert_eq!(state.round_time_bonus, 0);
    assert_eq!(
        state.ship,
        Ship { position: Vec2 { x: 5000, y: 5000 }, speed: Vec2 { x: 100, y: 80 } }
    );
    assert!(state.bubbles.is_empty());
    assert_eq!(state.next_bubble_index, 0);
    assert!(!state.paused);
}

#[test]
fn confirm_on_intro_starts_the_first_round() {
    let mut state = GameState::new(window(), 0);
    state.key_down_event(Some(Key::Space), 3);
    assert_eq!(state.current_mode, GameMode::Running);
    assert_eq!(state.round_start_time_seconds, 3);
    assert_eq!(state.lives_remaining, 3);
    assert_eq!(state.score, 0);
    assert!(MIN_TARGET <= state.current_target && state.current_target <= MAX_TARGET);
    assert_eq!(state.current_round, 1);
    assert_eq!(state.round_allowed_time_seconds, 45);
    assert_eq!(state.round_time_remaining_seconds, 45);
    assert!(state.bubbles.is_empty());
    assert!(state.numbers_caught.is_empty());
    assert!(!state.paused);
}

#[test]
fn confirm_on_intro_changes_only_what_a_fresh_round_needs() {
    let mut state = GameState::new(window(), 0);
    let mut expected = state.clone();
    state.key_down_event_with_target(Some(Key::Space), 12, 42);
    expected.current_mode = GameMode::Running;
    expected.round_start_time_seconds = 12;
    expected.current_target = 42;
    expected.current_round = 1;
    assert_eq!(state, expected);
}

#[test]
fn confirm_on_intro_after_a_restart_starts_with_nothing_caught() {
    let mut state = GameState::new(window(), 0);
    state.current_mode = GameMode::IntroScreen;
    state.current_target = 10;
    state.current_round = 4;
    state.round_allowed_time_seconds = 25;
    state.round_time_remaining_seconds = 0;
    state.round_time_bonus = 7;
    state.numbers_caught = vec![4, 8];
    state.bubbles = vec![bubble(11, 5, 100, 100)];
    state.next_bubble_index = 12;
    state.paused = true;

    state.start_fresh_round(33, 90);

    assert_eq!(state.current_mode, GameMode::Running);
    assert_eq!(state.round_start_time_seconds, 90);
    assert_eq!(state.current_target, 33);
    assert!(state.bubbles.is_empty());
    assert!(state.numbers_caught.is_empty());
    assert_eq!(state.round_allowed_time_seconds, 25);
    assert_eq!(state.round_time_remaining_seconds, 25);
    assert_eq!(state.round_time_bonus, 0);
    assert_eq!(state.current_round, 5);
    assert_eq!(state.next_bubble_index, 12);
    assert_eq!(state.lives_remaining, 3);
    assert_eq!(state.score, 0);
    assert!(state.paused);
}

#[test]
fn confirm_on_next_round_screen_starts_the_round() {
    let mut state = GameState::new(window(), 0);
    state.current_mode = GameMode::WinScreen;
    state.current_target = 20;
    state.current_round = 1;
    state.key_down_event_with_target(Some(Key::Space), 3, 42);
    assert_eq!(state.current_mode, GameMode::NextRoundScreen);
    assert_eq!(state.current_target, 42);
    assert_eq!(state.round_start_time_seconds, 0);
    let before = state.clone();
    state.key_down_event_with_target(Some(Key::Space), 9, 17);
    let mut expected = before.clone();
    expected.current_mode = GameMode::Running;
    expected.round_start_time_seconds = 9;
    assert_eq!(state, expected);
    assert_eq!(state.current_target, 42);
    assert_eq!(state.current_round, 2);
}

#[test]
fn keys_without_meaning_change_nothing() {
    let modes = [
        GameMode::IntroScreen,
        GameMode::Running,
        GameMode::NextRoundScreen,
        GameMode::OvershotScreen,
        GameMode::OutOfTimeScreen,
        GameMode::WinScreen,
        GameMode::DeathScreen,
    ];
    let keys = [None, Some(Key::Other)];
    for mode in modes {
        for key in keys {
            let mut state = GameState::new(window(), 0);
            state.current_mode = mode;
            state.current_target = 20;
            let before = state.clone();
            state.key_down_event(key, 5);
            assert_eq!(state, before);
        }
    }
}

#[test]
fn pause_key_means_nothing_outside_a_running_round() {
    let modes = [
        GameMode::IntroScreen,
        GameMode::NextRoundScreen,
        GameMode::OvershotScreen,
        GameMode::OutOfTimeScreen,
        GameMode::WinScreen,
        GameMode::DeathScreen,
    ];
    for mode in modes {
        let mut state = GameState::new(window(), 0);
        state.current_mode = mode;
        state.current_target = 20;
        let before = state.clone();
        state.key_down_event(Some(Key::P), 5);
        assert_eq!(state, before);
    }
}

#[test]
fn confirm_means_nothing_in_a_running_round() {
    let mut state = GameState::new(window(), 0);
    state.current_mode = GameMode::Running;
    state.current_target = 20;
    let before = state.clone();
    state.key_down_event(Some(Key::Space), 5);
    assert_eq!(state, before);
}

#[test]
fn pause_toggle_twice_restores_the_state() {
    let mut state = GameState::new(window(), 0);
    state.current_mode = GameMode::Running;
    state.current_target = 20;
    state.numbers_caught = vec![3, 4];
    state.bubbles = vec![bubble(0, 5, 100, 100)];
    state.next_bubble_index = 1;
    let before = state.clone();

    state.key_down_event(Some(Key::P), 5);
    assert!(state.paused);
    let mut expected = before.clone();
    expected.paused = true;
    assert_eq!(state, expected);

    state.key_down_event(Some(Key::P), 6);
    assert_eq!(state, before);
}

#[test]
fn round_reset_clears_the_round() {
    let mut state = GameState::new(window(), 0);
    state.current_mode = GameMode::WinScreen;
    state.current_target = 20;
    state.current_round = 2;
    state.round_allowed_time_seconds = 35;
    state.round_time_remaining_seconds = 12;
    state.round_time_bonus = 6;
    state.score = 9;
    state.numbers_caught = vec![8, 12];
    state.bubbles = vec![bubble(4, 5, 100, 100), bubble(5, 7, 900, 50)];
    state.next_bubble_index = 6;

    state.prepare_round_with_target(33);

    assert!(state.bubbles.is_empty());
    assert!(state.numbers_caught.is_empty());
    assert_eq!(state.compute_caught_sum(), 0);
    assert_eq!(state.round_allowed_time_seconds, 30);
    assert_eq!(state.round_time_remaining_seconds, state.round_allowed_time_seconds);
    assert_eq!(state.current_round, 3);
    assert_eq!(state.current_target, 33);
    assert_eq!(state.round_time_bonus, 0);
    assert_eq!(state.current_mode, GameMode::NextRoundScreen);
    assert_eq!(state.score, 9);
    assert_eq!(state.lives_remaining, 3);
    assert_eq!(state.next_bubble_index, 6);
}

#[test]
fn prepare_next_round_draws_a_target_within_bounds() {
    let mut state = GameState::new(window(), 0);
    for round in 1..=200u32 {
        state.prepare_next_round();
        assert!(MIN_TARGET <= state.current_target && state.current_target <= MAX_TARGET);
        assert_eq!(state.current_round, round);
        assert_eq!(state.current_mode, GameMode::NextRoundScreen);
    }
}

#[test]
fn allowed_time_shrinks_to_its_floor() {
    let mut state = GameState::new(window(), 0);
    assert_eq!(state.round_allowed_time_seconds, STARTING_ROUND_TIME_SECONDS);
    let expected = [40u64, 35, 30, 25, 20, 15, 15, 15, 15];
    for seconds in expected {
        state.prepare_next_round();
        assert_eq!(state.round_allowed_time_seconds, seconds);
        assert_eq!(state.round_time_remaining_seconds, seconds);
    }
    assert_eq!(state.round_allowed_time_seconds, MIN_ROUND_TIME_SECONDS);
}

#[test]
fn allowed_time_off_the_grid_stops_on_the_floor() {
    let mut state = GameState::new(window(), 0);
    state.round_allowed_time_seconds = 17;
    state.prepare_round_with_target(10);
    assert_eq!(state.round_allowed_time_seconds, 15);
    state.round_allowed_time_seconds = 20;
    state.prepare_round_with_target(10);
    assert_eq!(state.round_allowed_time_seconds, 15);
    state.round_allowed_time_seconds = 21;
    state.prepare_round_with_target(10);
    assert_eq!(state.round_allowed_time_seconds, 16);
}

#[test]
fn round_counter_stops_at_its_limit() {
    let mut state = GameState::new(window(), 0);
    state.current_round = u32::MAX;
    state.prepare_round_with_target(10);
    assert_eq!(state.current_round, u32::MAX);
}

#[test]
fn life_deduction_stops_at_zero() {
    let mut state = GameState::new(window(), 0);
    assert_eq!(state.lives_remaining, 3);
    state.deduct_life();
    assert_eq!(state.lives_remaining, 2);
    state.deduct_life();
    assert_eq!(state.lives_remaining, 1);
    state.deduct_life();
    assert_eq!(state.lives_remaining, 0);
    let at_zero = state.clone();
    for _ in 0..10 {
        state.deduct_life();
        assert_eq!(state, at_zero);
    }
}

#[test]
fn confirm_after_overshoot_without_lives_leads_to_death_and_restart() {
    let mut state = GameState::new(window(), 0);
    state.current_mode = GameMode::OvershotScreen;
    state.lives_remaining = 0;
    state.current_target = 10;
    state.numbers_caught = vec![4, 8];
    state.score = 23;
    state.current_round = 4;
    let before = state.clone();

    state.key_down_event(Some(Key::Space), 50);
    let mut dead = before.clone();
    dead.current_mode = GameMode::DeathScreen;
    assert_eq!(state, dead);

    state.key_down_event(Some(Key::Space), 51);
    assert_eq!(state.current_mode, GameMode::IntroScreen);
    assert_eq!(state.score, 0);
    assert_eq!(state.lives_remaining, STARTING_LIVES);
    assert_eq!(state.current_round, 4);
    let mut restarted = dead.clone();
    restarted.current_mode = GameMode::IntroScreen;
    restarted.score = 0;
    restarted.lives_remaining = 3;
    assert_eq!(state, restarted);
}

#[test]
fn confirm_after_timeout_without_lives_leads_to_death() {
    let mut state = GameState::new(window(), 0);
    state.current_mode = GameMode::OutOfTimeScreen;
    state.lives_remaining = 0;
    state.current_target = 10;
    state.key_down_event(Some(Key::Space), 50);
    assert_eq!(state.current_mode, GameMode::DeathScreen);
}

#[test]
fn confirm_after_a_lost_round_with_lives_prepares_the_next() {
    for mode in [GameMode::OvershotScreen, GameMode::OutOfTimeScreen] {
        let mut state = GameState::new(window(), 0);
        state.current_mode = mode;
        state.lives_remaining = 1;
        state.current_target = 10;
        state.current_round = 1;
        state.round_allowed_time_seconds = 40;
        state.numbers_caught = vec![4, 8];
        state.key_down_event_with_target(Some(Key::Space), 50, 61);
        assert_eq!(state.current_mode, GameMode::NextRoundScreen);
        assert_eq!(state.current_target, 61);
        assert_eq!(state.lives_remaining, 1);
        assert_eq!(state.current_round, 2);
        assert_eq!(state.round_allowed_time_seconds, 35);
        assert!(state.numbers_caught.is_empty());
    }
}

#[test]
fn confirm_after_a_win_prepares_the_next_round_even_without_lives() {
    let mut state = GameState::new(window(), 0);
    state.current_mode = GameMode::WinScreen;
    state.lives_remaining = 0;
    state.current_target = 10;
    state.score = 12;
    state.key_down_event(Some(Key::Space), 50);
    assert_eq!(state.current_mode, GameMode::NextRoundScreen);
    assert_eq!(state.lives_remaining, 0);
    assert_eq!(state.score, 12);
    assert!(MIN_TARGET <= state.current_target && state.current_target <= MAX_TARGET);
}

#[test]
fn prepares_round_tells_when_the_next_round_screen_follows() {
    let mut state = GameState::new(window(), 0);
    assert!(!state.prepares_round(Some(Key::Space)));
    assert!(state.needs_target(Some(Key::Space)));
    assert!(!state.needs_target(Some(Key::P)));
    assert!(!state.needs_target(Some(Key::Other)));
    assert!(!state.needs_target(None));
    state.current_mode = GameMode::WinScreen;
    assert!(state.prepares_round(Some(Key::Space)));
    assert!(state.needs_target(Some(Key::Space)));
    assert!(!state.prepares_round(Some(Key::P)));
    assert!(!state.prepares_round(None));
    state.current_mode = GameMode::OvershotScreen;
    assert!(state.prepares_round(Some(Key::Space)));
    state.lives_remaining = 0;
    assert!(!state.prepares_round(Some(Key::Space)));
    state.current_mode = GameMode::OutOfTimeScreen;
    assert!(!state.prepares_round(Some(Key::Space)));
    state.lives_remaining = 2;
    assert!(state.prepares_round(Some(Key::Space)));
    for mode in [GameMode::Running, GameMode::NextRoundScreen, GameMode::DeathScreen] {
        state.current_mode = mode;
        assert!(!state.prepares_round(Some(Key::Space)));
        assert!(!state.needs_target(Some(Key::Space)));
    }
}

#[test]
fn a_whole_session_cycles_through_the_screens() {
    let mut state = GameState::new(window(), 0);
    state.key_down_event_with_target(Some(Key::Space), 2, 10);
    assert_eq!(state.current_mode, GameMode::Running);
    assert!(state.current_mode.is_running());
    assert_eq!(state.round_allowed_time_seconds, 45);
    // Three rounds are lost on the clock.
    for round in 0..3u64 {
        let start = state.round_start_time_seconds;
        let held = number_catcher::structs::HeldKeys {
            left: false,
            right: false,
            up: false,
            down: false,
        };
        state.update_with_spawn(held, start + 100, None);
        assert_eq!(state.current_mode, GameMode::OutOfTimeScreen);
        assert_eq!(state.lives_remaining as u64, 2 - round);
        if round < 2 {
            state.key_down_event_with_target(Some(Key::Space), start + 101, 10);
            assert_eq!(state.current_mode, GameMode::NextRoundScreen);
            state.key_down_event_with_target(Some(Key::Space), start + 102, 10);
            assert_eq!(state.current_mode, GameMode::Running);
        }
    }
    state.key_down_event(Some(Key::Space), 1000);
    assert_eq!(state.current_mode, GameMode::DeathScreen);
    state.key_down_event(Some(Key::Space), 1001);
    assert_eq!(state.current_mode, GameMode::IntroScreen);
    assert_eq!(state.lives_remaining, 3);
    assert_eq!(state.score, 0);
    assert_eq!(state.current_round, 3);
    assert_eq!(state.round_allowed_time_seconds, 35);
    state.key_down_event(Some(Key::Space), 1002);
    assert_eq!(state.current_mode, GameMode::Running);
    assert_eq!(state.round_start_time_seconds, 1002);
    assert_eq!(state.current_round, 4);
    assert_eq!(state.round_allowed_time_seconds, 35);
    assert_eq!(state.lives_remaining, 3);
}
