//! The data of the game: plain records with public fields.

use vstd::prelude::*;

verus! {

/// Which screen the game is on.
#[derive(Debug, Clone, Copy, PartialEq, Eq, Structural)]
pub enum GameMode {
    IntroScreen,
    Running,
    NextRoundScreen,
    OvershotScreen,
    OutOfTimeScreen,
    WinScreen,
    DeathScreen,
}

/// A point or a step in the window, in tenths of a pixel: origin top-left,
/// `y` growing downwards.
#[derive(Debug, Clone, Copy, PartialEq, Eq, Structural)]
pub struct Vec2 {
    pub x: i64,
    pub y: i64,
}

/// Size of the window in whole pixels.
#[derive(Debug, Clone, Copy, PartialEq, Eq, Structural)]
pub struct WindowSize {
    pub width: u32,
    pub height: u32,
}

/// A numbered bubble in play.
#[derive(Debug, Clone, Copy, PartialEq, Eq, Structural)]
pub struct Bubble {
    /// Identity: given once, never reused.
    pub index: u32,
    /// What the bubble adds to the sum when it is caught.
    pub number: u32,
    pub position: Vec2,
    /// Step per frame.
    pub speed: Vec2,
}

/// The player's ship.
#[derive(Debug, Clone, Copy, PartialEq, Eq, Structural)]
pub struct Ship {
    pub position: Vec2,
    /// Step per frame along each axis while the matching key is held.
    pub speed: Vec2,
}

/// A key going down, as far as the rules tell keys apart.
#[derive(Debug, Clone, Copy, PartialEq, Eq, Structural)]
pub enum Key {
    /// Confirms every screen.
    Space,
    /// Toggles the pause.
    P,
    /// Any key without a meaning of its own.
    Other,
}

/// Which of the four steering keys are held down during a frame.
#[derive(Debug, Clone, Copy, PartialEq, Eq, Structural)]
pub struct HeldKeys {
    pub left: bool,
    pub right: bool,
    pub up: bool,
    pub down: bool,
}

/// What chance decides about a new bubble.
#[derive(Debug, Clone, Copy, PartialEq, Eq, Structural)]
pub struct Spawn {
    pub number: u32,
    /// Horizontal place on the top edge.
    pub x: i64,
    /// Downward step per frame.
    pub speed_y: i64,
}

/// Everything the game knows.
#[derive(Debug, Clone, PartialEq, Eq)]
pub struct GameState {
    pub window_size: WindowSize,
    pub current_mode: GameMode,
    /// Rounds prepared so far; bubbles fall faster with every round.
    pub current_round: u32,
    /// Clock reading when the running round began.
    pub round_start_time_seconds: u64,
    pub round_allowed_time_seconds: u64,
    pub round_time_remaining_seconds: u64,
    pub lives_remaining: u8,
    pub current_target: u32,
    /// Numbers caught in this round, in the order of the catches.
    pub numbers_caught: Vec<u32>,
    pub score: u32,
    pub round_time_bonus: u32,
    pub ship: Ship,
    pub bubbles: Vec<Bubble>,
    /// Identity of the next bubble to be spawned.
    pub next_bubble_index: u32,
    pub paused: bool,
}

impl GameMode {
    /// Whether a round is being played.
    pub fn is_running(&self) -> (r: bool)
        ensures
            r == (*self == GameMode::Running),
    {
        match self {
            GameMode::Running => true,
            _ => false,
        }
    }
}

} // verus!
