//! What the display needs to be told about the state.

use vstd::prelude::*;

use crate::structs::GameState;

verus! {

/// Seconds left at or under which the clock is shown in red.
pub const TIME_RED_SECONDS: u64 = 5;

/// Seconds left at or under which the clock is shown in yellow.
pub const TIME_YELLOW_SECONDS: u64 = 10;

/// Colour of the clock on the screen.
#[derive(Debug, Clone, Copy, PartialEq, Eq, Structural)]
pub enum TimerColor {
    Red,
    Yellow,
    Blue,
}

/// The colour for a clock with `seconds` left.
pub open spec fn timer_color_for(seconds: u64) -> TimerColor {
    if seconds <= TIME_RED_SECONDS {
        TimerColor::Red
    } else if seconds <= TIME_YELLOW_SECONDS {
        TimerColor::Yellow
    } else {
        TimerColor::Blue
    }
}

impl GameState {
    /// Colour of the clock: red for the last seconds, yellow before that,
    /// blue while there is time.
    pub fn timer_color(&self) -> (color: TimerColor)
        ensures
            color == timer_color_for(self.round_time_remaining_seconds),
    {
        if self.round_time_remaining_seconds <= TIME_RED_SECONDS {
            TimerColor::Red
        } else if self.round_time_remaining_seconds <= TIME_YELLOW_SECONDS {
            TimerColor::Yellow
        } else {
            TimerColor::Blue
        }
    }
}

} // verus!
