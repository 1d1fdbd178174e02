//! Number Catcher: the rules of a small arcade game.
//!
//! Numbered bubbles drift down the window and the player steers a ship into
//! them. Every caught number is added to a running sum; a round is won when
//! the sum meets the round's target exactly, and costs a life when the sum
//! overshoots or the clock runs out.
//!
//! The crate holds the whole game state and every rule that changes it. It
//! never touches a window, a keyboard or a clock: the host hands in the keys
//! that are held, the key that was pressed, the time in seconds and the frame
//! counter, and draws whatever the state holds afterwards.
//!
//! Lengths are measured in tenths of a pixel, so that speeds below one pixel
//! per frame stay exact in integer arithmetic.
//!
//! - `structs` holds the data, `constants` the fixed numbers.
//! - `model` states every rule as a function on a mathematical view of the
//!   state.
//! - `game` holds the executable rules, each proved to do what `model` says.
//! - `random` is the one place that asks for a random number.
//! - `hud` tells the display what it cannot read off the state.
//! - `laws` proves what holds of the rules for every state and input.

pub mod constants;
pub mod structs;
pub mod model;
mod random;
pub mod game;
pub mod hud;
pub mod laws;
