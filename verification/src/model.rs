//! The game as mathematics: the state with sequences in place of vectors,
//! and every rule as a function from state to state.

use vstd::prelude::*;

use crate::constants::{
    BUBBLE_RADIUS, BUBBLE_SPEED_PER_ROUND, MAX_BUBBLE_SPEED, MAX_TARGET, MIN_BUBBLE_SPEED,
    MIN_ROUND_TIME_SECONDS, MIN_TARGET, NEW_BUBBLE_INTERVAL_FRAMES, SECONDS_LEFT_PER_BONUS_POINT,
    SHIP_BOTTOM_INSET_PIXELS, SHIP_LEFT_LIMIT, SHIP_RIGHT_INSET_PIXELS, SHIP_SPEED_X,
    SHIP_SPEED_Y, SHIP_START_X, SHIP_START_Y, SHIP_TOP_LIMIT, SPAWN_MIN_X,
    SPAWN_RIGHT_INSET_PIXELS, STARTING_LIVES, STARTING_ROUND_TIME_SECONDS,
    TIME_DEDUCTED_PER_ROUND, UNITS_PER_PIXEL,
};
use crate::structs::{
    Bubble, GameMode, GameState, HeldKeys, Key, Ship, Spawn, Vec2, WindowSize,
};

verus! {

/// The nearest coordinate to `v`: `v` itself unless it lies beyond the ends
/// of `i64`, where positions stop.
pub open spec fn clamp_coordinate(v: int) -> i64 {
    if v < i64::MIN {
        i64::MIN
    } else if v > i64::MAX {
        i64::MAX
    } else {
        v as i64
    }
}

/// The nearest counter value to the natural number `v`: counters stop at the
/// end of `u32`.
pub open spec fn clamp_counter(v: int) -> u32 {
    if v < 0 {
        0u32
    } else if v > u32::MAX {
        u32::MAX
    } else {
        v as u32
    }
}

/// Sum of the numbers caught.
pub open spec fn caught_sum(numbers: Seq<u32>) -> nat
    decreases numbers.len(),
{
    if numbers.len() == 0 {
        0
    } else {
        caught_sum(numbers.drop_last()) + numbers.last() as nat
    }
}

/// Whether `pos` lies in the box around `bubble`: two radii to either side,
/// one radius up and down.
pub open spec fn overlaps(bubble: Bubble, pos: Vec2) -> bool {
    &&& bubble.position.x - 2 * BUBBLE_RADIUS <= pos.x <= bubble.position.x + 2 * BUBBLE_RADIUS
    &&& bubble.position.y - BUBBLE_RADIUS <= pos.y <= bubble.position.y + BUBBLE_RADIUS
}

/// Place in `bubbles`, at or after `from`, of the first bubble whose box
/// holds `pos`.
pub open spec fn first_overlap_from(bubbles: Seq<Bubble>, pos: Vec2, from: int) -> Option<int>
    decreases bubbles.len() - from,
{
    if from < 0 || from >= bubbles.len() {
        None
    } else if overlaps(bubbles[from], pos) {
        Some(from)
    } else {
        first_overlap_from(bubbles, pos, from + 1)
    }
}

/// Place in `bubbles` of the first bubble whose box holds `pos`.
pub open spec fn first_overlap(bubbles: Seq<Bubble>, pos: Vec2) -> Option<int> {
    first_overlap_from(bubbles, pos, 0)
}

/// The point on the top edge where a bubble placed at `x` starts.
pub open spec fn spawn_point(x: i64) -> Vec2 {
    Vec2 { x, y: 0 }
}

/// Whether a bubble placed at `x` would start inside the box of a live one.
pub open spec fn spawn_blocked(bubbles: Seq<Bubble>, x: i64) -> bool {
    first_overlap(bubbles, spawn_point(x)) is Some
}

/// Where the right margin for new bubbles lies in a window of the given
/// size.
pub open spec fn spawn_max_x(window: WindowSize) -> int {
    (window.width - SPAWN_RIGHT_INSET_PIXELS) * UNITS_PER_PIXEL
}

/// Rightmost place for a new bubble: the right margin, or the leftmost place
/// where the window is too narrow to have the margin right of it. The places
/// for new bubbles run from the leftmost place to this one.
pub open spec fn spawn_range_end(window: WindowSize) -> i64 {
    if spawn_max_x(window) < SPAWN_MIN_X {
        SPAWN_MIN_X
    } else {
        spawn_max_x(window) as i64
    }
}

/// The first place right of the box of bubble `i`: where the search for a
/// free place goes on after that bubble.
pub open spec fn place_beyond(bubbles: Seq<Bubble>, i: int) -> int {
    bubbles[i].position.x + 2 * BUBBLE_RADIUS + 1
}

/// The bubble after one frame of falling.
pub open spec fn moved_bubble(bubble: Bubble) -> Bubble {
    Bubble {
        position: Vec2 {
            x: clamp_coordinate(bubble.position.x + bubble.speed.x),
            y: clamp_coordinate(bubble.position.y + bubble.speed.y),
        },
        ..bubble
    }
}

/// Where the ship is after one frame with the keys `held`. The four keys are
/// looked at in the order left, right, up, down; each one moves the ship only
/// from inside its own limit, and opposite keys may both act.
pub open spec fn steered(ship: Ship, window: WindowSize, held: HeldKeys) -> Vec2 {
    let x0 = ship.position.x;
    let x1 = if held.left && x0 >= SHIP_LEFT_LIMIT {
        clamp_coordinate(x0 - ship.speed.x)
    } else {
        x0
    };
    let x2 = if held.right && x1 <= (window.width - SHIP_RIGHT_INSET_PIXELS) * UNITS_PER_PIXEL {
        clamp_coordinate(x1 + ship.speed.x)
    } else {
        x1
    };
    let y0 = ship.position.y;
    let y1 = if held.up && y0 >= SHIP_TOP_LIMIT {
        clamp_coordinate(y0 - ship.speed.y)
    } else {
        y0
    };
    let y2 = if held.down && y1 <= (window.height - SHIP_BOTTOM_INSET_PIXELS) * UNITS_PER_PIXEL {
        clamp_coordinate(y1 + ship.speed.y)
    } else {
        y1
    };
    Vec2 { x: x2, y: y2 }
}

/// Time allowed for the round after one that was allowed `seconds`: shorter
/// by the fixed step, but never under the floor.
pub open spec fn next_allowed_time(seconds: u64) -> u64 {
    if seconds >= MIN_ROUND_TIME_SECONDS + TIME_DEDUCTED_PER_ROUND {
        (seconds - TIME_DEDUCTED_PER_ROUND) as u64
    } else {
        MIN_ROUND_TIME_SECONDS
    }
}

/// Bonus points for winning with `seconds` left on the clock.
pub open spec fn time_bonus(seconds: u64) -> u32 {
    clamp_counter(seconds as int / SECONDS_LEFT_PER_BONUS_POINT as int)
}

/// The bubble that a spawn puts into play under the identity `index`: on the
/// top edge, falling straight down.
pub open spec fn spawned_bubble(index: u32, spawn: Spawn) -> Bubble {
    Bubble {
        index,
        number: spawn.number,
        position: spawn_point(spawn.x),
        speed: Vec2 { x: 0, y: spawn.speed_y },
    }
}

/// The spawn that put `bubble` into play, read back from a bubble that has
/// not moved yet.
pub open spec fn spawn_of(bubble: Bubble) -> Spawn {
    Spawn { number: bubble.number, x: bubble.position.x, speed_y: bubble.speed.y }
}

/// The game state as a mathematical value.
pub struct GameStateView {
    pub window_size: WindowSize,
    pub current_mode: GameMode,
    pub current_round: u32,
    pub round_start_time_seconds: u64,
    pub round_allowed_time_seconds: u64,
    pub round_time_remaining_seconds: u64,
    pub lives_remaining: u8,
    pub current_target: u32,
    pub numbers_caught: Seq<u32>,
    pub score: u32,
    pub round_time_bonus: u32,
    pub ship: Ship,
    pub bubbles: Seq<Bubble>,
    pub next_bubble_index: u32,
    pub paused: bool,
}

impl View for GameState {
    type V = GameStateView;

    open spec fn view(&self) -> GameStateView {
        GameStateView {
            window_size: self.window_size,
            current_mode: self.current_mode,
            current_round: self.current_round,
            round_start_time_seconds: self.round_start_time_seconds,
            round_allowed_time_seconds: self.round_allowed_time_seconds,
            round_time_remaining_seconds: self.round_time_remaining_seconds,
            lives_remaining: self.lives_remaining,
            current_target: self.current_target,
            numbers_caught: self.numbers_caught@,
            score: self.score,
            round_time_bonus: self.round_time_bonus,
            ship: self.ship,
            bubbles: self.bubbles@,
            next_bubble_index: self.next_bubble_index,
            paused: self.paused,
        }
    }
}

impl GameStateView {
    /// The state a session starts in.
    pub open spec fn initial(window_size: WindowSize, now_seconds: u64) -> GameStateView {
        GameStateView {
            window_size,
            current_mode: GameMode::IntroScreen,
            current_round: 0,
            round_start_time_seconds: now_seconds,
            round_allowed_time_seconds: STARTING_ROUND_TIME_SECONDS,
            round_time_remaining_seconds: STARTING_ROUND_TIME_SECONDS,
            lives_remaining: STARTING_LIVES,
            current_target: 0,
            numbers_caught: Seq::empty(),
            score: 0,
            round_time_bonus: 0,
            ship: Ship {
                position: Vec2 { x: SHIP_START_X, y: SHIP_START_Y },
                speed: Vec2 { x: SHIP_SPEED_X, y: SHIP_SPEED_Y },
            },
            bubbles: Seq::empty(),
            next_bubble_index: 0,
            paused: false,
        }
    }

    /// No identity is carried by two live bubbles, and every identity in play
    /// was handed out before the next one.
    pub open spec fn identities_unique(self) -> bool {
        &&& forall|i: int| 0 <= i < self.bubbles.len() ==>
                (#[trigger] self.bubbles[i]).index < self.next_bubble_index
        &&& forall|i: int, j: int| 0 <= i < j < self.bubbles.len() ==>
                (#[trigger] self.bubbles[i]).index != (#[trigger] self.bubbles[j]).index
    }

    /// What holds of every state the game can reach.
    pub open spec fn wf(self) -> bool {
        &&& self.identities_unique()
        &&& MIN_ROUND_TIME_SECONDS <= self.round_allowed_time_seconds
                <= STARTING_ROUND_TIME_SECONDS
        &&& self.round_time_remaining_seconds <= self.round_allowed_time_seconds
        &&& self.lives_remaining <= STARTING_LIVES
        &&& self.current_mode != GameMode::IntroScreen ==>
                MIN_TARGET <= self.current_target <= MAX_TARGET
    }

    /// Sum of the numbers caught in this round.
    pub open spec fn caught_total(self) -> nat {
        caught_sum(self.numbers_caught)
    }

    /// What is still missing to the target; nothing once the sum has reached
    /// or passed it.
    pub open spec fn shortfall(self) -> nat {
        if self.caught_total() < self.current_target {
            (self.current_target - self.caught_total()) as nat
        } else {
            0
        }
    }

    /// Largest number a new bubble may carry. With `respect_shortfall` the
    /// shortfall limits it, otherwise the target; it is never under one.
    pub open spec fn number_limit(self, respect_shortfall: bool) -> u32 {
        let limit = if respect_shortfall {
            self.shortfall()
        } else {
            self.current_target as nat
        };
        if limit < 1 {
            1u32
        } else {
            limit as u32
        }
    }

    /// Slowest fall of a bubble spawned in this round.
    pub open spec fn min_speed(self) -> int {
        MIN_BUBBLE_SPEED + BUBBLE_SPEED_PER_ROUND * self.current_round
    }

    /// Fastest fall of a bubble spawned in this round.
    pub open spec fn max_speed(self) -> int {
        MAX_BUBBLE_SPEED + BUBBLE_SPEED_PER_ROUND * self.current_round
    }

    /// Whether a new bubble can be placed at `x`: the place lies between the
    /// margins and no live bubble blocks it.
    pub open spec fn place_free(self, x: i64) -> bool {
        &&& SPAWN_MIN_X <= x <= spawn_range_end(self.window_size)
        &&& !spawn_blocked(self.bubbles, x)
    }

    /// Whether `x` is the leftmost place where a new bubble can be placed.
    pub open spec fn leftmost_free_place(self, x: i64) -> bool {
        &&& self.place_free(x)
        &&& forall|y: i64| #[trigger] self.place_free(y) ==> x <= y
    }

    /// Whether a new bubble can be placed anywhere.
    pub open spec fn has_free_place(self) -> bool {
        exists|x: i64| #[trigger] self.place_free(x)
    }

    /// What every spawn that chance can produce in this state satisfies: a
    /// number from one up to the target, a free place, and a speed from this
    /// round's range.
    pub open spec fn spawn_valid(self, spawn: Spawn) -> bool {
        &&& 1 <= spawn.number <= self.number_limit(false)
        &&& self.place_free(spawn.x)
        &&& self.min_speed() <= spawn.speed_y <= self.max_speed()
    }

    /// Whether chance is asked for a new bubble in the frame with counter
    /// `ticks` at `now_seconds`: on every frame of the spawn interval that
    /// gets as far as the bubbles.
    pub open spec fn spawn_due(self, now_seconds: u64, ticks: usize) -> bool {
        ticks % NEW_BUBBLE_INTERVAL_FRAMES == 0 && self.simulates(now_seconds)
    }

    /// Whether the frame with counter `ticks` at `now_seconds` sees a spawn:
    /// one is due and a place for it is free.
    pub open spec fn spawn_certain(self, now_seconds: u64, ticks: usize) -> bool {
        self.spawn_due(now_seconds, ticks) && self.has_free_place()
    }

    /// Whether the frame with counter `ticks` at `now_seconds` may see the
    /// spawn `spawn`: a valid one where a spawn is due and a place is free,
    /// and none everywhere else.
    pub open spec fn spawn_permitted(self, now_seconds: u64, ticks: usize, spawn: Option<Spawn>)
        -> bool {
        match spawn {
            Some(s) => self.spawn_due(now_seconds, ticks) && self.spawn_valid(s),
            None => !self.spawn_certain(now_seconds, ticks),
        }
    }

    /// One life less, unless none is left.
    pub open spec fn life_deducted(self) -> GameStateView {
        GameStateView {
            lives_remaining: if self.lives_remaining > 0 {
                (self.lives_remaining - 1) as u8
            } else {
                0u8
            },
            ..self
        }
    }

    /// Seconds left in the round when the clock reads `now_seconds`: the
    /// allowed time less the time since the round began, and never under
    /// zero. A clock that reads less than it did when the round began counts
    /// as no time gone.
    pub open spec fn time_left(self, now_seconds: u64) -> u64 {
        let elapsed: int = if now_seconds >= self.round_start_time_seconds {
            now_seconds - self.round_start_time_seconds
        } else {
            0
        };
        if elapsed >= self.round_allowed_time_seconds {
            0u64
        } else {
            (self.round_allowed_time_seconds - elapsed) as u64
        }
    }

    /// The clock is read: the remaining time is set afresh, and a round whose
    /// time is up costs a life and ends on the out-of-time screen.
    pub open spec fn timer_processed(self, now_seconds: u64) -> GameStateView {
        let left = self.time_left(now_seconds);
        if left == 0 {
            GameStateView {
                round_time_remaining_seconds: 0,
                current_mode: GameMode::OutOfTimeScreen,
                ..self.life_deducted()
            }
        } else {
            GameStateView { round_time_remaining_seconds: left, ..self }
        }
    }

    /// The round is won: one point and the time bonus go to the score.
    pub open spec fn won(self) -> GameStateView {
        let bonus = time_bonus(self.round_time_remaining_seconds);
        GameStateView {
            score: clamp_counter(self.score + 1 + bonus),
            round_time_bonus: bonus,
            current_mode: GameMode::WinScreen,
            ..self
        }
    }

    /// The next round is prepared with the given target.
    pub open spec fn round_prepared(self, target: u32) -> GameStateView {
        let allowed = next_allowed_time(self.round_allowed_time_seconds);
        GameStateView {
            current_target: target,
            bubbles: Seq::empty(),
            numbers_caught: Seq::empty(),
            round_allowed_time_seconds: allowed,
            round_time_remaining_seconds: allowed,
            current_round: clamp_counter(self.current_round + 1),
            round_time_bonus: 0,
            current_mode: GameMode::NextRoundScreen,
            ..self
        }
    }

    /// A bubble enters play under the next identity. Once the identities are
    /// used up nothing is spawned any more.
    pub open spec fn bubble_spawned(self, spawn: Spawn) -> GameStateView {
        if self.next_bubble_index == u32::MAX {
            self
        } else {
            GameStateView {
                bubbles: self.bubbles.push(spawned_bubble(self.next_bubble_index, spawn)),
                next_bubble_index: (self.next_bubble_index + 1) as u32,
                ..self
            }
        }
    }

    /// The spawn of a frame, if it has one.
    pub open spec fn spawn_applied(self, spawn: Option<Spawn>) -> GameStateView {
        match spawn {
            Some(s) => self.bubble_spawned(s),
            None => self,
        }
    }

    /// Every bubble falls by one step.
    pub open spec fn bubbles_moved(self) -> GameStateView {
        GameStateView {
            bubbles: Seq::new(self.bubbles.len(), |i: int| moved_bubble(self.bubbles[i])),
            ..self
        }
    }

    /// The first bubble whose box holds the ship is caught: it leaves play
    /// and its number joins the numbers caught.
    pub open spec fn bubble_caught(self) -> GameStateView {
        match first_overlap(self.bubbles, self.ship.position) {
            Some(i) => GameStateView {
                numbers_caught: self.numbers_caught.push(self.bubbles[i].number),
                bubbles: self.bubbles.remove(i),
                ..self
            },
            None => self,
        }
    }

    /// The sum is held against the target of the running round: under it
    /// nothing happens, over it a life is lost, on it the round is won.
    pub open spec fn round_resolved(self) -> GameStateView {
        if self.current_mode != GameMode::Running {
            self
        } else if self.caught_total() < self.current_target {
            self
        } else if self.caught_total() > self.current_target {
            GameStateView { current_mode: GameMode::OvershotScreen, ..self.life_deducted() }
        } else {
            self.won()
        }
    }

    /// The steering keys move the ship while a round is running.
    pub open spec fn input_handled(self, held: HeldKeys) -> GameStateView {
        if self.current_mode == GameMode::Running {
            GameStateView {
                ship: Ship {
                    position: steered(self.ship, self.window_size, held),
                    ..self.ship
                },
                ..self
            }
        } else {
            self
        }
    }

    /// Whether the frame goes past steering and reading the clock, on to the
    /// bubbles: only in a running round that is not paused and has time left.
    pub open spec fn simulates(self, now_seconds: u64) -> bool {
        &&& self.current_mode == GameMode::Running
        &&& !self.paused
        &&& self.time_left(now_seconds) > 0
    }

    /// One frame: steering always; then, in a running round that is not
    /// paused, the clock; then, unless the time is up, the spawn, the fall of
    /// the bubbles, the catch and the verdict on the sum.
    pub open spec fn updated(self, held: HeldKeys, now_seconds: u64, spawn: Option<Spawn>)
        -> GameStateView {
        let steered = self.input_handled(held);
        if steered.paused || steered.current_mode != GameMode::Running {
            steered
        } else {
            let timed = steered.timer_processed(now_seconds);
            if timed.current_mode != GameMode::Running {
                timed
            } else {
                timed.spawn_applied(spawn).bubbles_moved().bubble_caught().round_resolved()
            }
        }
    }

    /// A restart after the last life: score and lives as at the start.
    pub open spec fn restarted(self) -> GameStateView {
        GameStateView {
            score: 0,
            lives_remaining: STARTING_LIVES,
            current_mode: GameMode::IntroScreen,
            ..self
        }
    }

    /// A round starts straight from the intro screen at `now_seconds`, with
    /// the given target: nothing is in play and nothing caught, the clock
    /// shows the allowed time, which stays as it is, and the round counts as
    /// one more.
    pub open spec fn fresh_round_started(self, target: u32, now_seconds: u64) -> GameStateView {
        GameStateView {
            current_target: target,
            bubbles: Seq::empty(),
            numbers_caught: Seq::empty(),
            round_time_remaining_seconds: self.round_allowed_time_seconds,
            current_round: clamp_counter(self.current_round + 1),
            round_time_bonus: 0,
            current_mode: GameMode::Running,
            round_start_time_seconds: now_seconds,
            ..self
        }
    }

    /// A prepared round starts running at `now_seconds`.
    pub open spec fn round_started(self, now_seconds: u64) -> GameStateView {
        GameStateView {
            current_mode: GameMode::Running,
            round_start_time_seconds: now_seconds,
            ..self
        }
    }

    /// Whether a press of `key` prepares the next round.
    pub open spec fn prepares_round(self, key: Option<Key>) -> bool {
        &&& key == Some(Key::Space)
        &&& match self.current_mode {
            GameMode::WinScreen => true,
            GameMode::OvershotScreen | GameMode::OutOfTimeScreen => self.lives_remaining > 0,
            _ => false,
        }
    }

    /// Whether a press of `key` starts a round straight from the intro
    /// screen.
    pub open spec fn starts_fresh_round(self, key: Option<Key>) -> bool {
        key == Some(Key::Space) && self.current_mode == GameMode::IntroScreen
    }

    /// Whether a press of `key` calls for a new target: it prepares the next
    /// round or starts one from the intro screen.
    pub open spec fn needs_target(self, key: Option<Key>) -> bool {
        self.prepares_round(key) || self.starts_fresh_round(key)
    }

    /// A key goes down. `Space` confirms the screen that is shown, `P` pauses
    /// and resumes a running round, any other key and a press without a key
    /// change nothing. `target` is the target of the round to come, used
    /// where the press calls for one.
    pub open spec fn key_pressed(self, key: Option<Key>, now_seconds: u64, target: u32)
        -> GameStateView {
        match self.current_mode {
            GameMode::IntroScreen => {
                if key == Some(Key::Space) {
                    self.fresh_round_started(target, now_seconds)
                } else {
                    self
                }
            },
            GameMode::WinScreen => {
                if key == Some(Key::Space) {
                    self.round_prepared(target)
                } else {
                    self
                }
            },
            GameMode::OvershotScreen | GameMode::OutOfTimeScreen => {
                if key == Some(Key::Space) {
                    if self.lives_remaining == 0 {
                        GameStateView { current_mode: GameMode::DeathScreen, ..self }
                    } else {
                        self.round_prepared(target)
                    }
                } else {
                    self
                }
            },
            GameMode::DeathScreen => {
                if key == Some(Key::Space) {
                    self.restarted()
                } else {
                    self
                }
            },
            GameMode::Running => {
                if key == Some(Key::P) {
                    GameStateView { paused: !self.paused, ..self }
                } else {
                    self
                }
            },
            GameMode::NextRoundScreen => {
                if key == Some(Key::Space) {
                    self.round_started(now_seconds)
                } else {
                    self
                }
            },
        }
    }
}

impl GameState {
    /// What holds of every state the game can reach.
    pub open spec fn wf(&self) -> bool {
        self@.wf()
    }
}

} // verus!
