//! The rules, as methods of the game state.

use vstd::prelude::*;

use crate::constants::{
    BUBBLE_RADIUS, BUBBLE_SPEED_PER_ROUND, MAX_BUBBLE_SPEED, MAX_SPAWN_ATTEMPTS, MAX_TARGET,
    MIN_BUBBLE_SPEED, MIN_ROUND_TIME_SECONDS, MIN_TARGET, NEW_BUBBLE_INTERVAL_FRAMES,
    RESPECT_SHORTFALL_DENOMINATOR, RESPECT_SHORTFALL_NUMERATOR, SECONDS_LEFT_PER_BONUS_POINT,
    SHIP_BOTTOM_INSET_PIXELS, SHIP_LEFT_LIMIT, SHIP_RIGHT_INSET_PIXELS, SHIP_SPEED_X,
    SHIP_SPEED_Y, SHIP_START_X, SHIP_START_Y, SHIP_TOP_LIMIT, SPAWN_MIN_X,
    SPAWN_RIGHT_INSET_PIXELS, STARTING_LIVES, STARTING_ROUND_TIME_SECONDS,
    TIME_DEDUCTED_PER_ROUND, UNITS_PER_PIXEL,
};
use crate::laws::{law_free_place_is_beyond_a_bubble, law_limit_by_shortfall_is_lower};
use crate::model::{
    caught_sum, clamp_coordinate, clamp_counter, first_overlap, first_overlap_from,
    moved_bubble, overlaps, place_beyond, spawn_of, spawn_range_end, GameStateView,
};
use crate::random::{chance, uniform_between};
use crate::structs::{
    Bubble, GameMode, GameState, HeldKeys, Key, Ship, Spawn, Vec2, WindowSize,
};

verus! {

/// `a + b`, stopped at the ends of the coordinate range.
fn add_clamped(a: i64, b: i64) -> (r: i64)
    ensures
        r == clamp_coordinate(a + b),
{
    match a.checked_add(b) {
        Some(v) => v,
        None => if b > 0 {
            i64::MAX
        } else {
            i64::MIN
        },
    }
}

/// `a - b`, stopped at the ends of the coordinate range.
fn sub_clamped(a: i64, b: i64) -> (r: i64)
    ensures
        r == clamp_coordinate(a - b),
{
    match a.checked_sub(b) {
        Some(v) => v,
        None => if b > 0 {
            i64::MIN
        } else {
            i64::MAX
        },
    }
}

/// Whether `pos` lies in the box around `bubble`.
fn bubble_overlaps(bubble: &Bubble, pos: Vec2) -> (r: bool)
    ensures
        r == overlaps(*bubble, pos),
{
    let px: i128 = pos.x as i128;
    let py: i128 = pos.y as i128;
    let bx: i128 = bubble.position.x as i128;
    let by: i128 = bubble.position.y as i128;
    let radius: i128 = BUBBLE_RADIUS as i128;
    let overlaps_x: bool = px >= bx - radius * 2 && px <= bx + radius * 2;
    let overlaps_y: bool = py >= by - radius && py <= by + radius;
    overlaps_x && overlaps_y
}

impl GameState {
    /// The state a session starts in: the intro screen, full lives, no score,
    /// the ship at its starting place.
    pub fn new(window_size: WindowSize, now_seconds: u64) -> (state: Self)
        ensures
            state@ == GameStateView::initial(window_size, now_seconds),
            state.wf(),
    {
        Self {
            window_size,
            lives_remaining: STARTING_LIVES,
            current_mode: GameMode::IntroScreen,
            current_round: 0,
            round_allowed_time_seconds: STARTING_ROUND_TIME_SECONDS,
            round_start_time_seconds: now_seconds,
            round_time_remaining_seconds: STARTING_ROUND_TIME_SECONDS,
            bubbles: Vec::new(),
            next_bubble_index: 0,
            current_target: 0,
            numbers_caught: Vec::new(),
            score: 0,
            round_time_bonus: 0,
            ship: Ship {
                position: Vec2 { x: SHIP_START_X, y: SHIP_START_Y },
                speed: Vec2 { x: SHIP_SPEED_X, y: SHIP_SPEED_Y },
            },
            paused: false,
        }
    }

    /// A whole number drawn evenly from `lower` up to and including `upper`.
    /// Where the range holds nothing or a single number, `lower` is the
    /// answer and nothing is drawn.
    pub fn random_between(lower: i64, upper: i64) -> (r: i64)
        ensures
            lower <= upper ==> lower <= r <= upper,
            upper <= lower ==> r == lower,
    {
        if lower < upper {
            uniform_between(lower, upper)
        } else {
            lower
        }
    }

    /// The target of a new round.
    pub fn random_target() -> (target: u32)
        ensures
            MIN_TARGET <= target <= MAX_TARGET,
    {
        Self::random_between(MIN_TARGET as i64, MAX_TARGET as i64) as u32
    }

    /// Place in `bubbles` of the first bubble whose box holds `pos`.
    pub fn find_overlap(bubbles: &Vec<Bubble>, pos: Vec2) -> (found: Option<usize>)
        ensures
            match found {
                Some(i) => i < bubbles.len() && first_overlap(bubbles@, pos) == Some(i as int),
                None => first_overlap(bubbles@, pos) is None,
            },
    {
        let mut i: usize = 0;
        while i < bubbles.len()
            invariant
                i <= bubbles.len(),
                first_overlap(bubbles@, pos) == first_overlap_from(bubbles@, pos, i as int),
            decreases bubbles.len() - i,
        {
            if bubble_overlaps(&bubbles[i], pos) {
                return Some(i);
            }
            i += 1;
        }
        None
    }

    /// The first bubble, in the order of `bubbles`, whose box holds `pos`.
    pub fn overlaps_with_bubble(bubbles: &Vec<Bubble>, pos: Vec2) -> (found: Option<&Bubble>)
        ensures
            match found {
                Some(bubble) => first_overlap(bubbles@, pos) matches Some(i)
                    && 0 <= i < bubbles@.len() && *bubble == bubbles@[i],
                None => first_overlap(bubbles@, pos) is None,
            },
    {
        match Self::find_overlap(bubbles, pos) {
            Some(i) => Some(&bubbles[i]),
            None => None,
        }
    }

    /// Sum of the numbers caught in this round, stopped at the end of `u64`.
    fn caught_total(&self) -> (total: u64)
        ensures
            self@.caught_total() <= u64::MAX ==> total == self@.caught_total(),
            self@.caught_total() > u64::MAX ==> total == u64::MAX,
    {
        let mut total: u64 = 0;
        let mut i: usize = 0;
        while i < self.numbers_caught.len()
            invariant
                i <= self.numbers_caught.len(),
                caught_sum(self.numbers_caught@.take(i as int)) <= u64::MAX ==> total
                    == caught_sum(self.numbers_caught@.take(i as int)),
                caught_sum(self.numbers_caught@.take(i as int)) > u64::MAX ==> total == u64::MAX,
            decreases self.numbers_caught.len() - i,
        {
            proof {
                let next = self.numbers_caught@.take(i + 1);
                assert(next.drop_last() == self.numbers_caught@.take(i as int));
                assert(next.last() == self.numbers_caught@[i as int]);
            }
            total = total.saturating_add(self.numbers_caught[i] as u64);
            i += 1;
        }
        proof {
            assert(self.numbers_caught@.take(i as int) == self.numbers_caught@);
        }
        total
    }

    /// Sum of the numbers caught in this round, stopped at the end of `u32`.
    pub fn compute_caught_sum(&self) -> (total: u32)
        ensures
            total == clamp_counter(self@.caught_total() as int),
    {
        let total: u64 = self.caught_total();
        if total > u32::MAX as u64 {
            u32::MAX
        } else {
            total as u32
        }
    }
}

impl GameState {
    /// Takes one life, unless none is left.
    pub fn deduct_life(&mut self)
        ensures
            final(self)@ == old(self)@.life_deducted(),
            old(self).wf() ==> final(self).wf(),
    {
        if self.lives_remaining > 0 {
            self.lives_remaining -= 1;
        }
    }

    /// Ends the round as won: one point and the time bonus go to the score.
    pub fn handle_win(&mut self)
        ensures
            final(self)@ == old(self)@.won(),
            old(self).wf() && old(self).current_mode != GameMode::IntroScreen
                ==> final(self).wf(),
    {
        let halves: u64 = self.round_time_remaining_seconds / SECONDS_LEFT_PER_BONUS_POINT;
        let bonus: u32 = if halves > u32::MAX as u64 {
            u32::MAX
        } else {
            halves as u32
        };
        self.score = self.score.saturating_add(1).saturating_add(bonus);
        self.round_time_bonus = bonus;
        self.current_mode = GameMode::WinScreen;
    }

    /// Reads the clock: sets the remaining time afresh from the allowed time
    /// and the time since the round began. When no time is left the round
    /// costs a life and ends on the out-of-time screen.
    pub fn process_timer(&mut self, now_seconds: u64)
        ensures
            final(self)@ == old(self)@.timer_processed(now_seconds),
            old(self).wf() && old(self).current_mode != GameMode::IntroScreen
                ==> final(self).wf(),
    {
        let time_elapsed: u64 = now_seconds.saturating_sub(self.round_start_time_seconds);
        self.round_time_remaining_seconds =
            self.round_allowed_time_seconds.saturating_sub(time_elapsed);
        if self.round_time_remaining_seconds == 0 {
            self.deduct_life();
            self.current_mode = GameMode::OutOfTimeScreen;
        }
    }

    /// Prepares the next round with the given target: the window is cleared
    /// of bubbles, the caught numbers are forgotten, the allowed time shrinks
    /// by one step down to its floor and the clock is set to it, and the
    /// next-round screen is shown.
    pub fn prepare_round_with_target(&mut self, target: u32)
        ensures
            final(self)@ == old(self)@.round_prepared(target),
            old(self).wf() && MIN_TARGET <= target <= MAX_TARGET ==> final(self).wf(),
    {
        self.current_target = target;
        self.bubbles = Vec::new();
        self.numbers_caught = Vec::new();

        if self.round_allowed_time_seconds >= MIN_ROUND_TIME_SECONDS + TIME_DEDUCTED_PER_ROUND {
            self.round_allowed_time_seconds -= TIME_DEDUCTED_PER_ROUND;
        } else {
            self.round_allowed_time_seconds = MIN_ROUND_TIME_SECONDS;
        }
        self.round_time_remaining_seconds = self.round_allowed_time_seconds;
        self.current_round = self.current_round.saturating_add(1);

        self.round_time_bonus = 0;
        self.current_mode = GameMode::NextRoundScreen;
    }

    /// Prepares the next round with a target drawn by chance.
    pub fn prepare_next_round(&mut self)
        ensures
            MIN_TARGET <= final(self).current_target <= MAX_TARGET,
            final(self)@ == old(self)@.round_prepared(final(self).current_target),
            old(self).wf() ==> final(self).wf(),
    {
        let target = Self::random_target();
        self.prepare_round_with_target(target);
    }

    /// Moves the ship by the steering keys that are held, while a round is
    /// running.
    pub fn handle_input(&mut self, held: HeldKeys)
        ensures
            final(self)@ == old(self)@.input_handled(held),
            old(self).wf() ==> final(self).wf(),
    {
        match self.current_mode {
            GameMode::Running => {
                let right_limit: i64 = (self.window_size.width as i64 - SHIP_RIGHT_INSET_PIXELS)
                    * UNITS_PER_PIXEL;
                let bottom_limit: i64 = (self.window_size.height as i64
                    - SHIP_BOTTOM_INSET_PIXELS) * UNITS_PER_PIXEL;
                if held.left && self.ship.position.x >= SHIP_LEFT_LIMIT {
                    self.ship.position.x = sub_clamped(self.ship.position.x, self.ship.speed.x);
                }
                if held.right && self.ship.position.x <= right_limit {
                    self.ship.position.x = add_clamped(self.ship.position.x, self.ship.speed.x);
                }
                if held.up && self.ship.position.y >= SHIP_TOP_LIMIT {
                    self.ship.position.y = sub_clamped(self.ship.position.y, self.ship.speed.y);
                }
                if held.down && self.ship.position.y <= bottom_limit {
                    self.ship.position.y = add_clamped(self.ship.position.y, self.ship.speed.y);
                }
            },
            _ => (),
        }
    }
}

impl GameState {
    /// Largest number a new bubble may carry. With `respect_shortfall` it is
    /// what is still missing to the target, otherwise the target itself; it
    /// is never under one, also when nothing is missing any more.
    pub fn bubble_number_limit(&self, respect_shortfall: bool) -> (limit: u32)
        ensures
            limit == self@.number_limit(respect_shortfall),
    {
        let mut upper_limit: u32 = self.current_target;
        if respect_shortfall {
            let caught: u32 = self.compute_caught_sum();
            upper_limit = if caught < self.current_target {
                self.current_target - caught
            } else {
                0
            };
        }
        if upper_limit < 1 {
            1
        } else {
            upper_limit
        }
    }

    /// Rightmost place for a new bubble in this window.
    pub fn spawn_range_end(&self) -> (end: i64)
        ensures
            end == spawn_range_end(self.window_size),
    {
        let max_x: i64 = (self.window_size.width as i64 - SPAWN_RIGHT_INSET_PIXELS)
            * UNITS_PER_PIXEL;
        if max_x < SPAWN_MIN_X {
            SPAWN_MIN_X
        } else {
            max_x
        }
    }

    /// Whether a new bubble can be placed at `x`: between the margins and
    /// outside the box of every live bubble.
    pub fn is_place_free(&self, x: i64) -> (free: bool)
        ensures
            free == self@.place_free(x),
    {
        SPAWN_MIN_X <= x && x <= self.spawn_range_end() && Self::find_overlap(
            &self.bubbles,
            Vec2 { x, y: 0 },
        ).is_none()
    }

    /// The leftmost place where a new bubble can be placed, if there is any.
    ///
    /// Only the left margin and the first place right of each live bubble's
    /// box need a look: the leftmost free place is one of them.
    pub fn first_free_place(&self) -> (place: Option<i64>)
        ensures
            match place {
                Some(x) => self@.leftmost_free_place(x),
                None => !self@.has_free_place(),
            },
    {
        let end: i64 = self.spawn_range_end();
        let mut best: Option<i64> = if self.is_place_free(SPAWN_MIN_X) {
            Some(SPAWN_MIN_X)
        } else {
            None
        };
        let mut i: usize = 0;
        while i < self.bubbles.len()
            invariant
                i <= self.bubbles.len(),
                end == spawn_range_end(self.window_size),
                best matches Some(b) ==> self@.place_free(b),
                self@.place_free(SPAWN_MIN_X) ==> found_no_further(best, SPAWN_MIN_X as int),
                forall|j: int|
                    0 <= j < i && SPAWN_MIN_X <= #[trigger] place_beyond(self.bubbles@, j) <= end
                        && self@.place_free(place_beyond(self.bubbles@, j) as i64)
                        ==> found_no_further(best, place_beyond(self.bubbles@, j)),
            decreases self.bubbles.len() - i,
        {
            let beyond: i128 = self.bubbles[i].position.x as i128 + 2 * (BUBBLE_RADIUS as i128)
                + 1;
            if SPAWN_MIN_X as i128 <= beyond && beyond <= end as i128 {
                let candidate: i64 = beyond as i64;
                if self.is_place_free(candidate) {
                    best = match best {
                        Some(b) => if b <= candidate {
                            Some(b)
                        } else {
                            Some(candidate)
                        },
                        None => Some(candidate),
                    };
                }
            }
            i += 1;
        }
        proof {
            assert forall|y: i64| #[trigger] self@.place_free(y) implies found_no_further(
                best,
                y as int,
            ) by {
                law_free_place_is_beyond_a_bubble(self@, y);
            }
        }
        best
    }

    /// Lets chance decide about a new bubble, with the limit on its number
    /// given: the shortfall with `respect_shortfall`, the target without.
    ///
    /// The number is drawn from one up to the limit. The place is drawn
    /// between the margins; a place inside the box of a live bubble is drawn
    /// again, and after the allowed number of draws the leftmost free place
    /// is taken. The speed is drawn from this round's range. There is no
    /// spawn only where no place is free.
    pub fn draw_spawn_with(&self, respect_shortfall: bool) -> (spawn: Option<Spawn>)
        ensures
            spawn matches Some(s) ==> self@.spawn_valid(s) && 1 <= s.number
                <= self@.number_limit(respect_shortfall),
            spawn is Some <==> self@.has_free_place(),
    {
        let upper_limit: u32 = self.bubble_number_limit(respect_shortfall);
        let bubble_number: u32 = Self::random_between(1, upper_limit as i64) as u32;
        proof {
            law_limit_by_shortfall_is_lower(self@);
        }

        let end: i64 = self.spawn_range_end();
        let mut bubble_x: i64 = Self::random_between(SPAWN_MIN_X, end);
        let mut free: bool = self.is_place_free(bubble_x);
        let mut attempts: u32 = 1;
        while !free && attempts < MAX_SPAWN_ATTEMPTS
            invariant
                end == spawn_range_end(self.window_size),
                free == self@.place_free(bubble_x),
                attempts <= MAX_SPAWN_ATTEMPTS,
            decreases MAX_SPAWN_ATTEMPTS - attempts,
        {
            bubble_x = Self::random_between(SPAWN_MIN_X, end);
            free = self.is_place_free(bubble_x);
            attempts += 1;
        }
        if !free {
            match self.first_free_place() {
                Some(place) => {
                    bubble_x = place;
                },
                None => {
                    return None;
                },
            }
        }
        let speed_gain: i64 = BUBBLE_SPEED_PER_ROUND * (self.current_round as i64);
        let speed_y: i64 = Self::random_between(
            MIN_BUBBLE_SPEED + speed_gain,
            MAX_BUBBLE_SPEED + speed_gain,
        );
        Some(Spawn { number: bubble_number, x: bubble_x, speed_y })
    }

    /// Lets chance decide about a new bubble: its number, its place on the
    /// top edge and its speed. Chance also decides whether the shortfall or
    /// the target limits the number; everything else is `draw_spawn_with`.
    pub fn draw_spawn(&self) -> (spawn: Option<Spawn>)
        ensures
            spawn matches Some(s) ==> self@.spawn_valid(s),
            spawn is Some <==> self@.has_free_place(),
    {
        let should_respect_shortfall_range: bool = chance(
            RESPECT_SHORTFALL_NUMERATOR,
            RESPECT_SHORTFALL_DENOMINATOR,
        );
        self.draw_spawn_with(should_respect_shortfall_range)
    }

    /// Puts a bubble into play under the next identity: on the top edge at
    /// the spawn's place, falling straight down at the spawn's speed. Once
    /// the identities are used up nothing is spawned any more.
    pub fn spawn_bubble(&mut self, spawn: Spawn)
        ensures
            final(self)@ == old(self)@.bubble_spawned(spawn),
            old(self).wf() ==> final(self).wf(),
    {
        if self.next_bubble_index == u32::MAX {
            return;
        }
        let bubble: Bubble = Bubble {
            index: self.next_bubble_index,
            number: spawn.number,
            position: Vec2 { x: spawn.x, y: 0 },
            speed: Vec2 { x: 0, y: spawn.speed_y },
        };
        self.bubbles.push(bubble);
        self.next_bubble_index += 1;
    }

    /// Spawns a bubble that chance decides about. The new bubble is the last
    /// one in `bubbles`. Nothing is spawned only where no place is free or
    /// the identities are used up.
    pub fn add_bubble(&mut self)
        ensures
            old(self)@.has_free_place() && old(self).next_bubble_index < u32::MAX ==> ({
                let spawn = spawn_of(final(self)@.bubbles.last());
                &&& final(self)@.bubbles.len() == old(self)@.bubbles.len() + 1
                &&& old(self)@.spawn_valid(spawn)
                &&& final(self)@ == old(self)@.bubble_spawned(spawn)
            }),
            !old(self)@.has_free_place() || old(self).next_bubble_index == u32::MAX
                ==> final(self)@ == old(self)@,
            old(self).wf() ==> final(self).wf(),
    {
        match self.draw_spawn() {
            Some(spawn) => self.spawn_bubble(spawn),
            None => (),
        }
    }

    /// Lets every bubble fall by one step.
    pub fn update_bubbles(&mut self)
        ensures
            final(self)@ == old(self)@.bubbles_moved(),
            old(self).wf() ==> final(self).wf(),
    {
        let mut i: usize = 0;
        while i < self.bubbles.len()
            invariant
                i <= self.bubbles.len(),
                self.bubbles.len() == old(self).bubbles.len(),
                forall|k: int| 0 <= k < i ==> self.bubbles@[k] == moved_bubble(old(self).bubbles@[k]),
                forall|k: int| i <= k < self.bubbles.len() ==> self.bubbles@[k] == old(self).bubbles@[k],
                *self == (GameState { bubbles: self.bubbles, ..*old(self) }),
            decreases self.bubbles.len() - i,
        {
            let bubble: Bubble = self.bubbles[i];
            let moved: Bubble = Bubble {
                position: Vec2 {
                    x: add_clamped(bubble.position.x, bubble.speed.x),
                    y: add_clamped(bubble.position.y, bubble.speed.y),
                },
                ..bubble
            };
            self.bubbles.set(i, moved);
            i += 1;
        }
        proof {
            assert(self@.bubbles =~= old(self)@.bubbles_moved().bubbles);
        }
    }

    /// Catches the first bubble, in the order of `bubbles`, whose box holds
    /// the ship: the bubble leaves play and its number joins the numbers
    /// caught. At most one bubble is caught.
    pub fn check_bubble_caught(&mut self)
        ensures
            final(self)@ == old(self)@.bubble_caught(),
            old(self).wf() ==> final(self).wf(),
    {
        match Self::find_overlap(&self.bubbles, self.ship.position) {
            Some(index_to_remove) => {
                let bubble: Bubble = self.bubbles.remove(index_to_remove);
                self.numbers_caught.push(bubble.number);
            },
            None => (),
        }
    }
}

/// Whether the search has found a place, and one no further right than
/// `place`.
spec fn found_no_further(best: Option<i64>, place: int) -> bool {
    best matches Some(b) && b <= place
}

/// Whether the key that went down is `key`.
fn is_key(keycode: Option<Key>, key: Key) -> (r: bool)
    ensures
        r == (keycode == Some(key)),
{
    match keycode {
        Some(k) => k == key,
        None => false,
    }
}

impl GameState {
    /// Holds the sum of the numbers caught against the target of the running
    /// round. Under the target nothing happens; over it a life is lost and
    /// the overshot screen is shown; on it the round is won.
    pub fn resolve_round(&mut self)
        ensures
            final(self)@ == old(self)@.round_resolved(),
            old(self).wf() ==> final(self).wf(),
    {
        if !self.current_mode.is_running() {
            return;
        }
        let current_sum: u64 = self.caught_total();
        let target: u64 = self.current_target as u64;
        if current_sum < target {
        } else if current_sum > target {
            self.deduct_life();
            self.current_mode = GameMode::OvershotScreen;
        } else {
            self.handle_win();
        }
    }

    /// Whether a frame at `now_seconds` goes on to the bubbles: only in a
    /// running round that is not paused and has time left.
    pub fn simulates(&self, now_seconds: u64) -> (r: bool)
        ensures
            r == self@.simulates(now_seconds),
    {
        let time_elapsed: u64 = now_seconds.saturating_sub(self.round_start_time_seconds);
        self.current_mode.is_running() && !self.paused
            && self.round_allowed_time_seconds > time_elapsed
    }

    /// One frame with the spawn given: `None` for a frame without a new
    /// bubble.
    ///
    /// The steering keys always act. In a running round that is not paused
    /// the clock is read next; if time is up the frame ends there. Otherwise
    /// the spawn enters play, every bubble falls one step, at most one bubble
    /// is caught, and the sum is held against the target.
    pub fn update_with_spawn(&mut self, held: HeldKeys, now_seconds: u64, spawn: Option<Spawn>)
        ensures
            final(self)@ == old(self)@.updated(held, now_seconds, spawn),
            old(self).wf() ==> final(self).wf(),
    {
        self.handle_input(held);

        if self.paused || !self.current_mode.is_running() {
            return;
        }
        self.process_timer(now_seconds);
        if !self.current_mode.is_running() {
            return;
        }
        match spawn {
            Some(s) => self.spawn_bubble(s),
            None => (),
        }
        self.update_bubbles();
        self.check_bubble_caught();
        self.resolve_round();
    }

    /// One frame. `ticks` counts the frames since the program started: on
    /// every frame whose count is a multiple of the spawn interval, and that
    /// gets as far as the bubbles, chance decides about a new bubble;
    /// everything else is `update_with_spawn`.
    pub fn update(&mut self, held: HeldKeys, now_seconds: u64, ticks: usize)
        ensures
            exists|spawn: Option<Spawn>|
                {
                    &&& old(self)@.spawn_permitted(now_seconds, ticks, spawn)
                    &&& old(self)@.spawn_certain(now_seconds, ticks) ==> spawn is Some
                    &&& #[trigger] old(self)@.updated(held, now_seconds, spawn) == final(self)@
                },
            old(self).wf() ==> final(self).wf(),
    {
        let spawn: Option<Spawn> = if ticks % NEW_BUBBLE_INTERVAL_FRAMES == 0 && self.simulates(
            now_seconds,
        ) {
            self.draw_spawn()
        } else {
            None
        };
        self.update_with_spawn(held, now_seconds, spawn);
    }

    /// Starts a round straight from the intro screen at `now_seconds`, with
    /// the given target: no bubble is in play and no number caught, the clock
    /// shows the allowed time, which stays as it is, the round counter goes
    /// up by one, and the round is running. Lives and score stay.
    pub fn start_fresh_round(&mut self, target: u32, now_seconds: u64)
        ensures
            final(self)@ == old(self)@.fresh_round_started(target, now_seconds),
            old(self).wf() && MIN_TARGET <= target <= MAX_TARGET ==> final(self).wf(),
    {
        self.current_target = target;
        self.bubbles = Vec::new();
        self.numbers_caught = Vec::new();
        self.round_time_remaining_seconds = self.round_allowed_time_seconds;
        self.current_round = self.current_round.saturating_add(1);
        self.round_time_bonus = 0;
        self.current_mode = GameMode::Running;
        self.round_start_time_seconds = now_seconds;
    }

    /// Whether a press of `keycode` prepares the next round: a confirmation
    /// on the win screen, or on the screen after a lost round while lives are
    /// left.
    pub fn prepares_round(&self, keycode: Option<Key>) -> (r: bool)
        ensures
            r == self@.prepares_round(keycode),
    {
        if !is_key(keycode, Key::Space) {
            return false;
        }
        match self.current_mode {
            GameMode::WinScreen => true,
            GameMode::OvershotScreen | GameMode::OutOfTimeScreen => self.lives_remaining > 0,
            _ => false,
        }
    }

    /// Whether a press of `keycode` calls for a new target: it prepares the
    /// next round, or it is a confirmation on the intro screen, which starts
    /// a round.
    pub fn needs_target(&self, keycode: Option<Key>) -> (r: bool)
        ensures
            r == self@.needs_target(keycode),
    {
        self.prepares_round(keycode) || (is_key(keycode, Key::Space) && match self.current_mode {
            GameMode::IntroScreen => true,
            _ => false,
        })
    }

    /// A key goes down, with the target of the round to come given; the
    /// target is used only where the press calls for one.
    ///
    /// `Space` confirms the screen that is shown: the intro screen starts a
    /// round at `now_seconds`; the win screen leads to the next-round screen;
    /// the screens after a lost round lead there too while lives are left,
    /// else to the death screen; the death screen leads back to the intro
    /// with score and lives as at the start; the next-round screen starts the
    /// prepared round at `now_seconds`. `P` pauses and resumes a running
    /// round. Any other key, and a press without a key, changes nothing.
    pub fn key_down_event_with_target(
        &mut self,
        keycode: Option<Key>,
        now_seconds: u64,
        target: u32,
    )
        ensures
            final(self)@ == old(self)@.key_pressed(keycode, now_seconds, target),
            old(self).wf() && MIN_TARGET <= target <= MAX_TARGET ==> final(self).wf(),
    {
        match self.current_mode {
            GameMode::IntroScreen => {
                if is_key(keycode, Key::Space) {
                    self.start_fresh_round(target, now_seconds);
                }
            },
            GameMode::WinScreen => {
                if is_key(keycode, Key::Space) {
                    self.prepare_round_with_target(target);
                }
            },
            GameMode::OvershotScreen | GameMode::OutOfTimeScreen => {
                if is_key(keycode, Key::Space) {
                    if self.lives_remaining == 0 {
                        self.current_mode = GameMode::DeathScreen;
                    } else {
                        self.prepare_round_with_target(target);
                    }
                }
            },
            GameMode::DeathScreen => {
                if is_key(keycode, Key::Space) {
                    self.score = 0;
                    self.lives_remaining = STARTING_LIVES;
                    self.current_mode = GameMode::IntroScreen;
                }
            },
            GameMode::Running => {
                if is_key(keycode, Key::P) {
                    self.paused = !self.paused;
                }
            },
            GameMode::NextRoundScreen => {
                if is_key(keycode, Key::Space) {
                    self.current_mode = GameMode::Running;
                    self.round_start_time_seconds = now_seconds;
                }
            },
        }
    }

    /// A key goes down. Where the press calls for a new target, chance draws
    /// it; everything else is `key_down_event_with_target`.
    pub fn key_down_event(&mut self, keycode: Option<Key>, now_seconds: u64)
        ensures
            final(self)@ == old(self)@.key_pressed(
                keycode,
                now_seconds,
                final(self).current_target,
            ),
            old(self)@.needs_target(keycode) ==> MIN_TARGET <= final(self).current_target
                <= MAX_TARGET,
            old(self).wf() ==> final(self).wf(),
    {
        if self.needs_target(keycode) {
            let target: u32 = Self::random_target();
            self.key_down_event_with_target(keycode, now_seconds, target);
        } else {
            let target: u32 = self.current_target;
            self.key_down_event_with_target(keycode, now_seconds, target);
        }
    }
}

} // verus!
