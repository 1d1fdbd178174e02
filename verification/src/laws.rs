//! What holds of the rules, for every state and every input.

use vstd::prelude::*;

use crate::constants::{
    BUBBLE_RADIUS, BUBBLE_SPEED_PER_ROUND, MAX_TARGET, MIN_BUBBLE_SPEED,
    NEW_BUBBLE_INTERVAL_FRAMES, MIN_ROUND_TIME_SECONDS, MIN_TARGET, SECONDS_LEFT_PER_BONUS_POINT,
    SPAWN_MIN_X,
    SHIP_BOTTOM_INSET_PIXELS, SHIP_LEFT_LIMIT, SHIP_RIGHT_INSET_PIXELS, SHIP_TOP_LIMIT,
    STARTING_LIVES, STARTING_ROUND_TIME_SECONDS, TIME_DEDUCTED_PER_ROUND, UNITS_PER_PIXEL,
};
use crate::model::{
    first_overlap, first_overlap_from, moved_bubble, next_allowed_time, overlaps,
    place_beyond, spawn_point, spawn_range_end, GameStateView,
};
use crate::structs::{Bubble, GameMode, HeldKeys, Key, Spawn, Vec2};

verus! {

/// Whether the box of `bubble` reaches the top edge, where new bubbles
/// start.
pub open spec fn reaches_top_edge(bubble: Bubble) -> bool {
    bubble.position.y - BUBBLE_RADIUS <= 0 <= bubble.position.y + BUBBLE_RADIUS
}

/// How many of `bubbles` reach the top edge.
pub open spec fn blockers(bubbles: Seq<Bubble>) -> nat
    decreases bubbles.len(),
{
    if bubbles.len() == 0 {
        0
    } else {
        blockers(bubbles.drop_last()) + if reaches_top_edge(bubbles.last()) {
            1nat
        } else {
            0nat
        }
    }
}

/// How many places on the top edge one bubble blocks at most.
pub open spec fn box_width() -> int {
    4 * BUBBLE_RADIUS + 1
}

/// How far down a bubble is at least after `frames` frames of falling, as
/// far as it matters for the top edge: the way at the slowest speed, counted
/// up to two spawn intervals.
pub open spec fn depth_after(frames: nat) -> int {
    if frames >= 2 * NEW_BUBBLE_INTERVAL_FRAMES {
        2 * NEW_BUBBLE_INTERVAL_FRAMES * MIN_BUBBLE_SPEED
    } else {
        frames * MIN_BUBBLE_SPEED
    }
}

/// Whether the bubbles fall in the rhythm of the spawns: none falls slower
/// than the slowest speed, the last in the sequence has fallen for `frames`
/// frames at least, and every other one for a spawn interval longer.
pub open spec fn paced(bubbles: Seq<Bubble>, frames: nat) -> bool {
    forall|i: int|
        0 <= i < bubbles.len() ==> {
            &&& (#[trigger] bubbles[i]).speed.y >= MIN_BUBBLE_SPEED
            &&& bubbles[i].position.y >= if i == bubbles.len() - 1 {
                depth_after(frames)
            } else {
                depth_after(frames + NEW_BUBBLE_INTERVAL_FRAMES as nat)
            }
        }
}

/// The state after `frames` frames in which the bubbles do nothing but fall.
pub open spec fn fallen(state: GameStateView, frames: nat) -> GameStateView
    decreases frames,
{
    if frames == 0 {
        state
    } else {
        fallen(state, (frames - 1) as nat).bubbles_moved()
    }
}

/// The state after the spawns in `spawns`, each followed by a spawn interval
/// of falling.
pub open spec fn spawned_in_rhythm(state: GameStateView, spawns: Seq<Spawn>) -> GameStateView
    decreases spawns.len(),
{
    if spawns.len() == 0 {
        state
    } else {
        fallen(
            spawned_in_rhythm(state, spawns.drop_last()).bubble_spawned(spawns.last()),
            NEW_BUBBLE_INTERVAL_FRAMES as nat,
        )
    }
}

/// Time allowed for the round that is prepared after `rounds` earlier ones.
pub open spec fn allowed_time_after(rounds: nat) -> u64
    decreases rounds,
{
    if rounds == 0 {
        STARTING_ROUND_TIME_SECONDS
    } else {
        next_allowed_time(allowed_time_after((rounds - 1) as nat))
    }
}

proof fn lemma_first_overlap_from(bubbles: Seq<Bubble>, pos: Vec2, from: int)
    requires
        0 <= from,
    ensures
        match first_overlap_from(bubbles, pos, from) {
            Some(i) => {
                &&& from <= i < bubbles.len()
                &&& overlaps(bubbles[i], pos)
                &&& forall|j: int| from <= j < i ==> !overlaps(#[trigger] bubbles[j], pos)
            },
            None => forall|j: int| from <= j < bubbles.len() ==> !overlaps(
                #[trigger] bubbles[j],
                pos,
            ),
        },
    decreases bubbles.len() - from,
{
    if from < bubbles.len() && !overlaps(bubbles[from], pos) {
        lemma_first_overlap_from(bubbles, pos, from + 1);
    }
}

/// The bubble found for a point is the first in the sequence whose box holds
/// the point; none is found only where no box holds it.
pub proof fn law_first_overlap_is_first(bubbles: Seq<Bubble>, pos: Vec2)
    ensures
        match first_overlap(bubbles, pos) {
            Some(i) => {
                &&& 0 <= i < bubbles.len()
                &&& overlaps(bubbles[i], pos)
                &&& forall|j: int| 0 <= j < i ==> !overlaps(#[trigger] bubbles[j], pos)
            },
            None => forall|j: int| 0 <= j < bubbles.len() ==> !overlaps(
                #[trigger] bubbles[j],
                pos,
            ),
        },
{
    lemma_first_overlap_from(bubbles, pos, 0);
}

/// With the shortfall as the limit a new bubble's number is held at least as
/// low as with the target.
pub proof fn law_limit_by_shortfall_is_lower(state: GameStateView)
    ensures
        1 <= state.number_limit(true) <= state.number_limit(false),
        state.number_limit(false) == if state.current_target < 1 {
            1
        } else {
            state.current_target as int
        },
        state.caught_total() < state.current_target ==> state.number_limit(true)
            == state.current_target - state.caught_total(),
        state.caught_total() >= state.current_target ==> state.number_limit(true) == 1,
{
}

/// Left of a free place, or on it, lies a free place that is the left margin
/// or the first place right of a live bubble's box.
pub proof fn law_free_place_is_beyond_a_bubble(state: GameStateView, place: i64)
    requires
        state.place_free(place),
    ensures
        state.place_free(SPAWN_MIN_X) || exists|i: int|
            {
                &&& 0 <= i < state.bubbles.len()
                &&& SPAWN_MIN_X <= #[trigger] place_beyond(state.bubbles, i) <= place
                &&& state.place_free(place_beyond(state.bubbles, i) as i64)
            },
    decreases place - SPAWN_MIN_X,
{
    if place > SPAWN_MIN_X {
        let left = (place - 1) as i64;
        if state.place_free(left) {
            law_free_place_is_beyond_a_bubble(state, left);
        } else {
            law_first_overlap_is_first(state.bubbles, spawn_point(left));
            law_first_overlap_is_first(state.bubbles, spawn_point(place));
            let i = first_overlap(state.bubbles, spawn_point(left))->0;
            assert(overlaps(state.bubbles[i], spawn_point(left)));
            assert(!overlaps(state.bubbles[i], spawn_point(place)));
            assert(place_beyond(state.bubbles, i) == place);
        }
    }
}

proof fn lemma_blockers_without(bubbles: Seq<Bubble>, i: int)
    requires
        0 <= i < bubbles.len(),
    ensures
        blockers(bubbles) == blockers(bubbles.remove(i)) + if reaches_top_edge(bubbles[i]) {
            1nat
        } else {
            0nat
        },
    decreases bubbles.len(),
{
    if i == bubbles.len() - 1 {
        assert(bubbles.remove(i) =~= bubbles.drop_last());
    } else {
        lemma_blockers_without(bubbles.drop_last(), i);
        assert(bubbles.remove(i).drop_last() =~= bubbles.drop_last().remove(i));
        assert(bubbles.remove(i).last() == bubbles.last());
    }
}

proof fn lemma_clear_place_from(bubbles: Seq<Bubble>, from: i64) -> (place: i64)
    requires
        from + blockers(bubbles) * box_width() <= i64::MAX,
    ensures
        from <= place <= from + blockers(bubbles) * box_width(),
        forall|j: int| 0 <= j < bubbles.len() ==> !overlaps(#[trigger] bubbles[j], spawn_point(place)),
    decreases bubbles.len(),
{
    law_first_overlap_is_first(bubbles, spawn_point(from));
    match first_overlap(bubbles, spawn_point(from)) {
        None => from,
        Some(i) => {
            let rest = bubbles.remove(i);
            lemma_blockers_without(bubbles, i);
            assert(reaches_top_edge(bubbles[i]));
            assert(blockers(bubbles) * box_width() == blockers(rest) * box_width() + box_width())
                by (nonlinear_arith)
                requires
                    blockers(bubbles) == blockers(rest) + 1,
            ;
            assert(from < place_beyond(bubbles, i) <= from + box_width());
            let beyond = place_beyond(bubbles, i) as i64;
            let place = lemma_clear_place_from(rest, beyond);
            assert forall|j: int| 0 <= j < bubbles.len() implies !overlaps(
                #[trigger] bubbles[j],
                spawn_point(place),
            ) by {
                if j < i {
                    assert(bubbles[j] == rest[j]);
                } else if j > i {
                    assert(bubbles[j] == rest[j - 1]);
                }
            }
            place
        },
    }
}

/// Where the places between the margins are more than the bubbles that
/// reach the top edge can block, a place is free. One bubble blocks no more
/// places than its box is wide.
pub proof fn law_room_on_the_top_edge(state: GameStateView)
    requires
        SPAWN_MIN_X + blockers(state.bubbles) * box_width() <= spawn_range_end(
            state.window_size,
        ),
    ensures
        state.has_free_place(),
{
    let place = lemma_clear_place_from(state.bubbles, SPAWN_MIN_X);
    law_first_overlap_is_first(state.bubbles, spawn_point(place));
    assert(state.place_free(place));
}

proof fn lemma_no_blockers(bubbles: Seq<Bubble>)
    requires
        forall|i: int| 0 <= i < bubbles.len() ==> !reaches_top_edge(#[trigger] bubbles[i]),
    ensures
        blockers(bubbles) == 0,
    decreases bubbles.len(),
{
    if bubbles.len() > 0 {
        assert(!reaches_top_edge(bubbles[bubbles.len() - 1]));
        assert forall|i: int| 0 <= i < bubbles.drop_last().len() implies !reaches_top_edge(
            #[trigger] bubbles.drop_last()[i],
        ) by {
            assert(bubbles.drop_last()[i] == bubbles[i]);
        }
        lemma_no_blockers(bubbles.drop_last());
    }
}

/// Bubbles that fall in the rhythm of the spawns leave room on the top edge
/// whenever a spawn is due: a spawn interval after the last spawn at most
/// one of them still reaches the edge, and a window with more places than
/// one box is wide has a free one.
pub proof fn law_paced_bubbles_leave_room(state: GameStateView, frames: nat)
    requires
        paced(state.bubbles, frames),
        frames >= NEW_BUBBLE_INTERVAL_FRAMES,
        SPAWN_MIN_X + box_width() <= spawn_range_end(state.window_size),
    ensures
        blockers(state.bubbles) <= 1,
        state.has_free_place(),
{
    let bubbles = state.bubbles;
    if bubbles.len() > 0 {
        assert forall|i: int| 0 <= i < bubbles.drop_last().len() implies !reaches_top_edge(
            #[trigger] bubbles.drop_last()[i],
        ) by {
            assert(bubbles.drop_last()[i] == bubbles[i]);
        }
        lemma_no_blockers(bubbles.drop_last());
    }
    assert(blockers(bubbles) * box_width() <= box_width()) by (nonlinear_arith)
        requires
            blockers(bubbles) <= 1,
            box_width() >= 0,
    ;
    law_room_on_the_top_edge(state);
}

/// Falling keeps the rhythm: after one more frame every bubble has fallen
/// for one frame more.
pub proof fn law_fall_keeps_pace(state: GameStateView, frames: nat)
    requires
        paced(state.bubbles, frames),
    ensures
        paced(state.bubbles_moved().bubbles, frames + 1),
{
    let after = state.bubbles_moved().bubbles;
    assert forall|i: int| 0 <= i < after.len() implies {
        &&& (#[trigger] after[i]).speed.y >= MIN_BUBBLE_SPEED
        &&& after[i].position.y >= if i == after.len() - 1 {
            depth_after(frames + 1)
        } else {
            depth_after(frames + 1 + NEW_BUBBLE_INTERVAL_FRAMES as nat)
        }
    } by {
        assert(after[i] == moved_bubble(state.bubbles[i]));
    }
}

/// Every valid spawn falls at the slowest speed or faster, in every round.
pub proof fn law_valid_spawn_falls_fast_enough(state: GameStateView, spawn: Spawn)
    requires
        state.spawn_valid(spawn),
    ensures
        spawn.speed_y >= MIN_BUBBLE_SPEED,
{
    assert(BUBBLE_SPEED_PER_ROUND * state.current_round >= 0) by (nonlinear_arith)
        requires
            state.current_round >= 0,
            BUBBLE_SPEED_PER_ROUND >= 0,
    ;
}

/// A spawn that comes a spawn interval or more after the one before, and
/// falls no slower than the slowest speed, keeps the rhythm and starts it
/// anew.
pub proof fn law_spawn_keeps_pace(state: GameStateView, spawn: Spawn, frames: nat)
    requires
        paced(state.bubbles, frames),
        frames >= NEW_BUBBLE_INTERVAL_FRAMES,
        spawn.speed_y >= MIN_BUBBLE_SPEED,
        state.next_bubble_index < u32::MAX,
    ensures
        paced(state.bubble_spawned(spawn).bubbles, 0),
{
    let after = state.bubble_spawned(spawn).bubbles;
    assert forall|i: int| 0 <= i < after.len() implies {
        &&& (#[trigger] after[i]).speed.y >= MIN_BUBBLE_SPEED
        &&& after[i].position.y >= if i == after.len() - 1 {
            depth_after(0)
        } else {
            depth_after(NEW_BUBBLE_INTERVAL_FRAMES as nat)
        }
    } by {
        if i < state.bubbles.len() {
            assert(after[i] == state.bubbles[i]);
        }
    }
}

/// Frames of falling keep every bubble in play under its identity and its
/// number, change nothing but the bubbles, and keep the rhythm.
pub proof fn law_falling_keeps_the_bubbles(state: GameStateView, since: nat, frames: nat)
    requires
        paced(state.bubbles, since),
    ensures
        paced(fallen(state, frames).bubbles, since + frames),
        fallen(state, frames) == (GameStateView {
            bubbles: fallen(state, frames).bubbles,
            ..state
        }),
        fallen(state, frames).bubbles.len() == state.bubbles.len(),
        forall|i: int|
            0 <= i < state.bubbles.len() ==> {
                &&& (#[trigger] fallen(state, frames).bubbles[i]).index == state.bubbles[i].index
                &&& fallen(state, frames).bubbles[i].number == state.bubbles[i].number
            },
    decreases frames,
{
    if frames > 0 {
        law_falling_keeps_the_bubbles(state, since, (frames - 1) as nat);
        law_fall_keeps_pace(fallen(state, (frames - 1) as nat), since + (frames - 1) as nat);
    }
}

/// Spawns that come a spawn interval apart all find a place: in a window
/// with more places than one box is wide, and while identities are left,
/// every one of them puts a bubble into play, under identities handed out in
/// their order, and after the last of them a place is free again.
pub proof fn law_spawns_in_rhythm_all_happen(state: GameStateView, spawns: Seq<Spawn>)
    requires
        paced(state.bubbles, NEW_BUBBLE_INTERVAL_FRAMES as nat),
        SPAWN_MIN_X + box_width() <= spawn_range_end(state.window_size),
        state.next_bubble_index + spawns.len() <= u32::MAX,
        forall|k: int| 0 <= k < spawns.len() ==> (#[trigger] spawns[k]).speed_y >= MIN_BUBBLE_SPEED,
    ensures
        ({
            let after = spawned_in_rhythm(state, spawns);
            &&& after.bubbles.len() == state.bubbles.len() + spawns.len()
            &&& after.next_bubble_index == state.next_bubble_index + spawns.len()
            &&& forall|k: int|
                0 <= k < spawns.len() ==> {
                    &&& (#[trigger] after.bubbles[state.bubbles.len() + k]).index
                        == state.next_bubble_index + k
                    &&& after.bubbles[state.bubbles.len() + k].number == spawns[k].number
                }
            &&& paced(after.bubbles, NEW_BUBBLE_INTERVAL_FRAMES as nat)
            &&& after.has_free_place()
            &&& after == (GameStateView {
                bubbles: after.bubbles,
                next_bubble_index: after.next_bubble_index,
                ..state
            })
        }),
    decreases spawns.len(),
{
    let interval = NEW_BUBBLE_INTERVAL_FRAMES as nat;
    if spawns.len() > 0 {
        let earlier = spawns.drop_last();
        law_spawns_in_rhythm_all_happen(state, earlier);
        let before = spawned_in_rhythm(state, earlier);
        let spawned = before.bubble_spawned(spawns.last());
        law_spawn_keeps_pace(before, spawns.last(), interval);
        law_falling_keeps_the_bubbles(spawned, 0, interval);
        let after = spawned_in_rhythm(state, spawns);
        assert forall|k: int| 0 <= k < spawns.len() implies {
            &&& (#[trigger] after.bubbles[state.bubbles.len() + k]).index
                == state.next_bubble_index + k
            &&& after.bubbles[state.bubbles.len() + k].number == spawns[k].number
        } by {
            if k < earlier.len() {
                assert(spawned.bubbles[state.bubbles.len() + k] == before.bubbles[state.bubbles.len()
                    + k]);
                assert(earlier[k] == spawns[k]);
            }
        }
    }
    law_paced_bubbles_leave_room(spawned_in_rhythm(state, spawns), interval);
}

/// A catch keeps the rhythm: the bubbles left in play have fallen as long
/// as before.
pub proof fn law_catch_keeps_pace(state: GameStateView, frames: nat)
    requires
        paced(state.bubbles, frames),
    ensures
        paced(state.bubble_caught().bubbles, frames),
{
    law_first_overlap_is_first(state.bubbles, state.ship.position);
    let after = state.bubble_caught().bubbles;
    match first_overlap(state.bubbles, state.ship.position) {
        Some(c) => {
            assert forall|i: int| 0 <= i < after.len() implies {
                &&& (#[trigger] after[i]).speed.y >= MIN_BUBBLE_SPEED
                &&& after[i].position.y >= if i == after.len() - 1 {
                    depth_after(frames)
                } else {
                    depth_after(frames + NEW_BUBBLE_INTERVAL_FRAMES as nat)
                }
            } by {
                if i < c {
                    assert(after[i] == state.bubbles[i]);
                } else {
                    assert(after[i] == state.bubbles[i + 1]);
                }
            }
        },
        None => {},
    }
}

/// A valid spawn starts outside the box of every live bubble.
pub proof fn law_spawn_starts_clear(state: GameStateView, spawn: Spawn)
    requires
        state.spawn_valid(spawn),
    ensures
        forall|i: int| 0 <= i < state.bubbles.len() ==> !overlaps(
            #[trigger] state.bubbles[i],
            spawn_point(spawn.x),
        ),
{
    law_first_overlap_is_first(state.bubbles, spawn_point(spawn.x));
}

/// A spawned bubble carries an identity that no live bubble carries, and
/// joins the bubbles in play behind all of them.
pub proof fn law_spawn_identity_is_fresh(state: GameStateView, spawn: Spawn)
    requires
        state.wf(),
        state.next_bubble_index < u32::MAX,
    ensures
        state.bubble_spawned(spawn).bubbles.len() == state.bubbles.len() + 1,
        state.bubble_spawned(spawn).bubbles.last().index == state.next_bubble_index,
        forall|i: int| 0 <= i < state.bubbles.len() ==> {
            &&& #[trigger] state.bubble_spawned(spawn).bubbles[i] == state.bubbles[i]
            &&& state.bubbles[i].index != state.bubble_spawned(spawn).bubbles.last().index
        },
        state.bubble_spawned(spawn).wf(),
{
}

/// Every target that can be drawn keeps a reachable state reachable, and the
/// target of a prepared round is the one that was drawn.
pub proof fn law_target_within_bounds(state: GameStateView, target: u32)
    requires
        state.wf(),
        MIN_TARGET <= target <= MAX_TARGET,
    ensures
        state.round_prepared(target).wf(),
        state.round_prepared(target).current_target == target,
        MIN_TARGET <= state.round_prepared(target).current_target <= MAX_TARGET,
{
}

/// In every frame of a running round that is not paused, the remaining time
/// is the allowed time less the time since the round began, and zero where
/// that would be negative. In every other frame it is left alone.
pub proof fn law_remaining_time_is_derived(
    state: GameStateView,
    held: HeldKeys,
    now_seconds: u64,
    spawn: Option<Spawn>,
)
    ensures
        state.current_mode == GameMode::Running && !state.paused ==> {
            &&& state.updated(held, now_seconds, spawn).round_time_remaining_seconds
                == state.time_left(now_seconds)
            &&& state.time_left(now_seconds) <= state.round_allowed_time_seconds
            &&& now_seconds >= state.round_start_time_seconds ==> state.time_left(now_seconds)
                + (now_seconds - state.round_start_time_seconds)
                >= state.round_allowed_time_seconds
        },
        state.current_mode != GameMode::Running || state.paused ==> state.updated(
            held,
            now_seconds,
            spawn,
        ).round_time_remaining_seconds == state.round_time_remaining_seconds,
        state.updated(held, now_seconds, spawn).round_allowed_time_seconds
            == state.round_allowed_time_seconds,
        state.updated(held, now_seconds, spawn).round_start_time_seconds
            == state.round_start_time_seconds,
{
}

/// Toggling the pause changes nothing but the pause, and toggling it twice
/// changes nothing at all: in a running round and on every other screen,
/// where the key has no meaning.
pub proof fn law_pause_toggle_twice(
    state: GameStateView,
    first_seconds: u64,
    second_seconds: u64,
    first_target: u32,
    second_target: u32,
)
    ensures
        state.current_mode == GameMode::Running ==> state.key_pressed(
            Some(Key::P),
            first_seconds,
            first_target,
        ) == (GameStateView { paused: !state.paused, ..state }),
        state.current_mode != GameMode::Running ==> state.key_pressed(
            Some(Key::P),
            first_seconds,
            first_target,
        ) == state,
        state.key_pressed(Some(Key::P), first_seconds, first_target).key_pressed(
            Some(Key::P),
            second_seconds,
            second_target,
        ) == state,
{
}

/// Preparing a round leaves no bubble in play and no number caught, and sets
/// the clock to the allowed time of the new round.
pub proof fn law_round_reset(state: GameStateView, target: u32)
    ensures
        state.round_prepared(target).bubbles.len() == 0,
        state.round_prepared(target).numbers_caught.len() == 0,
        state.round_prepared(target).caught_total() == 0,
        state.round_prepared(target).round_time_remaining_seconds == state.round_prepared(
            target,
        ).round_allowed_time_seconds,
        state.round_prepared(target).round_allowed_time_seconds == next_allowed_time(
            state.round_allowed_time_seconds,
        ),
        state.round_prepared(target).round_time_bonus == 0,
        state.round_prepared(target).current_mode == GameMode::NextRoundScreen,
{
}

/// Taking a life never takes more than one, never goes below zero, and
/// changes nothing once no life is left, however often it is repeated.
pub proof fn law_life_deduction_stops_at_zero(state: GameStateView)
    ensures
        state.life_deducted().lives_remaining <= state.lives_remaining,
        state.lives_remaining > 0 ==> state.life_deducted().lives_remaining
            == state.lives_remaining - 1,
        state.lives_remaining == 0 ==> state.life_deducted() == state,
        state.lives_remaining == 0 ==> state.life_deducted().life_deducted() == state,
        state.life_deducted() == (GameStateView {
            lives_remaining: state.life_deducted().lives_remaining,
            ..state
        }),
{
}

/// The allowed time of a round is five seconds under that of the round
/// before, until it has come down to the floor, where it stays.
pub proof fn law_allowed_time_step(seconds: u64)
    requires
        MIN_ROUND_TIME_SECONDS <= seconds,
    ensures
        MIN_ROUND_TIME_SECONDS <= next_allowed_time(seconds) <= seconds,
        seconds >= MIN_ROUND_TIME_SECONDS + TIME_DEDUCTED_PER_ROUND ==> next_allowed_time(seconds)
            == seconds - TIME_DEDUCTED_PER_ROUND,
        next_allowed_time(MIN_ROUND_TIME_SECONDS) == MIN_ROUND_TIME_SECONDS,
{
}

/// Round after round the allowed time runs from the starting time down in
/// equal steps and then rests on the floor.
pub proof fn law_allowed_time_schedule(rounds: nat)
    ensures
        rounds * TIME_DEDUCTED_PER_ROUND <= STARTING_ROUND_TIME_SECONDS - MIN_ROUND_TIME_SECONDS
            ==> allowed_time_after(rounds) == STARTING_ROUND_TIME_SECONDS - rounds
            * TIME_DEDUCTED_PER_ROUND,
        rounds * TIME_DEDUCTED_PER_ROUND >= STARTING_ROUND_TIME_SECONDS - MIN_ROUND_TIME_SECONDS
            ==> allowed_time_after(rounds) == MIN_ROUND_TIME_SECONDS,
    decreases rounds,
{
    if rounds > 0 {
        law_allowed_time_schedule((rounds - 1) as nat);
    }
}

/// Confirming the intro screen starts a round at once: the round is running
/// from `now_seconds` on with the target given, nothing is in play and
/// nothing caught, the clock shows the allowed time, and lives, score and
/// allowed time are as they were.
pub proof fn law_intro_confirm_starts_a_round(state: GameStateView, now_seconds: u64, target: u32)
    requires
        state.current_mode == GameMode::IntroScreen,
    ensures
        ({
            let after = state.key_pressed(Some(Key::Space), now_seconds, target);
            &&& after.current_mode == GameMode::Running
            &&& after.round_start_time_seconds == now_seconds
            &&& after.current_target == target
            &&& after.lives_remaining == state.lives_remaining
            &&& after.score == state.score
            &&& after.round_allowed_time_seconds == state.round_allowed_time_seconds
            &&& after.round_time_remaining_seconds == state.round_allowed_time_seconds
            &&& after.bubbles.len() == 0
            &&& after.numbers_caught.len() == 0
            &&& after.caught_total() == 0
            &&& after.paused == state.paused
            &&& after.ship == state.ship
            &&& after.next_bubble_index == state.next_bubble_index
            &&& state.current_round < u32::MAX ==> after.current_round == state.current_round + 1
            &&& state.wf() && MIN_TARGET <= target <= MAX_TARGET ==> after.wf()
        }),
{
}

/// With no life left, confirming the screen after a lost round leads to the
/// death screen and changes nothing else; confirming there leads back to the
/// intro with no score and all lives.
pub proof fn law_last_life_ends_the_game(
    state: GameStateView,
    first_seconds: u64,
    second_seconds: u64,
    first_target: u32,
    second_target: u32,
)
    requires
        state.lives_remaining == 0,
        state.current_mode == GameMode::OvershotScreen || state.current_mode
            == GameMode::OutOfTimeScreen,
    ensures
        state.key_pressed(Some(Key::Space), first_seconds, first_target) == (GameStateView {
            current_mode: GameMode::DeathScreen,
            ..state
        }),
        state.key_pressed(Some(Key::Space), first_seconds, first_target).key_pressed(
            Some(Key::Space),
            second_seconds,
            second_target,
        ) == (GameStateView {
            current_mode: GameMode::IntroScreen,
            score: 0,
            lives_remaining: STARTING_LIVES,
            ..state
        }),
{
}

/// A frame never lowers the score and never adds a life, and it takes at
/// most one life.
pub proof fn law_frame_is_monotone(
    state: GameStateView,
    held: HeldKeys,
    now_seconds: u64,
    spawn: Option<Spawn>,
)
    ensures
        state.updated(held, now_seconds, spawn).score >= state.score,
        state.updated(held, now_seconds, spawn).lives_remaining <= state.lives_remaining,
        state.updated(held, now_seconds, spawn).lives_remaining + 1 >= state.lives_remaining,
        state.updated(held, now_seconds, spawn).current_round == state.current_round,
        state.updated(held, now_seconds, spawn).current_target == state.current_target,
{
}

/// A frame that gets as far as the bubbles hands out one identity if it has
/// a spawn and none if it has not, catches one bubble or none, and leaves as
/// many bubbles in play as that makes; the numbers caught before stay, in
/// their order, and a catch adds one behind them.
pub proof fn law_frame_counts(
    state: GameStateView,
    held: HeldKeys,
    now_seconds: u64,
    spawn: Option<Spawn>,
)
    requires
        state.simulates(now_seconds),
    ensures
        ({
            let after = state.updated(held, now_seconds, spawn);
            let spawned: int = if spawn is Some && state.next_bubble_index < u32::MAX {
                1
            } else {
                0
            };
            let caught = after.numbers_caught.len() - state.numbers_caught.len();
            &&& after.next_bubble_index == state.next_bubble_index + spawned
            &&& 0 <= caught <= 1
            &&& after.numbers_caught.subrange(0, state.numbers_caught.len() as int)
                == state.numbers_caught
            &&& after.bubbles.len() == state.bubbles.len() + spawned - caught
        }),
{
    let moved = state.input_handled(held).timer_processed(now_seconds).spawn_applied(
        spawn,
    ).bubbles_moved();
    law_first_overlap_is_first(moved.bubbles, moved.ship.position);
    let after = moved.bubble_caught();
    assert(after.numbers_caught.subrange(0, state.numbers_caught.len() as int)
        == state.numbers_caught);
}

/// A frame keeps a reachable state reachable, whatever is spawned.
pub proof fn law_frame_preserves_wf(
    state: GameStateView,
    held: HeldKeys,
    now_seconds: u64,
    spawn: Option<Spawn>,
)
    requires
        state.wf(),
    ensures
        state.updated(held, now_seconds, spawn).wf(),
{
    let moved = state.input_handled(held).timer_processed(now_seconds).spawn_applied(
        spawn,
    ).bubbles_moved();
    law_first_overlap_is_first(moved.bubbles, moved.ship.position);
}

/// A key press keeps a reachable state reachable, for every target that can
/// be drawn.
pub proof fn law_key_press_preserves_wf(
    state: GameStateView,
    key: Option<Key>,
    now_seconds: u64,
    target: u32,
)
    requires
        state.wf(),
        MIN_TARGET <= target <= MAX_TARGET,
    ensures
        state.key_pressed(key, now_seconds, target).wf(),
{
}

/// A ship with forward speeds never ends a frame more than one step beyond
/// the limits of the window, unless it began the frame further out; and then
/// it is no further out than it was.
pub proof fn law_ship_stays_near_window(state: GameStateView, held: HeldKeys)
    requires
        state.ship.speed.x >= 0,
        state.ship.speed.y >= 0,
    ensures
        ({
            let ship = state.ship;
            let after = state.input_handled(held).ship;
            let right = (state.window_size.width - SHIP_RIGHT_INSET_PIXELS) * UNITS_PER_PIXEL;
            let bottom = (state.window_size.height - SHIP_BOTTOM_INSET_PIXELS) * UNITS_PER_PIXEL;
            &&& after.speed == ship.speed
            &&& after.position.x >= ship.position.x || after.position.x >= SHIP_LEFT_LIMIT
                - ship.speed.x
            &&& after.position.x <= ship.position.x || after.position.x <= right + ship.speed.x
            &&& after.position.y >= ship.position.y || after.position.y >= SHIP_TOP_LIMIT
                - ship.speed.y
            &&& after.position.y <= ship.position.y || after.position.y <= bottom + ship.speed.y
        }),
{
}

/// A catch takes exactly one bubble out of play and adds exactly its number
/// to the sum; without a catch nothing changes.
pub proof fn law_catch_adds_the_number(state: GameStateView)
    ensures
        match first_overlap(state.bubbles, state.ship.position) {
            Some(i) => {
                &&& 0 <= i < state.bubbles.len()
                &&& state.bubble_caught().bubbles.len() == state.bubbles.len() - 1
                &&& state.bubble_caught().caught_total() == state.caught_total()
                    + state.bubbles[i].number
            },
            None => state.bubble_caught() == state,
        },
{
    law_first_overlap_is_first(state.bubbles, state.ship.position);
    match first_overlap(state.bubbles, state.ship.position) {
        Some(i) => {
            let caught = state.numbers_caught.push(state.bubbles[i].number);
            assert(caught.drop_last() == state.numbers_caught);
        },
        None => {},
    }
}

/// In a running round the sum decides: on the target the round is won, with
/// one point and one more for every two seconds left; over the target the
/// round is lost on the overshot screen at the cost of one life, if one is
/// left; under the target the round goes on.
pub proof fn law_sum_decides_the_round(state: GameStateView)
    requires
        state.wf(),
        state.current_mode == GameMode::Running,
    ensures
        state.caught_total() == state.current_target ==> {
            let after = state.round_resolved();
            &&& after.current_mode == GameMode::WinScreen
            &&& after.round_time_bonus == state.round_time_remaining_seconds
                / SECONDS_LEFT_PER_BONUS_POINT
            &&& state.score + 1 + after.round_time_bonus <= u32::MAX ==> after.score
                == state.score + 1 + after.round_time_bonus
            &&& after.lives_remaining == state.lives_remaining
        },
        state.caught_total() > state.current_target ==> {
            let after = state.round_resolved();
            &&& after.current_mode == GameMode::OvershotScreen
            &&& state.lives_remaining > 0 ==> after.lives_remaining == state.lives_remaining
                - 1
            &&& state.lives_remaining == 0 ==> after.lives_remaining == 0
            &&& after.score == state.score
        },
        state.caught_total() < state.current_target ==> state.round_resolved() == state,
{
}

} // verus!
