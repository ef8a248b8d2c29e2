//! The tick: the only way a state changes.
//!
//! A tick counts the frame, takes the events of the tick one by one, and then
//! does what the mode at the start of the tick asks for: on the title screen
//! the player walks to the start tile, during play it walks to the goal.

use crate::grid::{can_go, coord, Cell, Size};
use crate::motion::{
    advance,
    direction_of,
    handle_input,
    is_quit,
    is_reset,
    tile_ahead,
    Event,
    KeyCode,
    Motion,
};
use crate::laws::lemma_frame_count_wraps;
use crate::state::{initial_world, level_world, new_state, next_level, State, World, START_POS};
use vstd::prelude::*;

verus! {

/// The world after one event: the reset command replaces it with the title
/// screen; any other event acts on the motion alone.
pub open spec fn apply_event(world: World, event: Event) -> World {
    if is_reset(event) {
        initial_world(false)
    } else {
        World { motion: handle_input(world.motion, event), ..world }
    }
}

/// The world after the events of a tick, taken in order, and whether one of
/// them asked to quit. The first event that asks to quit is the last one
/// taken.
pub open spec fn run_events(world: World, events: Seq<Event>) -> (World, bool)
    decreases events.len(),
{
    if events.len() == 0 {
        (world, false)
    } else {
        let (before, quit) = run_events(world, events.drop_last());
        if quit {
            (before, true)
        } else {
            (apply_event(before, events.last()), is_quit(events.last()))
        }
    }
}

/// The world after one tile of movement.
pub open spec fn moved(world: World, size: Size) -> World {
    let (pos, motion) = advance(world.motion, world.player_pos, world.cells, size);
    World { player_pos: pos, motion, ..world }
}

/// Whether the player stands on a goal.
pub open spec fn on_goal(world: World) -> bool {
    world.cells.contains_key(world.player_pos) && world.cells[world.player_pos] == Cell::Goal
}

/// What the title screen does once the events are taken: a player on the
/// start tile begins the first level, any other moves on.
pub open spec fn title_tick(world: World, size: Size) -> World {
    if world.player_pos == coord(START_POS) {
        level_world(world.rng)
    } else {
        moved(world, size)
    }
}

/// What play does once the events are taken: the player moves on, and where
/// it then stands on a goal the next level begins.
pub open spec fn play_tick(world: World, size: Size) -> World {
    if on_goal(moved(world, size)) {
        level_world(world.rng)
    } else {
        moved(world, size)
    }
}

/// One tick of play without the frame count: the events, then, unless one
/// asked to quit, [`play_tick`].
pub open spec fn game_step(size: Size, world: World, events: Seq<Event>) -> (World, bool) {
    let (after, quit) = run_events(world, events);
    if quit {
        (after, true)
    } else {
        (play_tick(after, size), false)
    }
}

/// One tick of the title screen without the frame count: the events, then,
/// unless one asked to quit, [`title_tick`].
pub open spec fn title_step(size: Size, world: World, events: Seq<Event>) -> (World, bool) {
    let (after, quit) = run_events(world, events);
    if quit {
        (after, true)
    } else {
        (title_tick(after, size), false)
    }
}

/// The frame count after `count`: one more, and zero after the largest.
pub open spec fn next_frame(count: u32) -> u32 {
    if count == u32::MAX {
        0
    } else {
        (count + 1) as u32
    }
}

/// One tick: the world that follows `world` on a play surface of extent
/// `size` under `events`, and whether the caller was asked to quit. The mode
/// that `world` is in decides which of the two steps is taken, whatever the
/// events do to the mode.
pub open spec fn step(size: Size, world: World, events: Seq<Event>) -> (World, bool) {
    let counted = World { frame_count: next_frame(world.frame_count), ..world };
    if world.title_screen {
        title_step(size, counted, events)
    } else {
        game_step(size, counted, events)
    }
}

/// Where a prefix of the events ends in a request to quit, the events that
/// follow it are never taken.
pub proof fn lemma_quit_ends_the_tick(world: World, events: Seq<Event>, n: int)
    requires
        0 <= n <= events.len(),
        run_events(world, events.take(n)).1,
    ensures
        run_events(world, events) == run_events(world, events.take(n)),
    decreases events.len() - n,
{
    if n < events.len() {
        assert(events.take(n + 1).drop_last() =~= events.take(n));
        lemma_quit_ends_the_tick(world, events, n + 1);
    } else {
        assert(events.take(n) =~= events);
    }
}

/// Takes one event: a direction key sets a standing player in motion, the
/// reset command replaces the state with the title screen, and every other
/// event leaves the state as it is.
pub fn cross_mode_event_handling(size: Size, state: &mut State, event: &Event)
    ensures
        final(state)@ == apply_event(old(state)@, *event),
{
    match event {
        Event::KeyPressed { key: KeyCode::R, ctrl: true, .. } => {
            *state = new_state(size, false);
        },
        _ => {
            let asked = direction_of(event);
            if state.motion == Motion::Stopped {
                state.motion = asked;
            }
        },
    }
}

/// Takes the events of a tick in order, up to and with the first that asks to
/// quit. Returns whether one did.
pub fn handle_events(size: Size, state: &mut State, events: &Vec<Event>) -> (quit: bool)
    ensures
        (final(state)@, quit) == run_events(old(state)@, events@),
{
    let mut i: usize = 0;
    while i < events.len()
        invariant
            i <= events.len(),
            run_events(old(state)@, events@.take(i as int)) == (state@, false),
        decreases events.len() - i,
    {
        let event = events[i];
        cross_mode_event_handling(size, state, &event);
        proof {
            assert(events@.take(i + 1).drop_last() =~= events@.take(i as int));
        }
        match event {
            Event::Close | Event::KeyPressed { key: KeyCode::Escape, .. } => {
                proof {
                    lemma_quit_ends_the_tick(old(state)@, events@, i + 1);
                }
                return true;
            },
            _ => {},
        }
        i += 1;
    }
    proof {
        assert(events@.take(i as int) =~= events@);
    }
    false
}

/// Moves the player by one tile in its direction, or stops it where the tile
/// ahead cannot be entered.
pub fn move_player(size: Size, state: &mut State)
    ensures
        final(state)@ == moved(old(state)@, size),
{
    match state.motion {
        Motion::Stopped => {},
        _ => {
            let entered = match tile_ahead(state.player_pos, state.motion) {
                Some(tile) => if can_go(size, &state.cells, tile) {
                    Some(tile)
                } else {
                    None
                },
                None => None,
            };
            match entered {
                Some(tile) => {
                    state.player_pos = tile;
                },
                None => {
                    state.motion = Motion::Stopped;
                },
            }
        },
    }
}

/// One tick of play, without the frame count. Returns whether the caller was
/// asked to quit; the state then holds what the events up to that request
/// made of it. The picture of the state is the caller's to draw.
pub fn game_update_and_render(size: Size, state: &mut State, events: &mut Vec<Event>) -> (quit:
    bool)
    ensures
        (final(state)@, quit) == game_step(size, old(state)@, old(events)@),
        final(events)@ == old(events)@,
{
    if handle_events(size, state, events) {
        return true;
    }
    let rng = state.rng;
    move_player(size, state);

    if let Some(Cell::Goal) = state.cells.get(state.player_pos) {
        *state = next_level(size, rng);
    }
    false
}

/// One tick on a play surface of extent `size`: counts the frame, takes the
/// events, and does what the mode asks for. Returns whether the caller was
/// asked to quit. The picture of the state is the caller's to draw.
///
/// The frame count never overflows: after the largest count the tick ends at
/// zero.
pub fn update_and_render(size: Size, state: &mut State, events: &mut Vec<Event>) -> (quit: bool)
    ensures
        (final(state)@, quit) == step(size, old(state)@, old(events)@),
        final(events)@ == old(events)@,
        old(state).frame_count == u32::MAX ==> final(state).frame_count == 0,
{
    proof {
        lemma_frame_count_wraps(size, old(state)@, old(events)@);
    }
    state.frame_count = state.frame_count.wrapping_add(1);

    if state.title_screen {
        if handle_events(size, state, events) {
            return true;
        }
        if state.player_pos.0 == START_POS.0 && state.player_pos.1 == START_POS.1 {
            *state = next_level(size, state.rng);
        } else {
            move_player(size, state);
        }
        false
    } else {
        game_update_and_render(size, state, events)
    }
}

} // verus!
