//! What holds of every tick, stated over the model and proved from it.

use crate::grid::{coord, is_passable, Cell, Size};
use crate::motion::{advance, is_direction_event, is_reset, Event, Motion};
use crate::state::{
    initial_world,
    level_layout,
    level_world,
    seeded_generator,
    title_layout,
    World,
    SEED,
    START_POS,
};
use crate::step::{apply_event, moved, next_frame, on_goal, play_tick, run_events, step};
use vstd::prelude::*;

verus! {

/// A moving player cannot be redirected: direction keys pressed while it
/// moves change nothing, however many there are, and none of them asks to
/// quit.
pub proof fn lemma_no_redirection_in_flight(world: World, events: Seq<Event>)
    requires
        world.motion != Motion::Stopped,
        forall|i: int| 0 <= i < events.len() ==> is_direction_event(#[trigger] events[i]),
    ensures
        run_events(world, events) == (world, false),
    decreases events.len(),
{
    if events.len() > 0 {
        lemma_no_redirection_in_flight(world, events.drop_last());
        assert(is_direction_event(events[events.len() - 1]));
    }
}

/// The motion changes only from standing to a direction or from a direction
/// to standing, under one event as under one tile of movement: never from one
/// direction to another.
pub proof fn lemma_motion_passes_through_stopped(world: World, event: Event, size: Size)
    ensures
        world.motion == Motion::Stopped || apply_event(world, event).motion == Motion::Stopped
            || apply_event(world, event).motion == world.motion,
        world.motion == Motion::Stopped || moved(world, size).motion == Motion::Stopped || moved(
            world,
            size,
        ).motion == world.motion,
        world.motion == Motion::Stopped ==> moved(world, size).motion == Motion::Stopped,
{
}

/// A player that was stopped by what lies ahead stays where it stopped:
/// moving it again, on the same grid and play surface, gives the same
/// position and leaves it standing.
pub proof fn lemma_advance_idempotent_at_wall(
    motion: Motion,
    pos: (int, int),
    cells: Map<(int, int), Cell>,
    size: Size,
)
    requires
        advance(motion, pos, cells, size) == (pos, Motion::Stopped),
    ensures
        advance(Motion::Stopped, pos, cells, size) == advance(motion, pos, cells, size),
{
}

/// The same of a whole world: once a tile of movement has stopped the
/// player, another changes nothing.
pub proof fn lemma_stopped_player_stays(world: World, size: Size)
    requires
        moved(world, size).motion == Motion::Stopped,
    ensures
        moved(moved(world, size), size) == moved(world, size),
{
}

/// A player never comes to stand on a wall by moving, nor off the play
/// surface: where one tile of movement changes the position, the new one is
/// passable.
pub proof fn lemma_never_enters_a_wall(world: World, size: Size)
    ensures
        moved(world, size).player_pos != world.player_pos ==> is_passable(
            world.cells,
            size,
            moved(world, size).player_pos,
        ),
        moved(world, size).cells == world.cells,
{
}

/// During play, a player that comes to stand on a goal begins the next
/// level: the tick ends in play mode, on the freshly built cells of a level,
/// with the player standing on the level's start tile and the frame count at
/// zero. The generator is the one that the events left.
pub proof fn lemma_goal_begins_next_level(size: Size, world: World, events: Seq<Event>)
    requires
        !world.title_screen,
        !step(size, world, events).1,
        on_goal(
            moved(
                run_events(
                    World { frame_count: next_frame(world.frame_count), ..world },
                    events,
                ).0,
                size,
            ),
        ),
    ensures
        !step(size, world, events).0.title_screen,
        step(size, world, events).0.cells == level_layout(),
        step(size, world, events).0.motion == Motion::Stopped,
        step(size, world, events).0.player_pos == coord(START_POS),
        step(size, world, events).0.frame_count == 0,
        step(size, world, events).0.rng == run_events(
            World { frame_count: next_frame(world.frame_count), ..world },
            events,
        ).0.rng,
{
}

/// The same for what play does after the events: where the player comes to
/// stand on a goal, the next level begins.
pub proof fn lemma_goal_ends_the_level(world: World, size: Size)
    requires
        on_goal(moved(world, size)),
    ensures
        play_tick(world, size) == level_world(world.rng),
        !play_tick(world, size).title_screen,
        play_tick(world, size).motion == Motion::Stopped,
        play_tick(world, size).cells == level_layout(),
{
}

/// The reset command forgets the state it is given in: from any two worlds
/// it leads to the same one, the title screen that a game begins with, on its
/// walls and with a generator seeded anew. A level built after it is the very
/// level that a game without title screen begins with.
pub proof fn lemma_reset_is_deterministic(first: World, second: World, event: Event)
    requires
        is_reset(event),
    ensures
        apply_event(first, event) == apply_event(second, event),
        apply_event(first, event) == initial_world(false),
        apply_event(first, event).cells == title_layout(),
        apply_event(first, event).rng == seeded_generator(seq![SEED]),
        level_world(apply_event(first, event).rng) == initial_world(true),
{
}

/// The layout of a level does not depend on the generator it is built
/// around.
pub proof fn lemma_level_layout_is_fixed(first: World, second: World)
    ensures
        level_world(first.rng).cells == level_world(second.rng).cells,
        level_world(first.rng).cells == level_layout(),
{
}

/// The events of a tick leave the frame count as it is, or at zero where one
/// of them is the reset command.
pub proof fn lemma_events_keep_frame_count(world: World, events: Seq<Event>)
    ensures
        run_events(world, events).0.frame_count == world.frame_count || run_events(
            world,
            events,
        ).0.frame_count == 0,
    decreases events.len(),
{
    if events.len() > 0 {
        lemma_events_keep_frame_count(world, events.drop_last());
    }
}

/// A tick counts the frame, wrapping from the largest count to zero, unless
/// it replaces the state, which sets the count to zero. So the tick after the
/// largest count always ends at zero.
pub proof fn lemma_frame_count_wraps(size: Size, world: World, events: Seq<Event>)
    ensures
        step(size, world, events).0.frame_count == next_frame(world.frame_count) || step(
            size,
            world,
            events,
        ).0.frame_count == 0,
        world.frame_count == u32::MAX ==> step(size, world, events).0.frame_count == 0,
        next_frame(u32::MAX) == 0,
        world.frame_count < u32::MAX ==> next_frame(world.frame_count) == world.frame_count + 1,
{
    lemma_events_keep_frame_count(
        World { frame_count: next_frame(world.frame_count), ..world },
        events,
    );
}

} // verus!
