//! Input events and the player's committed direction of motion.
//!
//! A direction key commits the player to a direction only while it stands
//! still; once moving, it keeps that direction until something blocks it.

use crate::grid::{coord, is_passable, Cell, Size};
use vstd::prelude::*;

verus! {

/// The direction the player is committed to, or `Stopped`.
#[derive(Clone, Copy, Debug, PartialEq, Eq, Structural)]
pub enum Motion {
    Stopped,
    Up,
    Right,
    Down,
    Left,
}

/// The identity of a key.
#[derive(Clone, Copy, Debug, PartialEq, Eq, Structural)]
pub enum KeyCode {
    Up,
    Right,
    Down,
    Left,
    W,
    A,
    S,
    D,
    R,
    Escape,
    Enter,
    Space,
    Tab,
    Backspace,
}

/// One discrete input event of a tick.
#[derive(Clone, Copy, Debug, PartialEq, Eq, Structural)]
pub enum Event {
    /// A key went down, with the state of the two modifiers at that moment.
    KeyPressed { key: KeyCode, ctrl: bool, shift: bool },
    /// The window was asked to close.
    Close,
}

/// The direction that `key` stands for: each direction has an arrow key and a
/// letter key. `Stopped` for every other key.
pub open spec fn key_direction(key: KeyCode) -> Motion {
    match key {
        KeyCode::W | KeyCode::Up => Motion::Up,
        KeyCode::D | KeyCode::Right => Motion::Right,
        KeyCode::S | KeyCode::Down => Motion::Down,
        KeyCode::A | KeyCode::Left => Motion::Left,
        _ => Motion::Stopped,
    }
}

/// The direction that `event` asks for, `Stopped` if it asks for none.
pub open spec fn event_direction(event: Event) -> Motion {
    match event {
        Event::KeyPressed { key, ctrl, shift } => key_direction(key),
        Event::Close => Motion::Stopped,
    }
}

/// Whether `event` is the press of a direction key.
pub open spec fn is_direction_event(event: Event) -> bool {
    event_direction(event) != Motion::Stopped
}

/// Whether `event` is the reset command: `R` pressed with the control key.
pub open spec fn is_reset(event: Event) -> bool {
    event matches Event::KeyPressed { key: KeyCode::R, ctrl: true, shift }
}

/// Whether `event` asks to quit: the window closing, or `Escape` pressed.
pub open spec fn is_quit(event: Event) -> bool {
    match event {
        Event::Close => true,
        Event::KeyPressed { key, ctrl, shift } => key == KeyCode::Escape,
    }
}

/// The motion after `event`: a standing player takes up the direction asked
/// for, a moving one keeps its own.
pub open spec fn handle_input(motion: Motion, event: Event) -> Motion {
    if motion == Motion::Stopped {
        event_direction(event)
    } else {
        motion
    }
}

/// One tile's step in the direction `motion`; up is towards smaller `y`.
pub open spec fn unit_vector(motion: Motion) -> (int, int) {
    match motion {
        Motion::Stopped => (0, 0),
        Motion::Up => (0, -1),
        Motion::Right => (1, 0),
        Motion::Down => (0, 1),
        Motion::Left => (-1, 0),
    }
}

/// The tile that a player at `pos` heads for.
pub open spec fn target(pos: (int, int), motion: Motion) -> (int, int) {
    (pos.0 + unit_vector(motion).0, pos.1 + unit_vector(motion).1)
}

/// One tile of movement: a standing player stays; a moving one enters the
/// tile ahead if it is passable and keeps moving, else stays and stops.
pub open spec fn advance(
    motion: Motion,
    pos: (int, int),
    cells: Map<(int, int), Cell>,
    size: Size,
) -> ((int, int), Motion) {
    if motion == Motion::Stopped {
        (pos, motion)
    } else if is_passable(cells, size, target(pos, motion)) {
        (target(pos, motion), motion)
    } else {
        (pos, Motion::Stopped)
    }
}

/// The direction that `event` asks for.
pub(crate) fn direction_of(event: &Event) -> (motion: Motion)
    ensures
        motion == event_direction(*event),
{
    match event {
        Event::KeyPressed { key: KeyCode::W, .. } | Event::KeyPressed { key: KeyCode::Up, .. } => {
            Motion::Up
        },
        Event::KeyPressed { key: KeyCode::D, .. }
        | Event::KeyPressed { key: KeyCode::Right, .. } => Motion::Right,
        Event::KeyPressed { key: KeyCode::S, .. }
        | Event::KeyPressed { key: KeyCode::Down, .. } => Motion::Down,
        Event::KeyPressed { key: KeyCode::A, .. }
        | Event::KeyPressed { key: KeyCode::Left, .. } => Motion::Left,
        _ => Motion::Stopped,
    }
}

/// The tile ahead of `pos` in the direction `motion`, or `None` where it has
/// no `i32` coordinates. Such a tile lies off every play surface.
pub(crate) fn tile_ahead(pos: (i32, i32), motion: Motion) -> (ahead: Option<(i32, i32)>)
    ensures
        match ahead {
            Some(tile) => coord(tile) == target(coord(pos), motion),
            None => forall|cells: Map<(int, int), Cell>, size: Size|
                !is_passable(cells, size, target(coord(pos), motion)),
        },
{
    let (x, y) = pos;
    let (dx, dy): (i32, i32) = match motion {
        Motion::Stopped => (0, 0),
        Motion::Up => (0, -1),
        Motion::Right => (1, 0),
        Motion::Down => (0, 1),
        Motion::Left => (-1, 0),
    };
    match (x.checked_add(dx), y.checked_add(dy)) {
        (Some(tx), Some(ty)) => Some((tx, ty)),
        _ => None,
    }
}

} // verus!
