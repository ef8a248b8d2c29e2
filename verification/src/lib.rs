//! Simulation core of a small tile-based game.
//!
//! The world is a sparse grid of cells, a player position, a committed
//! direction of motion and a mode (title screen or play). One call of
//! [`update_and_render`] advances the world by one tick. Every function is
//! stated over the mathematical model in [`state::World`].

pub mod grid;
pub mod laws;
pub mod motion;
pub mod render;
pub mod state;
pub mod step;

pub use grid::{can_go, Cell, Cells, Size};
pub use motion::{Event, KeyCode, Motion};
pub use render::goal_string;
pub use state::{new_state, next_level, State, START_POS};
pub use step::{
    cross_mode_event_handling, game_update_and_render, handle_events, move_player,
    update_and_render,
};
