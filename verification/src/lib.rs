//! A stacking-tower arcade engine: a box sweeps across the screen, the player
//! drops it onto a tower of earlier boxes, and every drop either lands (and
//! may narrow the box) or ends the game.
//!
//! The crate holds the simulation and the logic that sequences it as pure state
//! transitions on plain values. The host owns the shared cells, the lock, the
//! drawing surface and the input source; it hands their contents in and
//! carries the results out.

pub mod app_state;
pub mod engine;
pub mod game;
pub mod input;
pub mod physics;
pub mod render;
pub mod resolver;
pub mod tower;

pub use app_state::{get_app_state, get_game_state, update_app_state, AppState, ErrorCode};
pub use engine::{on_input, on_tick, InputReport, TickReport};
pub use game::GameState;
