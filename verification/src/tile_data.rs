//! The per-cell value and the per-category state machines that act on it.

pub mod sprite;
pub mod systems;
pub mod tile;
pub mod tile_interaction;
pub mod tile_move;
pub mod tile_state;
pub mod tile_type;
pub mod tile_update;
