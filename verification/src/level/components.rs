//! The parts that a tile of the tick-counting model is made of.

pub mod direction_component;
pub mod interaction_component;
pub mod move_component;
pub mod transitory_component;
pub mod update_component;
