//! The systems of the tick-counting model. A system does not change the
//! grid: it is given the tile in a cell and says which cells are to hold
//! what, or nothing if the tile is to be left alone.

pub mod ai_system;
pub mod gravity_system;
pub mod murphy_system;
pub mod simple_gravity_system;
pub mod transitory_system;
