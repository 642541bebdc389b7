//! One state machine per tile category. Each is given a cell, the grid and
//! the shared state, and changes them in place.

pub mod ai_system;
pub mod explode_system;
pub mod gravity_system;
pub mod murphy_system;
pub mod orange_disk_system;
pub mod transitory_system;
