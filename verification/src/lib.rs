//! A deterministic, timer-driven simulation of a Supaplex-style tile world:
//! a rectangular grid of tiles (the player, rocks that fall, things to
//! collect, enemies, disks, ports, explosives) that evolves through one
//! state machine per tile category, each advanced once per tick.
//!
//! Time is counted in whole units throughout. A timer unit is a thousandth
//! of the time that a move by one cell takes; positions between cells are
//! counted in thousandths of a cell. Whoever runs the simulation turns the
//! clock and the keyboard into such numbers and turns positions back into
//! pixels.
//!
//! Three models of the world live here side by side.
//!
//! * [`grid`], [`tile_data`], [`level`] and [`level_loader`]: the model
//!   that the game runs on. A tile is a record with a category, a physical
//!   state, two facings, an interaction and a timer; systems change the
//!   grid in place while it is scanned.
//! * [`tile`], [`cells`], [`level::components`], [`level::systems`] and
//!   [`world`]: a model that counts update cycles. A tile carries the
//!   components of its category; systems answer with lists of updates.
//! * [`tiles`], [`entity`], [`gravity`], [`murphy`] and [`bug_state`]: the
//!   plainest model, in which a tile is a category and the player lives
//!   outside the grid.

pub mod bug_state;
pub mod cells;
pub mod entity;
pub mod gravity;
pub mod grid;
pub mod level;
pub mod level_loader;
pub mod murphy;
pub mod tile;
pub mod tile_data;
pub mod tiles;
pub mod world;
