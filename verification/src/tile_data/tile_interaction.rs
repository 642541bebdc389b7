//! What a tile is visibly doing. Only animation depends on it, with one
//! exception: gravity does not count an object that is being pushed as an
//! obstacle to crash into.

use vstd::prelude::*;
use super::tile_type::TileType;

verus! {

#[derive(Clone, Copy, PartialEq, Eq, Structural, Debug)]
pub enum TileInteraction {
    Idle,
    /// Consuming a tile of the given category.
    Eating(TileType),
    Pushing,
    Slurping,
    /// Passing through a port of the given category.
    Tunneling(TileType),
    Moving,
    Rotating,
}

impl Default for TileInteraction {
    fn default() -> (i: Self)
        ensures
            i == TileInteraction::Idle,
    {
        TileInteraction::Idle
    }
}

} // verus!
