//! Placeholders. A tile that moves away leaves one behind, locked by the
//! timer of the move, so that nothing later in the same scan takes the cell
//! for free space.

use vstd::prelude::*;
use crate::grid::{Coord, Grid};
use crate::level::{world_of, LevelData, World};
use crate::tile_data::tile_type::TileType;

verus! {

/// What the placeholder system makes of the world when it visits `c`: once
/// the timer of the placeholder has run out, the cell is empty.
pub open spec fn transitory_step(w: World, c: Coord) -> World {
    if w.grid.at(c).upd > 0 {
        w
    } else {
        World { grid: w.grid.put(c, TileType::Empty.to_tile()), ..w }
    }
}

pub fn transitory_system(coord: &Coord, grid: &mut Grid, _level_data: &mut LevelData)
    requires
        old(grid).wf(),
    ensures
        final(grid).wf(),
        final(grid).width == old(grid).width,
        final(grid).height == old(grid).height,
        world_of(*final(grid), *final(_level_data)) == transitory_step(
            world_of(*old(grid), *old(_level_data)),
            *coord,
        ),
{
    let tile = grid.get(coord);
    if tile.upd > 0 {
        return ;
    }
    grid.set(coord, TileType::to_tile(TileType::Empty));
}

} // verus!
