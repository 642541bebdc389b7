//! The orange disk: falls straight down and goes off when it lands.

use vstd::prelude::*;
use crate::grid::{Coord, Grid};
use crate::level::{world_of, LevelData, World};
use crate::tile_data::tile::Tile;
use crate::tile_data::tile_interaction::TileInteraction;
use crate::tile_data::tile_move::TileMove;
use crate::tile_data::tile_state::TileState;
use crate::tile_data::tile_type::TileType;
use crate::tile_data::tile_update::Updateable;
use super::explode_system::{explode_at, set_area_explode};
use super::gravity_system::{dropped, is_mid_push};

verus! {

/// What the orange-disk system makes of the world when it visits `c`. The
/// disk falls while the cell below is empty. A disk that was falling and
/// finds the cell below taken explodes, unless what is there is in the
/// middle of a push; otherwise its timer is cleared.
pub open spec fn orange_disk_step(w: World, c: Coord) -> World {
    let disk = w.grid.at(c);
    let below = w.grid.at(c.step(TileMove::Down));
    if disk.upd > 0 {
        w
    } else if below.typ == TileType::Empty {
        World { grid: dropped(w.grid, c, TileMove::Down), ..w }
    } else if disk.mov == TileMove::Down && !is_mid_push(below) {
        explode_at(w, c)
    } else {
        World { grid: w.grid.put(c, Tile { upd: 0, ..disk }), ..w }
    }
}

pub fn orange_disk_system(coord: &Coord, grid: &mut Grid, level_data: &mut LevelData)
    requires
        old(grid).wf(),
        coord.is_inner(),
    ensures
        final(grid).wf(),
        final(grid).width == old(grid).width,
        final(grid).height == old(grid).height,
        world_of(*final(grid), *final(level_data)) == orange_disk_step(
            world_of(*old(grid), *old(level_data)),
            *coord,
        ),
{
    let mut disk = grid.get(coord);
    if disk.upd > 0 {
        return ;
    }
    let coord_down = coord.offset(&TileMove::Down);

    if grid.get(&coord_down).typ == TileType::Empty {
        let upd = disk.upd.move_update();
        let tile = Tile::mov_state(&disk, upd, TileMove::Down, TileState::Dangerous);
        grid.set(&coord_down, tile);
        grid.set(coord, Tile::transitory(upd, TileType::Empty));
    } else if disk.mov == TileMove::Down && grid.get(&coord_down).interaction
        != TileInteraction::Pushing {
        set_area_explode(coord, grid, &mut level_data.game_state);
    } else {
        disk.upd.dont_update();
        grid.set(coord, disk);
    }
}

} // verus!
