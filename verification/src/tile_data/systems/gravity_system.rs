//! Falling and sliding: infotrons and zonks.

use vstd::prelude::*;
use crate::grid::{Coord, Grid, GridView};
use crate::level::{world_of, LevelData, World};
use crate::tile_data::tile::Tile;
use crate::tile_data::tile_interaction::TileInteraction;
use crate::tile_data::tile_move::TileMove;
use crate::tile_data::tile_state::TileState;
use crate::tile_data::tile_type::TileType;
use crate::tile_data::tile_update::{timer_plus, Updateable, MOVE_TIME};
use super::explode_system::{explode_at, set_area_explode};

verus! {

/// What gravity decides for an object.
#[derive(Clone, Copy, PartialEq, Eq, Structural, Debug)]
pub enum GravityAction {
    /// The timer is still running.
    Busy,
    /// The cell below is empty: fall into it.
    Fall,
    /// Roll off to the left.
    SlideLeft,
    /// Roll off to the right.
    SlideRight,
    /// Come down on an actor: explode.
    Crash,
    /// Come down on an actor that is being pushed: wait, still falling.
    Hang,
    /// Come to rest.
    Settle,
}

/// Whether `tile` is in the middle of a push: pushing, or being pushed
/// along.
pub open spec fn is_mid_push(tile: Tile) -> bool {
    tile.interaction == TileInteraction::Pushing
}

/// Whether the object at `c` can roll off towards `side`: the cell beside
/// it and the one below that are both empty.
pub open spec fn can_slide(g: GridView, c: Coord, side: TileMove) -> bool {
    &&& g.at(c.step(side)).typ == TileType::Empty
    &&& g.at(c.step(side).step(TileMove::Down)).typ == TileType::Empty
}

/// The decision of gravity for the object at `c`. An object slides only off
/// a rounded object, and to the left if it can go either way. An object
/// that comes down on an actor explodes, unless the actor is being pushed:
/// then it waits. An object that is not falling rests on an actor as on
/// anything else.
pub open spec fn gravity_action(g: GridView, c: Coord) -> GravityAction {
    let tile = g.at(c);
    let below = g.at(c.step(TileMove::Down));
    if tile.upd > 0 {
        GravityAction::Busy
    } else if below.typ == TileType::Empty {
        GravityAction::Fall
    } else if below.typ.is_rounded() {
        if can_slide(g, c, TileMove::Left) {
            GravityAction::SlideLeft
        } else if can_slide(g, c, TileMove::Right) {
            GravityAction::SlideRight
        } else {
            GravityAction::Settle
        }
    } else if below.typ.is_actor() {
        if tile.mov != TileMove::Down {
            GravityAction::Settle
        } else if !is_mid_push(below) {
            GravityAction::Crash
        } else {
            GravityAction::Hang
        }
    } else {
        GravityAction::Settle
    }
}

/// The grid after the object at `c` has set out for the next cell in
/// direction `dir`: it is there, dangerous and locked for the time of a
/// move, and a placeholder with the same timer holds the cell it left.
pub open spec fn dropped(g: GridView, c: Coord, dir: TileMove) -> GridView {
    let tile = g.at(c);
    let upd = timer_plus(tile.upd, MOVE_TIME);
    g.put(c.step(dir), tile.mov_state(upd, dir, TileState::Dangerous)).put(
        c,
        Tile::transitory(upd, TileType::Empty),
    )
}

/// The object `tile` at rest: an infotron can be eaten again, anything else
/// can be pushed.
pub open spec fn settled(tile: Tile) -> Tile {
    Tile {
        upd: 0,
        mov: TileMove::Stationary,
        state: if tile.typ == TileType::Infotron {
            TileState::Eatable
        } else {
            TileState::Moveable
        },
        ..tile
    }
}

/// What gravity makes of the world when it visits `c`.
pub open spec fn gravity_step(w: World, c: Coord) -> World {
    match gravity_action(w.grid, c) {
        GravityAction::Busy | GravityAction::Hang => w,
        GravityAction::Fall => World { grid: dropped(w.grid, c, TileMove::Down), ..w },
        GravityAction::SlideLeft => World { grid: dropped(w.grid, c, TileMove::Left), ..w },
        GravityAction::SlideRight => World { grid: dropped(w.grid, c, TileMove::Right), ..w },
        GravityAction::Crash => explode_at(w, c),
        GravityAction::Settle => World { grid: w.grid.put(c, settled(w.grid.at(c))), ..w },
    }
}

/// Sets the object at `coord` in motion towards `dir`.
fn drop_towards(coord: &Coord, grid: &mut Grid, dir: TileMove)
    requires
        old(grid).wf(),
        coord.is_inner(),
    ensures
        final(grid).wf(),
        final(grid).width == old(grid).width,
        final(grid).height == old(grid).height,
        final(grid)@ == dropped(old(grid)@, *coord, dir),
{
    let tile = grid.get(coord);
    let upd = tile.upd.move_update();
    let target = coord.offset(&dir);
    grid.set(&target, Tile::mov_state(&tile, upd, dir, TileState::Dangerous));
    grid.set(coord, Tile::transitory(upd, TileType::Empty));
}

/// Brings the object at `coord` to rest.
fn settle(coord: &Coord, grid: &mut Grid)
    requires
        old(grid).wf(),
    ensures
        final(grid).wf(),
        final(grid).width == old(grid).width,
        final(grid).height == old(grid).height,
        final(grid)@ == old(grid)@.put(*coord, settled(old(grid)@.at(*coord))),
{
    let mut tile = grid.get(coord);
    tile.upd.dont_update();
    tile.mov = TileMove::Stationary;
    tile.state = match tile.typ {
        TileType::Infotron => TileState::Eatable,
        _ => TileState::Moveable,
    };
    grid.set(coord, tile);
}

pub fn gravity_system(coord: &Coord, grid: &mut Grid, level_data: &mut LevelData)
    requires
        old(grid).wf(),
        coord.is_inner(),
    ensures
        final(grid).wf(),
        final(grid).width == old(grid).width,
        final(grid).height == old(grid).height,
        world_of(*final(grid), *final(level_data)) == gravity_step(
            world_of(*old(grid), *old(level_data)),
            *coord,
        ),
{
    let tile = grid.get(coord);

    if tile.upd > 0 {
        return ;
    }
    let coord_left = coord.offset(&TileMove::Left);
    let coord_down = coord.offset(&TileMove::Down);
    let coord_right = coord.offset(&TileMove::Right);
    let coord_left_down = coord.offset(&TileMove::Left).offset(&TileMove::Down);
    let coord_right_down = coord.offset(&TileMove::Right).offset(&TileMove::Down);

    match grid.get(&coord_down).typ {
        TileType::Empty => {
            drop_towards(coord, grid, TileMove::Down);
        },
        TileType::Infotron
        | TileType::RAMChipsBase
        | TileType::RAMChipsLeft
        | TileType::RAMChipsRight
        | TileType::RAMChipsUp
        | TileType::RAMChipsDown
        | TileType::Zonk => {
            if grid.get(&coord_left).typ == TileType::Empty && grid.get(&coord_left_down).typ
                == TileType::Empty {
                drop_towards(coord, grid, TileMove::Left);
            } else if grid.get(&coord_right).typ == TileType::Empty && grid.get(
                &coord_right_down,
            ).typ == TileType::Empty {
                drop_towards(coord, grid, TileMove::Right);
            } else {
                settle(coord, grid);
            }
        },
        TileType::Electron
        | TileType::Murphy
        | TileType::SnikSnak
        | TileType::YellowUtilityDisk
        | TileType::OrangeUtilityDisk => {
            if tile.mov != TileMove::Down {
                settle(coord, grid);
            } else if grid.get(&coord_down).interaction != TileInteraction::Pushing {
                set_area_explode(coord, grid, &mut level_data.game_state);
            }
        },
        _ => {
            settle(coord, grid);
        },
    }
}

/// An object that rests on a rounded object and is free to roll off either
/// way rolls off to the left: it is in the cell to its left afterwards,
/// facing left, and the cell to its right is as empty as before.
pub proof fn lemma_left_first(w: World, c: Coord)
    requires
        c.is_inner(),
        w.grid.at(c).upd <= 0,
        w.grid.at(c.step(TileMove::Down)).typ.is_rounded(),
        can_slide(w.grid, c, TileMove::Left),
        can_slide(w.grid, c, TileMove::Right),
    ensures
        gravity_action(w.grid, c) == GravityAction::SlideLeft,
        gravity_step(w, c).grid.at(c.step(TileMove::Left)) == w.grid.at(c).mov_state(
            timer_plus(w.grid.at(c).upd, MOVE_TIME),
            TileMove::Left,
            TileState::Dangerous,
        ),
        gravity_step(w, c).grid.at(c.step(TileMove::Right)) == w.grid.at(
            c.step(TileMove::Right),
        ),
        gravity_step(w, c).grid.at(c.step(TileMove::Right)).typ == TileType::Empty,
        w.grid.has(c) ==> gravity_step(w, c).grid.at(c).typ == TileType::Transitory,
{
}

} // verus!
