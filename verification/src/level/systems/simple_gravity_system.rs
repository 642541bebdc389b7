//! Falling without rolling, in the tick-counting model.

use vstd::prelude::*;
use crate::cells::{trans, Cells, Pos};
use crate::level::components::move_component::MoveComponent;
use crate::level::components::update_component::UpdateComponent;
use crate::tile::Tile;
use super::gravity_system::{move_tile, move_updates, rest_tile, rest_updates};

verus! {

/// What plain gravity asks for on behalf of the tile at `src`, whose clock
/// is `uc` and whose direction is `mc`. While the first count of the clock
/// runs, nothing. Over an empty cell the tile falls; on anything else it
/// comes to rest.
pub open spec fn simple_gravity_updates(
    grid: &Cells,
    src: Pos,
    uc: UpdateComponent,
    mc: MoveComponent,
) -> Option<Seq<(Pos, Tile)>> {
    if uc.0 != 0 {
        None
    } else if grid.at(trans(src, (0i16, 1i16))) == Tile::Empty {
        move_updates(grid, src, (0i16, 1i16), MoveComponent::Down)
    } else {
        rest_updates(grid, src, mc)
    }
}

pub fn simple_gravity_system(
    src: (usize, usize),
    grid: &Cells,
    update_component: &UpdateComponent,
    move_component: &MoveComponent,
) -> (r: Option<Vec<((usize, usize), Tile)>>)
    ensures
        r is Some == simple_gravity_updates(grid, src, *update_component, *move_component)
            is Some,
        r matches Some(v) ==> Some(v@) == simple_gravity_updates(
            grid,
            src,
            *update_component,
            *move_component,
        ),
{
    if update_component.0 != 0 {
        return None;
    }
    if matches!(grid.get_trans(src, (0, 1)), Tile::Empty) {
        move_tile(grid, src, (0, 1), MoveComponent::Down)
    } else {
        rest_tile(grid, src, move_component)
    }
}

} // verus!
