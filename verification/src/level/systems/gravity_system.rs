//! Falling and rolling in the tick-counting model.

use vstd::prelude::*;
use crate::cells::{trans, Cells, Pos};
use crate::level::components::move_component::MoveComponent;
use crate::level::components::update_component::UpdateComponent;
use crate::tile::{Tile, MOVE_CYCLES};

verus! {

/// The updates that move the tile at `src` one cell on by `by`, into
/// direction `mc`: the tile there, with the clock of a move, and a
/// placeholder where it was. Nothing if the tile is not one that moves.
pub open spec fn move_updates(grid: &Cells, src: Pos, by: (i16, i16), mc: MoveComponent) -> Option<
    Seq<(Pos, Tile)>,
> {
    match grid.at(src).change_tile(UpdateComponent(MOVE_CYCLES, 0), mc) {
        Some(tile) => Some(seq![(trans(src, by), tile), (src, Tile::transitory_empty())]),
        None => None,
    }
}

/// The update that brings the tile at `src` to rest, if it is one that
/// moves and `mc` says that it was moving.
pub open spec fn rest_updates(grid: &Cells, src: Pos, mc: MoveComponent) -> Option<
    Seq<(Pos, Tile)>,
> {
    if mc != MoveComponent::Stationary {
        match grid.at(src).change_tile(UpdateComponent(0, 0), MoveComponent::Stationary) {
            Some(tile) => Some(seq![(src, tile)]),
            None => None,
        }
    } else {
        None
    }
}

/// Whether the cell `dx` columns beside `src` and the one below that are
/// both empty.
pub open spec fn can_roll(grid: &Cells, src: Pos, dx: i16) -> bool {
    grid.at(trans(src, (dx, 0i16))) == Tile::Empty && grid.at(trans(src, (dx, 1i16)))
        == Tile::Empty
}

/// What gravity asks for on behalf of the tile at `src`, whose clock is
/// `uc` and whose direction is `mc`. While the first count of the clock
/// runs, nothing. Over an empty cell the tile falls. On an infotron, a chip
/// or a zonk it rolls off, to the left if it can and else to the right, and
/// else comes to rest. On anything else it comes to rest.
pub open spec fn gravity_updates(
    grid: &Cells,
    src: Pos,
    uc: UpdateComponent,
    mc: MoveComponent,
) -> Option<Seq<(Pos, Tile)>> {
    if uc.0 != 0 {
        None
    } else {
        match grid.at(trans(src, (0i16, 1i16))) {
            Tile::Empty => move_updates(grid, src, (0i16, 1i16), MoveComponent::Down),
            Tile::Infotron(_, _) | Tile::RAMChips(_) | Tile::Zonk(_, _) => {
                if can_roll(grid, src, -1i16) {
                    move_updates(grid, src, (-1i16, 0i16), MoveComponent::Left)
                } else if can_roll(grid, src, 1i16) {
                    move_updates(grid, src, (1i16, 0i16), MoveComponent::Right)
                } else {
                    rest_updates(grid, src, mc)
                }
            },
            _ => rest_updates(grid, src, mc),
        }
    }
}

/// Asks for the move of the tile at `src` by `by`.
pub fn move_tile(grid: &Cells, src: (usize, usize), by: (i16, i16), mc: MoveComponent) -> (r:
    Option<Vec<((usize, usize), Tile)>>)
    ensures
        r is Some == move_updates(grid, src, by, mc) is Some,
        r matches Some(v) ==> Some(v@) == move_updates(grid, src, by, mc),
{
    if let Some(tile) = grid.get_tuple(src).change_tile(UpdateComponent(16, 0), mc) {
        let mut updates: Vec<((usize, usize), Tile)> = Vec::new();
        updates.push((trans(src, by), tile));
        updates.push((src, Tile::transitory_empty()));
        proof {
            assert(updates@ =~= seq![(trans(src, by), tile), (src, Tile::transitory_empty())]);
        }
        return Some(updates);
    }
    None
}

/// Asks for the tile at `src` to come to rest.
pub fn rest_tile(grid: &Cells, src: (usize, usize), mc: &MoveComponent) -> (r: Option<
    Vec<((usize, usize), Tile)>,
>)
    ensures
        r is Some == rest_updates(grid, src, *mc) is Some,
        r matches Some(v) ==> Some(v@) == rest_updates(grid, src, *mc),
{
    if !matches!(mc, MoveComponent::Stationary) {
        if let Some(tile) = grid.get_tuple(src).change_tile(
            UpdateComponent(0, 0),
            MoveComponent::Stationary,
        ) {
            let mut updates: Vec<((usize, usize), Tile)> = Vec::new();
            updates.push((src, tile));
            proof {
                assert(updates@ =~= seq![(src, tile)]);
            }
            return Some(updates);
        }
    }
    None
}

pub fn gravity_system(
    src: (usize, usize),
    grid: &Cells,
    update_component: &UpdateComponent,
    move_component: &MoveComponent,
) -> (r: Option<Vec<((usize, usize), Tile)>>)
    ensures
        r is Some == gravity_updates(grid, src, *update_component, *move_component) is Some,
        r matches Some(v) ==> Some(v@) == gravity_updates(
            grid,
            src,
            *update_component,
            *move_component,
        ),
{
    if update_component.0 != 0 {
        return None;
    }
    match grid.get_trans(src, (0, 1)) {
        Tile::Empty => move_tile(grid, src, (0, 1), MoveComponent::Down),
        Tile::Infotron(_, _) | Tile::RAMChips(_) | Tile::Zonk(_, _) => {
            if matches!(grid.get_trans(src, (-1, 0)), Tile::Empty) && matches!(
                grid.get_trans(src, (-1, 1)),
                Tile::Empty
            ) {
                move_tile(grid, src, (-1, 0), MoveComponent::Left)
            } else if matches!(grid.get_trans(src, (1, 0)), Tile::Empty) && matches!(
                grid.get_trans(src, (1, 1)),
                Tile::Empty
            ) {
                move_tile(grid, src, (1, 0), MoveComponent::Right)
            } else {
                rest_tile(grid, src, move_component)
            }
        },
        _ => rest_tile(grid, src, move_component),
    }
}

} // verus!
