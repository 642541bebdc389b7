//! The patrolling enemy of the tick-counting model.

use vstd::prelude::*;
use crate::cells::{trans, Cells, Pos};
use crate::level::components::move_component::MoveComponent;
use crate::level::components::update_component::UpdateComponent;
use crate::tile::{Tile, MOVE_CYCLES};

verus! {

/// Update cycles in a quarter turn.
pub const TURN_CYCLES: u8 = 8;

/// The updates that move the enemy at `src` one cell ahead.
pub open spec fn advance(src: Pos, mc: MoveComponent) -> Seq<(Pos, Tile)> {
    seq![
        (trans(src, mc.as_tuple()), Tile::SnikSnak(UpdateComponent(MOVE_CYCLES, 0), mc, mc)),
        (src, Tile::transitory_empty()),
    ]
}

/// The update that turns the enemy at `src` from `mc` to `to`.
pub open spec fn turn(src: Pos, to: MoveComponent, mc: MoveComponent) -> Seq<(Pos, Tile)> {
    seq![(src, Tile::SnikSnak(UpdateComponent(0, TURN_CYCLES), to, mc))]
}

/// What the enemy at `src`, facing `mc`, asks for once its clock has run
/// out. It keeps a wall on its left: with the cell to its left empty it
/// turns left, unless it has just come round a corner, in which case it
/// first goes one cell ahead. With the player to its left it does nothing.
/// Otherwise it goes ahead if it can and turns right if it cannot.
pub open spec fn ai_updates(grid: &Cells, src: Pos, uc: UpdateComponent, mc: MoveComponent) -> Option<
    Seq<(Pos, Tile)>,
> {
    let left = trans(src, mc.rotate_left().as_tuple());
    let front = trans(src, mc.as_tuple());
    if uc.0 != 0 || uc.1 != 0 {
        None
    } else {
        match grid.at(left) {
            Tile::Empty => if grid.at(trans(left, mc.as_tuple())) != Tile::Empty && grid.at(front)
                == Tile::Empty {
                Some(advance(src, mc))
            } else {
                Some(turn(src, mc.rotate_left(), mc))
            },
            Tile::Murphy(_, _, _, _) => None,
            _ => if grid.at(front) == Tile::Empty {
                Some(advance(src, mc))
            } else {
                Some(turn(src, mc.rotate_right(), mc))
            },
        }
    }
}

pub fn ai_system(
    src: (usize, usize),
    grid: &Cells,
    uc: &UpdateComponent,
    mc: &MoveComponent,
    mc_pre: &MoveComponent,
) -> (r: Option<Vec<((usize, usize), Tile)>>)
    ensures
        r is Some == ai_updates(grid, src, *uc, *mc) is Some,
        r matches Some(v) ==> Some(v@) == ai_updates(grid, src, *uc, *mc),
{
    if uc.0 != 0 || uc.1 != 0 {
        return None;
    }
    let mc_left = mc.rotate_left();
    let src2 = trans(src, mc_left.as_tuple());
    let src_front = trans(src, mc.as_tuple());
    let mut updates: Vec<((usize, usize), Tile)> = Vec::new();

    match grid.get_tuple(src2) {
        Tile::Empty => {
            if !matches!(grid.get_tuple(trans(src2, mc.as_tuple())), Tile::Empty) && matches!(
                grid.get_tuple(src_front),
                Tile::Empty
            ) {
                updates.push((src_front, Tile::SnikSnak(UpdateComponent(16, 0), *mc, *mc)));
                updates.push((src, Tile::transitory_empty()));
                proof {
                    assert(updates@ =~= advance(src, *mc));
                }
            } else {
                updates.push((src, Tile::SnikSnak(UpdateComponent(0, 8), mc_left, *mc)));
                proof {
                    assert(updates@ =~= turn(src, mc_left, *mc));
                }
            }
        },
        Tile::Murphy(_, _, _, _) => {
            return None;
        },
        _ => {
            match grid.get_tuple(src_front) {
                Tile::Empty => {
                    updates.push((src_front, Tile::SnikSnak(UpdateComponent(16, 0), *mc, *mc)));
                    updates.push((src, Tile::transitory_empty()));
                    proof {
                        assert(updates@ =~= advance(src, *mc));
                    }
                },
                _ => {
                    let mc3 = mc.rotate_right();
                    updates.push((src, Tile::SnikSnak(UpdateComponent(0, 8), mc3, *mc)));
                    proof {
                        assert(updates@ =~= turn(src, mc3, *mc));
                    }
                },
            }
        },
    }
    Some(updates)
}

} // verus!
