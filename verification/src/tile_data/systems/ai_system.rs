//! The patrolling enemy: follows the wall on its left.

use vstd::prelude::*;
use crate::grid::{Coord, Grid, GridView};
use crate::level::{world_of, LevelData, World};
use crate::tile_data::tile::Tile;
use crate::tile_data::tile_interaction::TileInteraction;
use crate::tile_data::tile_move::TileMove;
use crate::tile_data::tile_type::TileType;
use crate::tile_data::tile_update::{
    add_time, timer_plus, Updateable, LOOKAHEAD_TIME, MOVE_TIME, TURN_TIME,
};
use super::explode_system::{explode_at, set_area_explode};

verus! {

/// What an enemy decides to do.
#[derive(Clone, Copy, PartialEq, Eq, Structural, Debug)]
pub enum AiAction {
    /// Nothing: still on the way, or holding course.
    Wait,
    /// Start a quarter turn to the left, on the spot.
    TurnLeft,
    /// Start a quarter turn to the right, on the spot.
    TurnRight,
    /// Give up a turn that led nowhere: the facing turned to becomes the
    /// facing to start the next decision from.
    Straighten,
    /// Move one cell ahead.
    Advance,
    /// The player is within reach: explode.
    Attack,
}

/// The decision of the enemy at `c`.
///
/// With its timer run out and not in the middle of a turn, it looks left,
/// ahead and right, in this order, and takes the first of these cells that
/// is empty: it turns towards it, or advances into it if it lies ahead. If
/// it meets the player before it meets an empty cell, it attacks. With
/// nowhere to go it turns left.
///
/// In the middle of a turn it advances if it can, attacks the player ahead,
/// and otherwise gives the turn up.
///
/// Shortly before the end of a move (timer positive, at most
/// `LOOKAHEAD_TIME`) it looks around in the same order and starts the turn
/// right away if left or right wins; a cell that holds the player counts as
/// open here.
pub open spec fn ai_action(g: GridView, c: Coord) -> AiAction {
    let ai = g.at(c);
    let left = g.at(c.step(ai.mov.rotate_left())).typ;
    let front = g.at(c.step(ai.mov)).typ;
    let right = g.at(c.step(ai.mov.rotate_right())).typ;
    if ai.upd <= 0 {
        if ai.mov == ai.mov2 {
            if left == TileType::Empty {
                AiAction::TurnLeft
            } else if left == TileType::Murphy {
                AiAction::Attack
            } else if front == TileType::Empty {
                AiAction::Advance
            } else if front == TileType::Murphy {
                AiAction::Attack
            } else if right == TileType::Empty {
                AiAction::TurnRight
            } else if right == TileType::Murphy {
                AiAction::Attack
            } else {
                AiAction::TurnLeft
            }
        } else if front == TileType::Empty {
            AiAction::Advance
        } else if front == TileType::Murphy {
            AiAction::Attack
        } else {
            AiAction::Straighten
        }
    } else if ai.upd <= LOOKAHEAD_TIME && ai.mov == ai.mov2 {
        if left == TileType::Empty || left == TileType::Murphy {
            AiAction::TurnLeft
        } else if front == TileType::Empty || front == TileType::Murphy {
            AiAction::Wait
        } else if right == TileType::Empty || right == TileType::Murphy {
            AiAction::TurnRight
        } else {
            AiAction::TurnLeft
        }
    } else {
        AiAction::Wait
    }
}

/// The enemy `ai` as it starts a quarter turn towards `facing`.
pub open spec fn turning(ai: Tile, facing: TileMove) -> Tile {
    Tile {
        upd: timer_plus(ai.upd, TURN_TIME),
        mov: facing,
        interaction: TileInteraction::Rotating,
        ..ai
    }
}

/// The enemy `ai` as it gives up a turn.
pub open spec fn straightened(ai: Tile) -> Tile {
    Tile {
        upd: timer_plus(ai.upd, TURN_TIME),
        mov2: ai.mov,
        interaction: TileInteraction::Rotating,
        ..ai
    }
}

/// The grid after the enemy at `c` has set out for the cell ahead.
pub open spec fn advanced(g: GridView, c: Coord) -> GridView {
    let ai = g.at(c);
    let upd = timer_plus(ai.upd, MOVE_TIME);
    g.put(c.step(ai.mov), ai.ai(upd, ai.mov, ai.mov, TileInteraction::Moving)).put(
        c,
        Tile::transitory(upd, TileType::Empty),
    )
}

/// What the enemy system makes of the world when it visits `c`.
pub open spec fn ai_step(w: World, c: Coord) -> World {
    let ai = w.grid.at(c);
    match ai_action(w.grid, c) {
        AiAction::Wait => w,
        AiAction::TurnLeft => World {
            grid: w.grid.put(c, turning(ai, ai.mov.rotate_left())),
            ..w
        },
        AiAction::TurnRight => World {
            grid: w.grid.put(c, turning(ai, ai.mov.rotate_right())),
            ..w
        },
        AiAction::Straighten => World { grid: w.grid.put(c, straightened(ai)), ..w },
        AiAction::Advance => World { grid: advanced(w.grid, c), ..w },
        AiAction::Attack => explode_at(w, c),
    }
}

/// Decides for the enemy at `coord`.
pub fn decide(coord: &Coord, grid: &Grid) -> (action: AiAction)
    requires
        grid.wf(),
        coord.is_inner(),
    ensures
        action == ai_action(grid@, *coord),
{
    let ai_tile = grid.get(coord);
    let left = grid.get(&coord.offset(&ai_tile.mov.rotate_left())).typ;
    let front = grid.get(&coord.offset(&ai_tile.mov)).typ;
    let right = grid.get(&coord.offset(&ai_tile.mov.rotate_right())).typ;

    if ai_tile.upd <= 0 {
        if ai_tile.mov == ai_tile.mov2 {
            if left == TileType::Empty {
                AiAction::TurnLeft
            } else if left == TileType::Murphy {
                AiAction::Attack
            } else if front == TileType::Empty {
                AiAction::Advance
            } else if front == TileType::Murphy {
                AiAction::Attack
            } else if right == TileType::Empty {
                AiAction::TurnRight
            } else if right == TileType::Murphy {
                AiAction::Attack
            } else {
                AiAction::TurnLeft
            }
        } else if front == TileType::Empty {
            AiAction::Advance
        } else if front == TileType::Murphy {
            AiAction::Attack
        } else {
            AiAction::Straighten
        }
    } else if ai_tile.upd <= LOOKAHEAD_TIME && ai_tile.mov == ai_tile.mov2 {
        if left == TileType::Empty || left == TileType::Murphy {
            AiAction::TurnLeft
        } else if front == TileType::Empty || front == TileType::Murphy {
            AiAction::Wait
        } else if right == TileType::Empty || right == TileType::Murphy {
            AiAction::TurnRight
        } else {
            AiAction::TurnLeft
        }
    } else {
        AiAction::Wait
    }
}

pub fn ai_system(coord: &Coord, grid: &mut Grid, level_data: &mut LevelData)
    requires
        old(grid).wf(),
        coord.is_inner(),
    ensures
        final(grid).wf(),
        final(grid).width == old(grid).width,
        final(grid).height == old(grid).height,
        world_of(*final(grid), *final(level_data)) == ai_step(
            world_of(*old(grid), *old(level_data)),
            *coord,
        ),
{
    let mut ai = grid.get(coord);
    match decide(coord, grid) {
        AiAction::Wait => {},
        AiAction::TurnLeft => {
            ai.upd = add_time(ai.upd, TURN_TIME);
            ai.mov = ai.mov.rotate_left();
            ai.interaction = TileInteraction::Rotating;
            grid.set(coord, ai);
        },
        AiAction::TurnRight => {
            ai.upd = add_time(ai.upd, TURN_TIME);
            ai.mov = ai.mov.rotate_right();
            ai.interaction = TileInteraction::Rotating;
            grid.set(coord, ai);
        },
        AiAction::Straighten => {
            ai.upd = add_time(ai.upd, TURN_TIME);
            ai.mov2 = ai.mov;
            ai.interaction = TileInteraction::Rotating;
            grid.set(coord, ai);
        },
        AiAction::Advance => {
            let upd = ai.upd.move_update();
            let coord_front = coord.offset(&ai.mov);
            grid.set(&coord_front, Tile::ai(&ai, upd, ai.mov, ai.mov, TileInteraction::Moving));
            grid.set(coord, Tile::transitory(upd, TileType::Empty));
        },
        AiAction::Attack => {
            set_area_explode(coord, grid, &mut level_data.game_state);
        },
    }
}

/// Whether the enemy `ai` is so close to the end of a move that it already
/// looks around for where to turn next.
pub open spec fn looks_ahead(ai: Tile) -> bool {
    0 < ai.upd <= LOOKAHEAD_TIME && ai.mov == ai.mov2
}

/// While its timer runs an enemy does nothing, but for the end of a move:
/// there it may already start to turn. Even then it stays what it is and
/// where it is, and touches nothing else.
pub proof fn lemma_ai_busy(w: World, c: Coord)
    requires
        w.grid.at(c).upd > 0,
    ensures
        !looks_ahead(w.grid.at(c)) ==> ai_step(w, c) == w,
        ai_step(w, c).data == w.data,
        ai_step(w, c).grid.at(c).typ == w.grid.at(c).typ,
        ai_step(w, c).grid.at(c).state == w.grid.at(c).state,
        ai_step(w, c).grid.at(c).mov2 == w.grid.at(c).mov2,
        forall|d: Coord| d != c ==> ai_step(w, c).grid.at(d) == w.grid.at(d),
{
}

} // verus!
