//! Gravity in the plainest model: instead of changing the grid, a thing
//! that falls says which cells change, and the changes are applied once
//! everything has had its say.

use vstd::prelude::*;
use crate::entity::Entity;
use crate::tiles::{Moveable, Tile};

verus! {

/// Marks a thing that falls.
#[derive(Clone, Copy, Debug, PartialEq, Eq, Structural)]
pub struct Gravity {
    pub slideable: bool,
}

/// A cell and what is to be there.
pub type Update = (usize, usize, Entity);

/// What is in column `x`, row `y` of `grid`, a sequence of columns. Outside
/// the grid there is nothing.
pub open spec fn entity_at(grid: &Vec<Vec<Entity>>, x: int, y: int) -> Entity {
    if 0 <= x < grid@.len() && 0 <= y < grid@[x]@.len() {
        grid@[x]@[y]
    } else {
        Entity::from_tile(Tile::Void)
    }
}

/// Whether the thing in column `x`, row `y` may roll into column `side`:
/// nothing that falls is above that cell, and that cell and the one below
/// it are empty.
pub open spec fn may_roll(grid: &Vec<Vec<Entity>>, side: int, y: int) -> bool {
    &&& entity_at(grid, side, y - 1).gravity is None
    &&& entity_at(grid, side, y).tile == Tile::Empty
    &&& entity_at(grid, side, y + 1).tile == Tile::Empty
}

/// The update that brings `entity` to rest in its cell, if it was moving.
pub open spec fn rest(x: int, y: int, entity: Entity) -> Seq<Update> {
    if entity.moveable != Moveable::Stationary {
        seq![(x as usize, y as usize, Entity::from(entity, Moveable::Stationary))]
    } else {
        Seq::empty()
    }
}

/// The updates that gravity asks for on behalf of the thing in column `x`,
/// row `y`. Over an empty cell it falls. On a rounded thing it rolls off
/// to either side that is free, and comes to rest if it was moving;
/// updates that come later in the list win where several name one cell.
/// On anything else it comes to rest.
pub open spec fn gravity_updates(grid: &Vec<Vec<Entity>>, x: int, y: int) -> Seq<Update> {
    let entity = entity_at(grid, x, y);
    let vacated = (x as usize, y as usize, Entity::from_tile(Tile::Empty));
    match entity_at(grid, x, y + 1).tile {
        Tile::Empty => seq![
            vacated,
            (x as usize, (y + 1) as usize, Entity::from(entity, Moveable::Down)),
        ],
        Tile::Infotron | Tile::RAMChips(_) | Tile::Zonk => {
            let left = if may_roll(grid, x - 1, y) {
                seq![vacated, ((x - 1) as usize, y as usize, Entity::from(entity, Moveable::Left))]
            } else {
                Seq::empty()
            };
            let right = if may_roll(grid, x + 1, y) {
                seq![vacated, ((x + 1) as usize, y as usize, Entity::from(entity, Moveable::Left))]
            } else {
                Seq::empty()
            };
            left + right + rest(x, y, entity)
        },
        _ => rest(x, y, entity),
    }
}

/// Reads `grid` at column `x`, row `y`.
fn get_entity(grid: &Vec<Vec<Entity>>, x: usize, y: usize) -> (e: Entity)
    ensures
        e == entity_at(grid, x as int, y as int),
{
    if x < grid.len() {
        if y < grid[x].len() {
            return grid[x][y];
        }
    }
    Entity::from_tile(Tile::Void)
}

impl Gravity {
    /// Whether the cells that `update` looks at around column `x`, row `y`
    /// can all be named: the row below always, and the neighbouring
    /// columns and the row above where the thing sits on a rounded thing.
    pub open spec fn in_range(grid: &Vec<Vec<Entity>>, x: usize, y: usize) -> bool {
        &&& y < usize::MAX
        &&& match entity_at(grid, x as int, y + 1).tile {
            Tile::Infotron | Tile::RAMChips(_) | Tile::Zonk => 1 <= x < usize::MAX && 1 <= y,
            _ => true,
        }
    }

    /// Appends to `updates` what gravity asks for on behalf of the thing in
    /// column `x`, row `y` of `grid`.
    pub fn update(&self, x: usize, y: usize, grid: &Vec<Vec<Entity>>, updates: &mut Vec<Update>)
        requires
            Self::in_range(grid, x, y),
        ensures
            final(updates)@ == old(updates)@ + gravity_updates(grid, x as int, y as int),
    {
        let entity = get_entity(grid, x, y);
        let foundation_entity = get_entity(grid, x, y + 1);
        let ghost before = updates@;

        match foundation_entity.tile {
            Tile::Empty => {
                updates.push((x, y, Entity::from_tile(Tile::Empty)));
                updates.push((x, y + 1, Entity::from(entity, Moveable::Down)));
                proof {
                    assert(updates@ =~= before + gravity_updates(grid, x as int, y as int));
                }
            },
            Tile::Infotron | Tile::RAMChips(_) | Tile::Zonk => {
                if get_entity(grid, x - 1, y - 1).gravity.is_none() && get_entity(
                    grid,
                    x - 1,
                    y,
                ).tile == Tile::Empty && get_entity(grid, x - 1, y + 1).tile == Tile::Empty {
                    updates.push((x, y, Entity::from_tile(Tile::Empty)));
                    updates.push((x - 1, y, Entity::from(entity, Moveable::Left)));
                }
                if get_entity(grid, x + 1, y - 1).gravity.is_none() && get_entity(
                    grid,
                    x + 1,
                    y,
                ).tile == Tile::Empty && get_entity(grid, x + 1, y + 1).tile == Tile::Empty {
                    updates.push((x, y, Entity::from_tile(Tile::Empty)));
                    updates.push((x + 1, y, Entity::from(entity, Moveable::Left)));
                }
                if entity.moveable != Moveable::Stationary {
                    updates.push((x, y, Entity::from(entity, Moveable::Stationary)));
                }
                proof {
                    assert(updates@ =~= before + gravity_updates(grid, x as int, y as int));
                }
            },
            _ => {
                if entity.moveable != Moveable::Stationary {
                    updates.push((x, y, Entity::from(entity, Moveable::Stationary)));
                }
                proof {
                    assert(updates@ =~= before + gravity_updates(grid, x as int, y as int));
                }
            },
        }
    }
}

} // verus!
