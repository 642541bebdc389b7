//! What occupies a cell in the plainest model, with what the rules need to
//! know of it.

use vstd::prelude::*;
use crate::bug_state::BugState;
use crate::gravity::Gravity;
use crate::tiles::{Moveable, Tile};

verus! {

#[derive(Clone, Copy, Debug, PartialEq, Eq, Structural)]
pub struct Entity {
    pub tile: Tile,
    pub moveable: Moveable,
    pub is_destructible: bool,
    pub is_moveable: bool,
    pub is_eatable: bool,
    pub gravity: Option<Gravity>,
    pub bug_state: Option<BugState>,
}

impl Entity {
    /// An entity at rest.
    pub open spec fn spec_new(
        tile: Tile,
        is_destructible: bool,
        is_moveable: bool,
        is_eatable: bool,
        gravity: Option<Gravity>,
        bug_state: Option<BugState>,
    ) -> Self {
        Entity {
            tile,
            moveable: Moveable::Stationary,
            is_destructible,
            is_moveable,
            is_eatable,
            gravity,
            bug_state,
        }
    }

    #[verifier::when_used_as_spec(spec_new)]
    pub fn new(
        tile: Tile,
        is_destructible: bool,
        is_moveable: bool,
        is_eatable: bool,
        gravity: Option<Gravity>,
        bug_state: Option<BugState>,
    ) -> (e: Self)
        ensures
            e == Self::spec_new(tile, is_destructible, is_moveable, is_eatable, gravity, bug_state),
    {
        Self {
            tile,
            moveable: Moveable::Stationary,
            is_destructible,
            is_moveable,
            is_eatable,
            gravity,
            bug_state,
        }
    }

    /// `entity`, moving as `moveable` says.
    pub open spec fn spec_from(entity: Entity, moveable: Moveable) -> Self {
        Entity { moveable, ..entity }
    }

    #[verifier::when_used_as_spec(spec_from)]
    pub fn from(entity: Entity, moveable: Moveable) -> (e: Self)
        ensures
            e == Self::spec_from(entity, moveable),
    {
        Self {
            tile: entity.tile,
            moveable,
            is_destructible: entity.is_destructible,
            is_moveable: entity.is_moveable,
            is_eatable: entity.is_eatable,
            gravity: entity.gravity,
            bug_state: entity.bug_state,
        }
    }

    /// The entity that a tile starts as: at rest; destructible unless it is
    /// hardware or nothing at all; pushable if it is a disk or a zonk;
    /// eatable if it is base, a bug, empty space, an infotron or a disk;
    /// falling if it is an infotron, a disk or a zonk.
    pub open spec fn spec_from_tile(tile: Tile) -> Self {
        Entity {
            tile,
            moveable: Moveable::Stationary,
            is_destructible: !(tile is Hardware || tile is Void),
            is_moveable: tile is UtilityDisks || tile is Zonk,
            is_eatable: tile is Base || tile is Bug || tile is Empty || tile is Infotron
                || tile is UtilityDisks,
            gravity: if tile is Infotron || tile is UtilityDisks || tile is Zonk {
                Some(Gravity { slideable: true })
            } else {
                None
            },
            bug_state: if tile is Bug {
                Some(BugState { update_cycle: 0, animation_cycle: 0 })
            } else {
                None
            },
        }
    }

    #[verifier::when_used_as_spec(spec_from_tile)]
    pub fn from_tile(tile: Tile) -> (e: Self)
        ensures
            e == Self::spec_from_tile(tile),
    {
        match tile {
            Tile::Base => Entity::new(tile, true, false, true, None, None),
            Tile::Bug => Entity::new(tile, true, false, true, None, Some(BugState::new())),
            Tile::Electron => Entity::new(tile, true, false, false, None, None),
            Tile::Empty => Entity::new(tile, true, false, true, None, None),
            Tile::Exit => Entity::new(tile, true, false, false, None, None),
            Tile::Hardware(_) => Entity::new(tile, false, false, false, None, None),
            Tile::Infotron => Entity::new(
                tile,
                true,
                false,
                true,
                Some(Gravity { slideable: true }),
                None,
            ),
            Tile::Murphy => Entity::new(tile, true, false, false, None, None),
            Tile::Void => Entity::new(tile, false, false, false, None, None),
            Tile::Ports(_) => Entity::new(tile, true, false, false, None, None),
            Tile::RAMChips(_) => Entity::new(tile, true, false, false, None, None),
            Tile::SnikSnak => Entity::new(tile, true, false, false, None, None),
            Tile::Terminal => Entity::new(tile, true, false, false, None, None),
            Tile::UtilityDisks(_) => Entity::new(
                tile,
                true,
                true,
                true,
                Some(Gravity { slideable: true }),
                None,
            ),
            Tile::Zonk => Entity::new(
                tile,
                true,
                true,
                false,
                Some(Gravity { slideable: true }),
                None,
            ),
        }
    }
}

} // verus!
