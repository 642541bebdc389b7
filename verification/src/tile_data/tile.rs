//! The value held by one cell of the grid.

use vstd::prelude::*;
use super::tile_interaction::TileInteraction;
use super::tile_move::TileMove;
use super::tile_state::TileState;
use super::tile_type::TileType;
use super::tile_update::{timer_minus, TileUpdate, Updateable};

verus! {

/// One cell's full state. A tile has no identity beyond the cell it is in; it
/// is copied freely.
#[derive(Clone, Copy, PartialEq, Eq, Structural, Debug)]
pub struct Tile {
    /// Category.
    pub typ: TileType,
    /// Physical state.
    pub state: TileState,
    /// Current facing, or the direction of the move in progress.
    pub mov: TileMove,
    /// Previous facing. For the player: the side last looked at.
    pub mov2: TileMove,
    /// What the tile is visibly doing.
    pub interaction: TileInteraction,
    /// Timer.
    pub upd: TileUpdate,
}

impl Tile {
    /// A tile of category `typ` in state `state`, at rest and with its timer
    /// run out.
    pub fn at_rest(typ: TileType, state: TileState) -> (t: Self)
        ensures
            t == (Tile {
                typ,
                state,
                mov: TileMove::Stationary,
                mov2: TileMove::Left,
                interaction: TileInteraction::Idle,
                upd: 0,
            }),
    {
        Tile {
            typ,
            state,
            mov: TileMove::Stationary,
            mov2: TileMove::Left,
            interaction: TileInteraction::Idle,
            upd: 0,
        }
    }

    /// The tile after `time` has passed: its timer has run down by `time` if
    /// its category is active, and nothing else has changed.
    pub open spec fn after(&self, time: i32) -> Tile {
        if self.typ.is_active() {
            Tile { upd: timer_minus(self.upd, time), ..*self }
        } else {
            *self
        }
    }

    pub fn update_time(&mut self, time: i32)
        ensures
            *final(self) == old(self).after(time),
    {
        if let TileType::Bug
        | TileType::Electron
        | TileType::Infotron
        | TileType::Murphy
        | TileType::OrangeUtilityDisk
        | TileType::RedUtilityDisk
        | TileType::Terminal
        | TileType::Transitory
        | TileType::YellowUtilityDisk
        | TileType::SnikSnak
        | TileType::Zonk
        | TileType::Explosion
        | TileType::Explosion2 = self.typ
        {
            self.upd.normal_update(time);
        }
    }

    /// The placeholder that a tile leaves in the cell it has moved out of, or
    /// that stands in for a tile of category `typ` while it is being consumed
    /// from a neighbouring cell.
    pub open spec fn spec_transitory(upd: TileUpdate, typ: TileType) -> Tile {
        Tile {
            typ: TileType::Transitory,
            state: TileState::Destructible,
            mov: TileMove::Stationary,
            mov2: TileMove::Left,
            interaction: TileInteraction::Eating(typ),
            upd,
        }
    }

    #[verifier::when_used_as_spec(spec_transitory)]
    pub fn transitory(upd: TileUpdate, typ: TileType) -> (t: Self)
        ensures
            t == Self::spec_transitory(upd, typ),
    {
        Self {
            upd,
            typ: TileType::Transitory,
            state: TileState::Destructible,
            interaction: TileInteraction::Eating(typ),
            mov: TileMove::Stationary,
            mov2: TileMove::Left,
        }
    }

    /// This tile set in motion towards `mov`.
    pub open spec fn spec_moving(&self, upd: TileUpdate, mov: TileMove) -> Tile {
        Tile { upd, mov, mov2: TileMove::Left, ..*self }
    }

    #[verifier::when_used_as_spec(spec_moving)]
    pub fn moving(&self, upd: TileUpdate, mov: TileMove) -> (t: Self)
        ensures
            t == self.spec_moving(upd, mov),
    {
        Self { upd, typ: self.typ, state: self.state, interaction: self.interaction, mov, mov2: TileMove::Left }
    }

    /// This tile set in motion towards `mov`, in physical state `state`.
    pub open spec fn spec_mov_state(
        &self,
        upd: TileUpdate,
        mov: TileMove,
        state: TileState,
    ) -> Tile {
        Tile { upd, mov, state, mov2: TileMove::Left, ..*self }
    }

    #[verifier::when_used_as_spec(spec_mov_state)]
    pub fn mov_state(&self, upd: TileUpdate, mov: TileMove, state: TileState) -> (t: Self)
        ensures
            t == self.spec_mov_state(upd, mov, state),
    {
        Self { upd, typ: self.typ, state, interaction: self.interaction, mov, mov2: TileMove::Left }
    }

    /// The player.
    pub open spec fn spec_murphy(
        upd: TileUpdate,
        mov: TileMove,
        mov2: TileMove,
        interaction: TileInteraction,
    ) -> Tile {
        Tile { typ: TileType::Murphy, state: TileState::Destructible, mov, mov2, interaction, upd }
    }

    #[verifier::when_used_as_spec(spec_murphy)]
    pub fn murphy(upd: TileUpdate, mov: TileMove, mov2: TileMove, interaction: TileInteraction) -> (t:
        Self)
        ensures
            t == Self::spec_murphy(upd, mov, mov2, interaction),
    {
        Self { upd, typ: TileType::Murphy, state: TileState::Destructible, interaction, mov, mov2 }
    }

    /// This tile with both facings, its interaction and its timer replaced.
    pub open spec fn spec_ai(
        &self,
        upd: TileUpdate,
        mov: TileMove,
        mov2: TileMove,
        interaction: TileInteraction,
    ) -> Tile {
        Tile { upd, mov, mov2, interaction, ..*self }
    }

    #[verifier::when_used_as_spec(spec_ai)]
    pub fn ai(&self, upd: TileUpdate, mov: TileMove, mov2: TileMove, interaction: TileInteraction) -> (t:
        Self)
        ensures
            t == self.spec_ai(upd, mov, mov2, interaction),
    {
        Self { upd, typ: self.typ, state: self.state, mov, mov2, interaction }
    }

    /// A blast of category `typ` that lasts until `upd` has run down.
    pub open spec fn spec_blast(typ: TileType, upd: TileUpdate) -> Tile {
        Tile {
            typ,
            state: TileState::Dangerous,
            mov: TileMove::Stationary,
            mov2: TileMove::Stationary,
            interaction: TileInteraction::Idle,
            upd,
        }
    }

    #[verifier::when_used_as_spec(spec_blast)]
    pub fn blast(typ: TileType, upd: TileUpdate) -> (t: Self)
        ensures
            t == Self::spec_blast(typ, upd),
    {
        Tile {
            typ,
            state: TileState::Dangerous,
            mov: TileMove::Stationary,
            mov2: TileMove::Stationary,
            interaction: TileInteraction::Idle,
            upd,
        }
    }

    /// The tile that stands for everything beyond the edge of the grid.
    pub open spec fn border() -> Tile {
        Tile {
            typ: TileType::Void,
            state: TileState::Indestructible,
            mov: TileMove::Stationary,
            mov2: TileMove::Left,
            interaction: TileInteraction::Idle,
            upd: 0,
        }
    }
}

impl Default for Tile {
    fn default() -> (t: Self)
        ensures
            t == Tile::border(),
    {
        Self {
            upd: 0,
            typ: TileType::Void,
            state: TileState::Indestructible,
            interaction: TileInteraction::Idle,
            mov: TileMove::Stationary,
            mov2: TileMove::Left,
        }
    }
}

} // verus!
