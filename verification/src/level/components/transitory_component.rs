//! What a placeholder stands in for, in the tick-counting model.

use vstd::prelude::*;
use crate::tile::Tile;

verus! {

#[derive(Clone, Copy, Debug, PartialEq, Eq, Structural)]
pub enum TransitoryComponent {
    Nothing,
    Base,
    Infotron,
    RedUtilityDisk,
}

impl TransitoryComponent {
    pub open spec fn spec_from_tile(tile: &Tile) -> Self {
        match tile {
            Tile::Base => Self::Base,
            Tile::Infotron(_, _) => Self::Infotron,
            Tile::RedUtilityDisk(_) => Self::RedUtilityDisk,
            _ => Self::Nothing,
        }
    }

    #[verifier::when_used_as_spec(spec_from_tile)]
    pub fn from_tile(tile: &Tile) -> (t: Self)
        ensures
            t == Self::spec_from_tile(tile),
            t == Self::Base <==> *tile == Tile::Base,
            t == Self::Infotron <==> *tile is Infotron,
            t == Self::RedUtilityDisk <==> *tile is RedUtilityDisk,
    {
        match tile {
            Tile::Base => Self::Base,
            Tile::Infotron(_, _) => Self::Infotron,
            Tile::RedUtilityDisk(_) => Self::RedUtilityDisk,
            _ => Self::Nothing,
        }
    }
}

} // verus!
