//! Facing and movement directions.

use vstd::prelude::*;
use crate::grid::{Coord, ToCoord};

verus! {

/// A movement or facing direction, or `Stationary` for a tile at rest.
#[derive(Copy, Clone, PartialEq, Eq, Structural, Debug)]
pub enum TileMove {
    Up,
    Right,
    Down,
    Left,
    Stationary,
}

impl Default for TileMove {
    fn default() -> (m: Self)
        ensures
            m == TileMove::Stationary,
    {
        TileMove::Stationary
    }
}

impl TileMove {
    /// The direction a quarter turn counter-clockwise of `self`.
    pub open spec fn spec_rotate_left(&self) -> Self {
        match self {
            Self::Up => Self::Left,
            Self::Right => Self::Up,
            Self::Down => Self::Right,
            Self::Left => Self::Down,
            Self::Stationary => Self::Stationary,
        }
    }

    /// The direction a quarter turn clockwise of `self`.
    pub open spec fn spec_rotate_right(&self) -> Self {
        match self {
            Self::Up => Self::Right,
            Self::Right => Self::Down,
            Self::Down => Self::Left,
            Self::Left => Self::Up,
            Self::Stationary => Self::Stationary,
        }
    }

    /// The direction pointing the other way.
    pub open spec fn spec_opposite(&self) -> Self {
        match self {
            Self::Up => Self::Down,
            Self::Right => Self::Left,
            Self::Down => Self::Up,
            Self::Left => Self::Right,
            Self::Stationary => Self::Stationary,
        }
    }

    /// Horizontal step of one cell in this direction.
    pub open spec fn dx(&self) -> int {
        match self {
            Self::Right => 1,
            Self::Left => -1,
            _ => 0,
        }
    }

    /// Vertical step of one cell in this direction; rows grow downwards.
    pub open spec fn dy(&self) -> int {
        match self {
            Self::Down => 1,
            Self::Up => -1,
            _ => 0,
        }
    }

    /// Whether the direction lies on the horizontal axis.
    pub open spec fn is_lateral(&self) -> bool {
        *self == Self::Left || *self == Self::Right
    }

    #[verifier::when_used_as_spec(spec_rotate_left)]
    pub fn rotate_left(&self) -> (r: Self)
        ensures
            r == self.spec_rotate_left(),
    {
        match self {
            Self::Up => Self::Left,
            Self::Right => Self::Up,
            Self::Down => Self::Right,
            Self::Left => Self::Down,
            Self::Stationary => Self::Stationary,
        }
    }

    #[verifier::when_used_as_spec(spec_rotate_right)]
    pub fn rotate_right(&self) -> (r: Self)
        ensures
            r == self.spec_rotate_right(),
    {
        match self {
            Self::Up => Self::Right,
            Self::Right => Self::Down,
            Self::Down => Self::Left,
            Self::Left => Self::Up,
            Self::Stationary => Self::Stationary,
        }
    }

    #[verifier::when_used_as_spec(spec_opposite)]
    pub fn opposite(&self) -> (r: Self)
        ensures
            r == self.spec_opposite(),
    {
        match self {
            Self::Up => Self::Down,
            Self::Right => Self::Left,
            Self::Down => Self::Up,
            Self::Left => Self::Right,
            Self::Stationary => Self::Stationary,
        }
    }
}

impl ToCoord for TileMove {
    open spec fn spec_to_coord(&self) -> Coord {
        Coord { x: self.dx() as i16, y: self.dy() as i16 }
    }

    fn to_coord(&self) -> (c: Coord) {
        match self {
            TileMove::Up => Coord::new(0, -1),
            TileMove::Right => Coord::new(1, 0),
            TileMove::Down => Coord::new(0, 1),
            TileMove::Left => Coord::new(-1, 0),
            TileMove::Stationary => Coord::new(0, 0),
        }
    }
}

} // verus!
