//! The direction of a move in the tick-counting model.

use vstd::prelude::*;

verus! {

#[derive(Clone, Copy, Debug, PartialEq, Eq, Structural)]
pub enum MoveComponent {
    Stationary,
    Up,
    Down,
    Left,
    Right,
}

impl MoveComponent {
    /// The direction that an axis reading stands for: `1` and `-1` are
    /// right and left, `2` and `-2` are down and up, anything else is no
    /// move.
    pub open spec fn spec_from_i8(value: i8) -> Self {
        if value == 1 {
            Self::Right
        } else if value == -1 {
            Self::Left
        } else if value == 2 {
            Self::Down
        } else if value == -2 {
            Self::Up
        } else {
            Self::Stationary
        }
    }

    #[verifier::when_used_as_spec(spec_from_i8)]
    pub fn from_i8(value: i8) -> (m: Self)
        ensures
            m == Self::spec_from_i8(value),
    {
        match value {
            1 => Self::Right,
            -1 => Self::Left,
            2 => Self::Down,
            -2 => Self::Up,
            _ => Self::Stationary,
        }
    }

    /// The step of one cell in this direction, as column and row offsets;
    /// rows grow downwards.
    pub open spec fn spec_as_tuple(&self) -> (i16, i16) {
        match self {
            Self::Stationary => (0i16, 0i16),
            Self::Up => (0i16, -1i16),
            Self::Down => (0i16, 1i16),
            Self::Left => (-1i16, 0i16),
            Self::Right => (1i16, 0i16),
        }
    }

    #[verifier::when_used_as_spec(spec_as_tuple)]
    pub fn as_tuple(&self) -> (t: (i16, i16))
        ensures
            t == self.spec_as_tuple(),
    {
        match self {
            Self::Stationary => (0, 0),
            Self::Up => (0, -1),
            Self::Down => (0, 1),
            Self::Left => (-1, 0),
            Self::Right => (1, 0),
        }
    }

    /// The direction a quarter turn counter-clockwise of `self`.
    pub open spec fn spec_rotate_left(&self) -> MoveComponent {
        match self {
            Self::Stationary => Self::Stationary,
            Self::Up => Self::Left,
            Self::Left => Self::Down,
            Self::Down => Self::Right,
            Self::Right => Self::Up,
        }
    }

    #[verifier::when_used_as_spec(spec_rotate_left)]
    pub fn rotate_left(&self) -> (m: MoveComponent)
        ensures
            m == self.spec_rotate_left(),
    {
        match self {
            Self::Stationary => Self::Stationary,
            Self::Up => Self::Left,
            Self::Left => Self::Down,
            Self::Down => Self::Right,
            Self::Right => Self::Up,
        }
    }

    /// The direction a quarter turn clockwise of `self`.
    pub open spec fn spec_rotate_right(&self) -> MoveComponent {
        match self {
            Self::Stationary => Self::Stationary,
            Self::Up => Self::Right,
            Self::Right => Self::Down,
            Self::Down => Self::Left,
            Self::Left => Self::Up,
        }
    }

    #[verifier::when_used_as_spec(spec_rotate_right)]
    pub fn rotate_right(&self) -> (m: MoveComponent)
        ensures
            m == self.spec_rotate_right(),
    {
        match self {
            Self::Stationary => Self::Stationary,
            Self::Up => Self::Right,
            Self::Right => Self::Down,
            Self::Down => Self::Left,
            Self::Left => Self::Up,
        }
    }
}

} // verus!
