//! The side the player looks at.

use vstd::prelude::*;

verus! {

#[derive(Clone, Copy, Debug, PartialEq, Eq, Structural)]
pub enum DirectionComponent {
    Left,
    Right,
}

impl DirectionComponent {
    /// Whether the sprite has to be mirrored: it is drawn looking right.
    pub open spec fn spec_as_bool(&self) -> bool {
        *self == Self::Left
    }

    #[verifier::when_used_as_spec(spec_as_bool)]
    pub fn as_bool(&self) -> (b: bool)
        ensures
            b == (*self == Self::Left),
    {
        matches!(self, Self::Left)
    }
}

} // verus!
