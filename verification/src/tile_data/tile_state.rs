//! How a cell reacts to the player and to blasts.

use vstd::prelude::*;

verus! {

/// The gameplay-facing classification of a tile. It starts out as a function
/// of the category and is then overridden by physics: a falling rock is
/// `Dangerous`, the same rock at rest is `Moveable`.
#[derive(Clone, Copy, PartialEq, Eq, Structural, Debug)]
pub enum TileState {
    /// The player consumes it by moving onto it.
    Eatable,
    /// The player may push it sideways.
    Moveable,
    /// Touching it destroys the player.
    Dangerous,
    /// The player may pass through it, subject to its orientation.
    Tunnelable,
    /// Blocks movement; a blast removes it.
    Destructible,
    /// Blocks movement; a blast leaves it alone.
    Indestructible,
}

impl Default for TileState {
    fn default() -> (s: Self)
        ensures
            s == TileState::Indestructible,
    {
        TileState::Indestructible
    }
}

} // verus!
