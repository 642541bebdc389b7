//! The state of a bug: a patch of ground that flashes now and then.

use vstd::prelude::*;

verus! {

#[derive(Clone, Copy, Debug, PartialEq, Eq, Structural)]
pub struct BugState {
    pub update_cycle: u8,
    pub animation_cycle: u8,
}

impl BugState {
    pub fn new() -> (b: Self)
        ensures
            b == (BugState { update_cycle: 0, animation_cycle: 0 }),
    {
        Self { update_cycle: 0, animation_cycle: 0 }
    }

    /// A bug has nothing to do from one cycle to the next.
    pub fn update(&mut self)
        ensures
            *final(self) == *old(self),
    {
    }
}

} // verus!
