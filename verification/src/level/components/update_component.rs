//! The clock of a tile in the tick-counting model.

use vstd::prelude::*;

verus! {

/// Update cycles still to wait. The second count runs down first, the first
/// count after it: a move sets the first, a turn on the spot the second.
#[derive(Clone, Copy, Debug, PartialEq, Eq, Structural)]
pub struct UpdateComponent(pub u8, pub u8);

impl Default for UpdateComponent {
    fn default() -> (u: Self)
        ensures
            u == UpdateComponent(0, 0),
    {
        UpdateComponent(0, 0)
    }
}

impl UpdateComponent {
    /// The clock one update cycle later.
    pub open spec fn next(&self) -> UpdateComponent {
        if self.1 != 0 {
            UpdateComponent(self.0, (self.1 - 1) as u8)
        } else if self.0 != 0 {
            UpdateComponent((self.0 - 1) as u8, 0)
        } else {
            *self
        }
    }

    pub fn next_cycle(&mut self)
        ensures
            *final(self) == old(self).next(),
    {
        if self.1 != 0 {
            self.1 -= 1;
        } else if self.0 != 0 {
            self.0 -= 1;
        }
    }
}

} // verus!
