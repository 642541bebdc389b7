//! The per-tile clock.
//!
//! A timer counts the time a tile still needs to finish what it is doing, in
//! thousandths of the time a one-cell move takes. While it is positive the
//! tile is busy and its state machine leaves it alone; the same value tells
//! the renderer how far along the animation is. Timers saturate at the ends
//! of the `i32` range instead of wrapping around.

use vstd::prelude::*;

verus! {

pub type TileUpdate = i32;

/// Timer units in the time of a move by one cell.
pub const MOVE_TIME: i32 = 1000;

/// Time of a quarter turn of a patrolling enemy.
pub const TURN_TIME: i32 = 250;

/// An enemy whose timer is positive but no larger than this picks its next
/// facing ahead of time.
pub const LOOKAHEAD_TIME: i32 = 125;

/// Time of a push: the pushed object and the player travel together.
pub const PUSH_TIME: i32 = 2000;

/// Time a blast keeps its cell locked.
pub const EXPLOSION_TIME: i32 = 2500;

/// `v` forced into the range of a timer.
pub open spec fn clamp_timer(v: int) -> int {
    if v < i32::MIN {
        i32::MIN as int
    } else if v > i32::MAX {
        i32::MAX as int
    } else {
        v
    }
}

/// Timer `t` after `time` more units are due.
pub open spec fn timer_plus(t: TileUpdate, time: i32) -> TileUpdate {
    clamp_timer(t + time) as i32
}

/// Timer `t` after `time` units have passed.
pub open spec fn timer_minus(t: TileUpdate, time: i32) -> TileUpdate {
    clamp_timer(t - time) as i32
}

/// Adds `time` to the timer `t`, saturating.
pub fn add_time(t: TileUpdate, time: i32) -> (r: TileUpdate)
    ensures
        r == timer_plus(t, time),
{
    let sum: i64 = t as i64 + time as i64;
    if sum < i32::MIN as i64 {
        i32::MIN
    } else if sum > i32::MAX as i64 {
        i32::MAX
    } else {
        sum as i32
    }
}

pub trait Updateable: Sized {
    /// The clock after `time` has passed.
    spec fn elapsed(&self, time: i32) -> Self;

    /// The clock of a tile at rest.
    spec fn cleared() -> Self;

    /// The clock of a tile that starts a one-cell move now.
    spec fn started(&self) -> Self;

    fn normal_update(&mut self, time: i32)
        ensures
            *final(self) == old(self).elapsed(time),
    ;

    fn dont_update(&mut self)
        ensures
            *final(self) == Self::cleared(),
    ;

    fn move_update(&self) -> (r: Self)
        ensures
            r == self.started(),
    ;
}

impl Updateable for TileUpdate {
    open spec fn elapsed(&self, time: i32) -> Self {
        timer_minus(*self, time)
    }

    open spec fn cleared() -> Self {
        0
    }

    open spec fn started(&self) -> Self {
        timer_plus(*self, MOVE_TIME)
    }

    fn normal_update(&mut self, time: i32) {
        let diff: i64 = *self as i64 - time as i64;
        if diff < i32::MIN as i64 {
            *self = i32::MIN;
        } else if diff > i32::MAX as i64 {
            *self = i32::MAX;
        } else {
            *self = diff as i32;
        }
    }

    fn dont_update(&mut self) {
        *self = 0;
    }

    fn move_update(&self) -> (r: Self) {
        add_time(*self, MOVE_TIME)
    }
}

} // verus!
