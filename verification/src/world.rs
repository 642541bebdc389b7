//! Fixed-step timing and input for the tick-counting model. Real time is
//! collected until it is worth a tick; a frame may bring no tick, or one, or
//! several, and what is left over is kept for the next frame.

use vstd::prelude::*;
use crate::cells::Cells;
use crate::level::components::move_component::MoveComponent;
use crate::tile::Tile;

verus! {

/// The axis of the key pressed last.
#[derive(Clone, Copy, Debug, PartialEq, Eq, Structural)]
pub enum Axis {
    Horizontal,
    Vertical,
}

/// Nanoseconds in a second.
pub const SECOND: u64 = 1_000_000_000;

/// How close to the frame time of a common refresh rate a frame time has to
/// be to count as that, in nanoseconds.
pub const SNAP: u64 = 1_000_000;

/// What the outside world reports for one frame.
#[derive(Clone, Copy, Debug, PartialEq, Eq, Structural)]
pub struct FrameInput {
    /// Real time since the previous frame, in nanoseconds.
    pub frame_time: u64,
    pub left_pressed: bool,
    pub right_pressed: bool,
    pub up_pressed: bool,
    pub down_pressed: bool,
    pub left_down: bool,
    pub right_down: bool,
    pub up_down: bool,
    pub down_down: bool,
    pub special_key: bool,
}

/// What a frame asks for.
#[derive(Debug, PartialEq, Eq)]
pub struct FrameStep {
    /// The directions to offer the player, in order of priority.
    pub movement: Vec<MoveComponent>,
    pub special_key: bool,
    /// How many ticks to run.
    pub ticks: u64,
}

pub struct World {
    pub grid: Cells,
    /// Real time not yet spent on ticks, in nanoseconds.
    pub accumulator: u64,
    pub preffered_axis: Axis,
    /// Ticks per second.
    pub ups: u8,
}

/// The axis preferred after the keys of `input` have been read: a key
/// pressed in this frame decides, a sideways one before a vertical one.
pub open spec fn preferred(axis: Axis, input: FrameInput) -> Axis {
    if input.left_pressed || input.right_pressed {
        Axis::Horizontal
    } else if input.up_pressed || input.down_pressed {
        Axis::Vertical
    } else {
        axis
    }
}

/// Reading of one axis from its two keys: `1` for the key of the positive
/// direction alone, `-1` for the other alone, `0` for both or neither.
pub open spec fn axis_reading(positive: bool, negative: bool) -> int {
    (if positive {
        1int
    } else {
        0int
    }) - (if negative {
        1int
    } else {
        0int
    })
}

/// The directions to offer the player: the held direction on the preferred
/// axis first, then the one on the other axis. With nothing held on the
/// preferred axis nothing is offered.
pub open spec fn movement(axis: Axis, x: int, y: int) -> Seq<MoveComponent> {
    let sideways = if x > 0 {
        MoveComponent::Right
    } else {
        MoveComponent::Left
    };
    let vertical = if y > 0 {
        MoveComponent::Down
    } else {
        MoveComponent::Up
    };
    match axis {
        Axis::Horizontal => if x == 0 {
            Seq::empty()
        } else if y == 0 {
            seq![sideways]
        } else {
            seq![sideways, vertical]
        },
        Axis::Vertical => if y == 0 {
            Seq::empty()
        } else if x == 0 {
            seq![vertical]
        } else {
            seq![vertical, sideways]
        },
    }
}

/// The frame time that `frame_time` counts as: that of 120, 60 or 30
/// frames per second if it is within `SNAP` of it, and itself otherwise.
pub open spec fn snapped(frame_time: u64) -> u64 {
    if is_near(frame_time, SECOND / 120) {
        SECOND / 120
    } else if is_near(frame_time, SECOND / 60) {
        SECOND / 60
    } else if is_near(frame_time, SECOND / 30) {
        SECOND / 30
    } else {
        frame_time
    }
}

/// Whether `a` is less than `SNAP` away from `b`.
pub open spec fn is_near(a: u64, b: u64) -> bool {
    a - b < SNAP && b - a < SNAP
}

/// Nanoseconds in a tick at `ups` ticks per second, the fraction dropped.
pub open spec fn tick_length(ups: u8) -> int
    recommends
        ups > 0,
{
    SECOND as int / ups as int
}

/// The time collected once a frame of `frame_time` has been added to
/// `accumulator`, as far as the range goes.
pub open spec fn collected(accumulator: u64, frame_time: u64) -> int {
    if accumulator + snapped(frame_time) > u64::MAX {
        u64::MAX as int
    } else {
        accumulator + snapped(frame_time)
    }
}

/// A tick takes its time, however many ticks there are to a second.
pub proof fn lemma_tick_length(ups: u8)
    requires
        ups > 0,
    ensures
        tick_length(ups) >= 3_921_568,
{
    vstd::arithmetic::div_mod::lemma_div_is_ordered_by_denominator(
        SECOND as int,
        ups as int,
        255,
    );
    assert(1_000_000_000int / 255 == 3_921_568) by (nonlinear_arith);
}

/// Whether `a` is less than `SNAP` away from `b`.
fn near(a: u64, b: u64) -> (r: bool)
    ensures
        r == is_near(a, b),
{
    if a >= b {
        a - b < SNAP
    } else {
        b - a < SNAP
    }
}

impl World {
    /// An eight by eight grid of base.
    pub fn new() -> (w: Self)
        ensures
            w.grid.cols == 8,
            w.grid.tiles@ == Seq::new(64, |i: int| Tile::Base),
            w.accumulator == 0,
            w.preffered_axis == Axis::Horizontal,
            w.ups == 64,
    {
        Self {
            grid: Cells::new((8, 8), Tile::Base),
            accumulator: 0,
            preffered_axis: Axis::Horizontal,
            ups: 64,
        }
    }

    /// A grid with `cols` cells in a row, of which `grid` gives the codes
    /// row by row.
    pub fn new_from(cols: usize, grid: Vec<u8>) -> (w: Self)
        ensures
            w.grid.cols == cols,
            w.grid.tiles@ == Seq::new(grid@.len(), |i: int| Tile::from_u8(grid@[i])),
            w.accumulator == 0,
            w.preffered_axis == Axis::Horizontal,
            w.ups == 64,
    {
        let mut tiles: Vec<Tile> = Vec::new();
        let mut i: usize = 0;
        while i < grid.len()
            invariant
                i <= grid@.len(),
                tiles@ == Seq::new(i as nat, |j: int| Tile::from_u8(grid@[j])),
            decreases grid@.len() - i,
        {
            tiles.push(Tile::from_u8(grid[i]));
            proof {
                assert(tiles@ =~= Seq::new((i + 1) as nat, |j: int| Tile::from_u8(grid@[j])));
            }
            i += 1;
        }
        Self {
            grid: Cells::new_from(cols, tiles),
            accumulator: 0,
            preffered_axis: Axis::Horizontal,
            ups: 64,
        }
    }

    /// Takes in one frame: reads the keys, adds the time of the frame to
    /// the time collected, and says how many ticks that is worth. The ticks
    /// are paid for out of the time collected; the rest is kept. At zero
    /// ticks per second no tick ever comes due.
    pub fn update(&mut self, input: &FrameInput) -> (step: FrameStep)
        ensures
            final(self).grid == old(self).grid,
            final(self).ups == old(self).ups,
            final(self).preffered_axis == preferred(old(self).preffered_axis, *input),
            step.special_key == input.special_key,
            step.movement@ == movement(
                final(self).preffered_axis,
                axis_reading(input.right_down, input.left_down),
                axis_reading(input.down_down, input.up_down),
            ),
            old(self).ups == 0 ==> step.ticks == 0 && final(self).accumulator == collected(
                old(self).accumulator,
                input.frame_time,
            ),
            old(self).ups > 0 ==> {
                let total = collected(old(self).accumulator, input.frame_time);
                let length = tick_length(old(self).ups);
                &&& step.ticks == total / length
                &&& final(self).accumulator == total % length
                &&& step.ticks * length + final(self).accumulator == total
                &&& final(self).accumulator < length
            },
    {
        if input.left_pressed || input.right_pressed {
            self.preffered_axis = Axis::Horizontal;
        } else if input.up_pressed || input.down_pressed {
            self.preffered_axis = Axis::Vertical;
        }
        let x_axis: i8 = (if input.right_down {
            1i8
        } else {
            0i8
        }) - (if input.left_down {
            1i8
        } else {
            0i8
        });
        let y_axis: i8 = (if input.down_down {
            1i8
        } else {
            0i8
        }) - (if input.up_down {
            1i8
        } else {
            0i8
        });
        let sideways = if x_axis > 0 {
            MoveComponent::Right
        } else {
            MoveComponent::Left
        };
        let vertical = if y_axis > 0 {
            MoveComponent::Down
        } else {
            MoveComponent::Up
        };
        let mut movement_vec: Vec<MoveComponent> = Vec::new();
        match self.preffered_axis {
            Axis::Horizontal => {
                if x_axis != 0 {
                    movement_vec.push(sideways);
                    if y_axis != 0 {
                        movement_vec.push(vertical);
                    }
                }
            },
            Axis::Vertical => {
                if y_axis != 0 {
                    movement_vec.push(vertical);
                    if x_axis != 0 {
                        movement_vec.push(sideways);
                    }
                }
            },
        }
        proof {
            assert(movement_vec@ =~= movement(
                self.preffered_axis,
                axis_reading(input.right_down, input.left_down),
                axis_reading(input.down_down, input.up_down),
            ));
        }
        let delta_time = input.frame_time;
        let fixed_delta_time = if near(delta_time, SECOND / 120) {
            SECOND / 120
        } else if near(delta_time, SECOND / 60) {
            SECOND / 60
        } else if near(delta_time, SECOND / 30) {
            SECOND / 30
        } else {
            delta_time
        };
        let total: u64 = if fixed_delta_time > u64::MAX - self.accumulator {
            u64::MAX
        } else {
            self.accumulator + fixed_delta_time
        };
        let mut ticks: u64 = 0;
        if self.ups == 0 {
            self.accumulator = total;
        } else {
            proof {
                lemma_tick_length(self.ups);
            }
            let length: u64 = SECOND / self.ups as u64;
            ticks = total / length;
            self.accumulator = total % length;
            proof {
                vstd::arithmetic::div_mod::lemma_fundamental_div_mod(total as int, length as int);
                assert(ticks * length == length * ticks) by (nonlinear_arith);
            }
        }
        FrameStep { movement: movement_vec, special_key: input.special_key, ticks }
    }
}

} // verus!
