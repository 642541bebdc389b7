//! The player of the plainest model: a position of its own, outside the
//! grid, and a clock that counts the time of a move down.

use vstd::prelude::*;
use crate::entity::Entity;
use crate::gravity::{entity_at, Update};
use crate::tiles::Tile;
use crate::world::{axis_reading, Axis, FrameInput};

verus! {

/// The side the player looks at.
#[derive(Clone, Copy, Debug, PartialEq, Eq, Structural)]
pub enum AnimationDirection {
    Left,
    Right,
}

/// Time of a move by one cell, in nanoseconds.
pub const UPDATE_TIME: u64 = 250_000_000;

/// Largest column or row that the player can be in.
pub const REACH: usize = 126;

#[derive(Clone, Copy, Debug)]
pub struct Murphy {
    pub position: (usize, usize),
    pub prev_position: (usize, usize),
    pub eating_tile: Tile,
    pub preffered_axis: Axis,
    pub animation_direction: AnimationDirection,
    /// What is left of the time of the move in progress, in nanoseconds.
    pub time_since_last_update: u64,
}

/// The axis preferred after the keys of `input` have been read: a key
/// pressed in this frame decides, a sideways one before a vertical one.
pub open spec fn preferred(axis: Axis, input: FrameInput) -> Axis {
    if input.right_pressed || input.left_pressed {
        Axis::Horizontal
    } else if input.down_pressed || input.up_pressed {
        Axis::Vertical
    } else {
        axis
    }
}

/// Whether the player may step into column `x`, row `y`: what is there can
/// be eaten. Nothing outside the grid can.
pub open spec fn is_open(grid: &Vec<Vec<Entity>>, x: int, y: int) -> bool {
    entity_at(grid, x, y).is_eatable
}

/// The step that the player at `pos` takes when the axes read `x` and `y`:
/// along the preferred axis if a key is held there and the cell is open,
/// else along the other axis on the same condition, else none.
pub open spec fn chosen_step(
    grid: &Vec<Vec<Entity>>,
    pos: (usize, usize),
    axis: Axis,
    x: int,
    y: int,
) -> (int, int) {
    let sideways = x != 0 && is_open(grid, pos.0 + x, pos.1 as int);
    let vertical = y != 0 && is_open(grid, pos.0 as int, pos.1 + y);
    match axis {
        Axis::Horizontal => if sideways {
            (x, 0int)
        } else if vertical {
            (0int, y)
        } else {
            (0int, 0int)
        },
        Axis::Vertical => if vertical {
            (0int, y)
        } else if sideways {
            (x, 0int)
        } else {
            (0int, 0int)
        },
    }
}

/// The player after a frame with input `input`. While the clock runs, it
/// runs down by the time of the frame and nothing else happens. Once it
/// has run out, the player takes the step that `chosen_step` gives if a
/// key is held, and the clock is set to the time of a move, whether or not
/// the step leads anywhere.
pub open spec fn stepped(m: Murphy, grid: &Vec<Vec<Entity>>, input: FrameInput) -> Murphy {
    let axis = preferred(m.preffered_axis, input);
    let x = axis_reading(input.right_down, input.left_down);
    let y = axis_reading(input.down_down, input.up_down);
    if m.time_since_last_update > 0 {
        Murphy {
            preffered_axis: axis,
            time_since_last_update: if m.time_since_last_update > input.frame_time {
                (m.time_since_last_update - input.frame_time) as u64
            } else {
                0
            },
            ..m
        }
    } else if x == 0 && y == 0 {
        Murphy { preffered_axis: axis, prev_position: m.position, ..m }
    } else {
        let step = chosen_step(grid, m.position, axis, x, y);
        let position = ((m.position.0 + step.0) as usize, (m.position.1 + step.1) as usize);
        Murphy {
            position,
            prev_position: m.position,
            eating_tile: if step == (0int, 0int) {
                m.eating_tile
            } else {
                entity_at(grid, position.0 as int, position.1 as int).tile
            },
            preffered_axis: axis,
            animation_direction: if step.0 == 1 {
                AnimationDirection::Right
            } else if step.0 == -1 {
                AnimationDirection::Left
            } else {
                m.animation_direction
            },
            time_since_last_update: UPDATE_TIME,
        }
    }
}

/// The updates that the step from `before` to `after` asks for: the player
/// where it is now, and empty space where it was.
pub open spec fn step_updates(before: Murphy, after: Murphy) -> Seq<Update> {
    if before.time_since_last_update == 0 && after.position != before.position {
        seq![
            (after.position.0, after.position.1, Entity::from_tile(Tile::Murphy)),
            (before.position.0, before.position.1, Entity::from_tile(Tile::Empty)),
        ]
    } else {
        Seq::empty()
    }
}

/// Reads `grid` at column `x`, row `y`, where `x` and `y` may lie one step
/// outside.
fn open_at(grid: &Vec<Vec<Entity>>, x: usize, dx: i8, y: usize, dy: i8) -> (r: bool)
    requires
        x <= REACH,
        y <= REACH,
        -1 <= dx <= 1,
        -1 <= dy <= 1,
    ensures
        r == is_open(grid, x + dx, y + dy),
{
    if (x == 0 && dx < 0) || (y == 0 && dy < 0) {
        return false;
    }
    let tx: usize = if dx < 0 {
        x - 1
    } else if dx > 0 {
        x + 1
    } else {
        x
    };
    let ty: usize = if dy < 0 {
        y - 1
    } else if dy > 0 {
        y + 1
    } else {
        y
    };
    if tx < grid.len() {
        if ty < grid[tx].len() {
            return grid[tx][ty].is_eatable;
        }
    }
    false
}

/// Reads the tile of `grid` at column `x`, row `y`.
fn tile_at(grid: &Vec<Vec<Entity>>, x: usize, y: usize) -> (t: Tile)
    ensures
        t == entity_at(grid, x as int, y as int).tile,
{
    if x < grid.len() {
        if y < grid[x].len() {
            return grid[x][y].tile;
        }
    }
    Tile::Void
}

impl Murphy {
    pub fn new(x: usize, y: usize) -> (m: Self)
        ensures
            m == (Murphy {
                position: (x, y),
                prev_position: (x, y),
                eating_tile: Tile::Empty,
                preffered_axis: Axis::Horizontal,
                animation_direction: AnimationDirection::Right,
                time_since_last_update: 0,
            }),
    {
        Self {
            position: (x, y),
            prev_position: (x, y),
            eating_tile: Tile::Empty,
            preffered_axis: Axis::Horizontal,
            animation_direction: AnimationDirection::Right,
            time_since_last_update: 0,
        }
    }

    /// Takes in one frame, and appends to `updates` what the step taken
    /// asks for.
    pub fn update(&mut self, input: &FrameInput, grid: &Vec<Vec<Entity>>, updates: &mut Vec<Update>)
        requires
            old(self).position.0 <= REACH,
            old(self).position.1 <= REACH,
        ensures
            *final(self) == stepped(*old(self), grid, *input),
            final(updates)@ == old(updates)@ + step_updates(*old(self), *final(self)),
    {
        let x_axis: i8 = (if input.right_down {
            1i8
        } else {
            0i8
        }) - (if input.left_down {
            1i8
        } else {
            0i8
        });
        let y_axis: i8 = (if input.down_down {
            1i8
        } else {
            0i8
        }) - (if input.up_down {
            1i8
        } else {
            0i8
        });
        let ghost before = updates@;

        if input.down_pressed || input.up_pressed {
            self.preffered_axis = Axis::Vertical;
        }
        if input.right_pressed || input.left_pressed {
            self.preffered_axis = Axis::Horizontal;
        }
        if self.time_since_last_update == 0 {
            self.prev_position = self.position;
            if x_axis != 0 || y_axis != 0 {
                self.time_since_last_update = UPDATE_TIME;
                let (px, py) = self.position;
                let sideways = x_axis != 0 && open_at(grid, px, x_axis, py, 0);
                let vertical = y_axis != 0 && open_at(grid, px, 0, py, y_axis);
                let horizontal_first = match self.preffered_axis {
                    Axis::Horizontal => true,
                    Axis::Vertical => false,
                };
                if sideways && (horizontal_first || !vertical) {
                    self.animation_direction = if x_axis == 1 {
                        AnimationDirection::Right
                    } else {
                        AnimationDirection::Left
                    };
                    self.position = (
                        if x_axis == 1 {
                            px + 1
                        } else {
                            px - 1
                        },
                        py,
                    );
                    self.eating_tile = tile_at(grid, self.position.0, self.position.1);
                } else if vertical {
                    self.position = (
                        px,
                        if y_axis == 1 {
                            py + 1
                        } else {
                            py - 1
                        },
                    );
                    self.eating_tile = tile_at(grid, self.position.0, self.position.1);
                }
                if self.position.0 != self.prev_position.0 || self.position.1
                    != self.prev_position.1 {
                    updates.push(
                        (self.position.0, self.position.1, Entity::from_tile(Tile::Murphy)),
                    );
                    updates.push(
                        (
                            self.prev_position.0,
                            self.prev_position.1,
                            Entity::from_tile(Tile::Empty),
                        ),
                    );
                }
            }
        } else {
            self.time_since_last_update = if self.time_since_last_update > input.frame_time {
                self.time_since_last_update - input.frame_time
            } else {
                0
            };
        }
        proof {
            assert(updates@ =~= before + step_updates(*old(self), *self));
        }
    }
}

} // verus!
