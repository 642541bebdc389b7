//! The grid of the tick-counting model, and positions in it.

use vstd::prelude::*;
use crate::tile::Tile;

verus! {

/// A position: column and row.
pub type Pos = (usize, usize);

/// `x` moved by `d`. A move that leaves the range of positions leads to the
/// largest position there is, which no grid has.
pub open spec fn shifted(x: usize, d: i16) -> usize {
    if 0 <= x + d <= usize::MAX {
        (x + d) as usize
    } else {
        usize::MAX
    }
}

/// The position `by` away from `at`.
pub open spec fn spec_trans(at: Pos, by: (i16, i16)) -> Pos {
    (shifted(at.0, by.0), shifted(at.1, by.1))
}

/// Moves `x` by `d`.
fn shift(x: usize, d: i16) -> (r: usize)
    ensures
        r == shifted(x, d),
{
    if d >= 0 {
        let up = d as usize;
        if up > usize::MAX - x {
            usize::MAX
        } else {
            x + up
        }
    } else {
        let down = (-(d as i32)) as usize;
        if down > x {
            usize::MAX
        } else {
            x - down
        }
    }
}

/// The position `by` away from `at`.
#[verifier::when_used_as_spec(spec_trans)]
pub fn trans(at: Pos, by: (i16, i16)) -> (p: Pos)
    ensures
        p == spec_trans(at, by),
{
    (shift(at.0, by.0), shift(at.1, by.1))
}

/// Tiles in rows of `cols`, row by row.
#[derive(Debug)]
pub struct Cells {
    pub cols: usize,
    pub tiles: Vec<Tile>,
}

impl Clone for Cells {
    /// A copy of the grid, tile by tile.
    fn clone(&self) -> (g: Self)
        ensures
            g.cols == self.cols,
            g.tiles@ == self.tiles@,
    {
        let mut tiles: Vec<Tile> = Vec::new();
        let mut i: usize = 0;
        while i < self.tiles.len()
            invariant
                i <= self.tiles@.len(),
                tiles@ == self.tiles@.take(i as int),
            decreases self.tiles@.len() - i,
        {
            tiles.push(self.tiles[i]);
            proof {
                assert(tiles@ =~= self.tiles@.take(i + 1));
            }
            i += 1;
        }
        proof {
            assert(self.tiles@.take(i as int) =~= self.tiles@);
        }
        Cells { cols: self.cols, tiles }
    }
}

impl Cells {
    /// The number of whole rows.
    pub open spec fn rows(&self) -> int {
        if self.cols > 0 {
            self.tiles@.len() as int / self.cols as int
        } else {
            0
        }
    }

    /// The tile at `at`, or nothing where the grid has no such cell.
    pub open spec fn at(&self, at: Pos) -> Tile {
        if at.0 < self.cols && at.1 < self.rows() {
            self.tiles@[at.0 + at.1 * self.cols]
        } else {
            Tile::Void
        }
    }

    /// A grid of `size.0` by `size.1` cells that all hold `tile`; an empty
    /// grid if that is more cells than can be counted.
    pub fn new(size: (usize, usize), tile: Tile) -> (g: Self)
        ensures
            g.cols == size.0,
            size.0 * size.1 <= usize::MAX ==> g.tiles@ == Seq::new(
                (size.0 * size.1) as nat,
                |i: int| tile,
            ),
            size.0 * size.1 > usize::MAX ==> g.tiles@.len() == 0,
    {
        let mut tiles: Vec<Tile> = Vec::new();
        match size.0.checked_mul(size.1) {
            Some(count) => {
                let mut i: usize = 0;
                while i < count
                    invariant
                        i <= count,
                        tiles@ == Seq::new(i as nat, |j: int| tile),
                    decreases count - i,
                {
                    tiles.push(tile);
                    proof {
                        assert(tiles@ =~= Seq::new((i + 1) as nat, |j: int| tile));
                    }
                    i += 1;
                }
            },
            None => {},
        }
        Self { cols: size.0, tiles }
    }

    /// A grid with `cols` cells in a row that holds `tiles`, row by row.
    pub fn new_from(cols: usize, tiles: Vec<Tile>) -> (g: Self)
        ensures
            g.cols == cols,
            g.tiles == tiles,
    {
        Self { cols, tiles }
    }

    /// Reads the tile at `at`.
    pub fn get_tuple(&self, at: Pos) -> (tile: Tile)
        ensures
            tile == self.at(at),
    {
        if self.cols == 0 || at.0 >= self.cols {
            return Tile::Void;
        }
        let rows = self.tiles.len() / self.cols;
        if at.1 >= rows {
            return Tile::Void;
        }
        proof {
            let r = self.rows();
            vstd::arithmetic::div_mod::lemma_fundamental_div_mod(
                self.tiles@.len() as int,
                self.cols as int,
            );
            assert(at.1 * self.cols <= (r - 1) * self.cols) by (nonlinear_arith)
                requires
                    0 <= at.1 <= r - 1,
                    self.cols >= 0,
            ;
            assert((r - 1) * self.cols + self.cols == self.cols * r) by (nonlinear_arith);
        }
        self.tiles[at.1 * self.cols + at.0]
    }

    /// Reads the tile `by` away from `at`.
    pub fn get_trans(&self, at: Pos, by: (i16, i16)) -> (tile: Tile)
        ensures
            tile == self.at(trans(at, by)),
    {
        self.get_tuple(trans(at, by))
    }
}

} // verus!
