//! Integer grid coordinates and the flat, row-major tile storage.

use vstd::prelude::*;
use crate::tile_data::tile::Tile;
use crate::tile_data::tile_move::TileMove;
use crate::tile_data::tile_state::TileState;
use crate::tile_data::tile_type::TileType;

verus! {

/// A cell position: column `x`, row `y`, rows growing downwards.
#[derive(Clone, Copy, Debug, PartialEq, Eq, Structural)]
pub struct Coord {
    pub x: i16,
    pub y: i16,
}

/// Anything that can be read as a coordinate or as a displacement.
pub trait ToCoord {
    spec fn spec_to_coord(&self) -> Coord;

    fn to_coord(&self) -> (c: Coord)
        ensures
            c == self.spec_to_coord(),
    ;
}

impl ToCoord for (i16, i16) {
    open spec fn spec_to_coord(&self) -> Coord {
        Coord { x: self.0, y: self.1 }
    }

    fn to_coord(&self) -> (c: Coord) {
        Coord { x: self.0, y: self.1 }
    }
}

impl Coord {
    pub open spec fn spec_new(x: i16, y: i16) -> Self {
        Coord { x, y }
    }

    #[verifier::when_used_as_spec(spec_new)]
    pub fn new(x: i16, y: i16) -> (c: Self)
        ensures
            c == (Coord { x, y }),
    {
        Self { x, y }
    }

    /// Whether adding `d` component-wise stays within the `i16` range.
    pub open spec fn can_offset(&self, d: Coord) -> bool {
        &&& i16::MIN <= self.x + d.x <= i16::MAX
        &&& i16::MIN <= self.y + d.y <= i16::MAX
    }

    /// The component-wise sum of `self` and `d`.
    pub open spec fn plus(&self, d: Coord) -> Coord {
        Coord { x: (self.x + d.x) as i16, y: (self.y + d.y) as i16 }
    }

    /// Whether each of the eight neighbours of this position can be named.
    pub open spec fn is_inner(&self) -> bool {
        &&& i16::MIN < self.x < i16::MAX
        &&& i16::MIN < self.y < i16::MAX
    }

    /// The position one cell away in direction `dir`.
    pub open spec fn step(&self, dir: TileMove) -> Coord {
        self.plus(dir.spec_to_coord())
    }

    pub fn offset(&self, rhs: &impl ToCoord) -> (c: Self)
        requires
            self.can_offset(rhs.spec_to_coord()),
        ensures
            c == self.plus(rhs.spec_to_coord()),
    {
        let offset = rhs.to_coord();
        Self { x: self.x + offset.x, y: self.y + offset.y }
    }
}

/// Timer units in the width of a cell: a move by one cell takes
/// `MOVE_TIME`, so a tile that has `t` units left to go is `t` sub-cell units
/// short of its cell.
pub const CELL: i64 = 1000;

/// A position in thousandths of a cell, for drawing a tile on its way
/// between two cells.
#[derive(Clone, Copy, Debug, PartialEq, Eq, Structural)]
pub struct FCoord {
    pub x: i64,
    pub y: i64,
}

/// The part of a timer that is still to run.
pub open spec fn time_left(tile: Tile) -> int {
    if tile.upd > 0 {
        tile.upd as int
    } else {
        0
    }
}

/// How far to the right of its cell a tile on the move still is.
pub open spec fn lag_x(tile: Tile) -> int {
    match tile.mov {
        TileMove::Right => -time_left(tile),
        TileMove::Left => time_left(tile),
        _ => 0,
    }
}

/// How far below its cell a tile on the move still is.
pub open spec fn lag_y(tile: Tile) -> int {
    match tile.mov {
        TileMove::Down => -time_left(tile),
        TileMove::Up => time_left(tile),
        _ => 0,
    }
}

impl Coord {
    /// Where a tile in this cell is drawn: short of the cell by what is
    /// left of its move, on the side it comes from.
    pub open spec fn spec_to_fcoord(self, tile: &Tile) -> FCoord {
        FCoord {
            x: (self.x * CELL + lag_x(*tile)) as i64,
            y: (self.y * CELL + lag_y(*tile)) as i64,
        }
    }

    #[verifier::when_used_as_spec(spec_to_fcoord)]
    pub fn to_fcoord(self, tile: &Tile) -> (f: FCoord)
        ensures
            f == self.spec_to_fcoord(tile),
            f.x == self.x * CELL + lag_x(*tile),
            f.y == self.y * CELL + lag_y(*tile),
    {
        self.as_fcoord().offset_time(tile)
    }

    /// The position of the cell itself.
    pub open spec fn spec_as_fcoord(&self) -> FCoord {
        FCoord { x: (self.x * CELL) as i64, y: (self.y * CELL) as i64 }
    }

    #[verifier::when_used_as_spec(spec_as_fcoord)]
    pub fn as_fcoord(&self) -> (f: FCoord)
        ensures
            f == self.spec_as_fcoord(),
            f.x == self.x * CELL,
            f.y == self.y * CELL,
    {
        FCoord::new(self.x as i64 * CELL, self.y as i64 * CELL)
    }
}

impl FCoord {
    pub open spec fn spec_new(x: i64, y: i64) -> Self {
        FCoord { x, y }
    }

    #[verifier::when_used_as_spec(spec_new)]
    pub fn new(x: i64, y: i64) -> (f: Self)
        ensures
            f == (FCoord { x, y }),
    {
        Self { x, y }
    }

    /// Whether `self` moved by `dx` and `dy` is still a position.
    pub open spec fn can_shift(&self, dx: int, dy: int) -> bool {
        &&& i64::MIN <= self.x + dx <= i64::MAX
        &&& i64::MIN <= self.y + dy <= i64::MAX
    }

    /// `self` moved by `dx` and `dy`.
    pub open spec fn shifted(&self, dx: int, dy: int) -> FCoord {
        FCoord { x: (self.x + dx) as i64, y: (self.y + dy) as i64 }
    }

    /// The position at which to draw `tile` when `self` is the position of
    /// its cell. A tile on the move is drawn short of its cell by what is
    /// left on its timer, so that it arrives as the timer runs out; a timer
    /// that has run out no longer displaces it.
    pub fn offset_time(&self, tile: &Tile) -> (f: FCoord)
        requires
            self.can_shift(lag_x(*tile), lag_y(*tile)),
        ensures
            f == self.shifted(lag_x(*tile), lag_y(*tile)),
    {
        let upd: i64 = if tile.upd > 0 {
            tile.upd as i64
        } else {
            0
        };
        match tile.mov {
            TileMove::Up => FCoord::new(self.x, self.y + upd),
            TileMove::Right => FCoord::new(self.x - upd, self.y),
            TileMove::Down => FCoord::new(self.x, self.y - upd),
            TileMove::Left => FCoord::new(self.x + upd, self.y),
            TileMove::Stationary => FCoord::new(self.x, self.y),
        }
    }

    /// `self` moved by as many whole cells as `rhs` says.
    pub fn offset(&self, rhs: &impl ToCoord) -> (f: Self)
        requires
            self.can_shift(rhs.spec_to_coord().x * CELL, rhs.spec_to_coord().y * CELL),
        ensures
            f == self.shifted(rhs.spec_to_coord().x * CELL, rhs.spec_to_coord().y * CELL),
    {
        let offset = rhs.to_coord();
        Self { x: self.x + offset.x as i64 * CELL, y: self.y + offset.y as i64 * CELL }
    }
}

/// The grid as a mathematical object: its dimensions and the tile of every
/// cell.
pub struct GridView {
    pub width: int,
    pub height: int,
    pub cells: Map<Coord, Tile>,
}

impl GridView {
    /// Whether `c` names a cell of the grid.
    pub open spec fn has(&self, c: Coord) -> bool {
        0 <= c.x < self.width && 0 <= c.y < self.height
    }

    /// The tile read at `c`: the cell's tile, or the border tile where the
    /// grid has no such cell.
    pub open spec fn at(&self, c: Coord) -> Tile {
        if self.has(c) {
            self.cells[c]
        } else {
            Tile::border()
        }
    }

    /// The grid after `tile` is written to `c`. Writing past the edge changes
    /// nothing.
    pub open spec fn put(&self, c: Coord, tile: Tile) -> GridView {
        if self.has(c) {
            GridView { cells: self.cells.insert(c, tile), ..*self }
        } else {
            *self
        }
    }

    /// The grid has a tile for each of its cells and for nothing else.
    pub open spec fn wf(&self) -> bool {
        &&& 0 <= self.width <= i16::MAX
        &&& 0 <= self.height <= i16::MAX
        &&& self.cells.dom() =~= Set::new(|c: Coord| self.has(c))
    }
}

/// Beyond the edge of the grid everything reads as one and the same tile,
/// whatever the size of the grid: indestructible, hence neither dangerous
/// nor eatable, of a category that nothing acts on, at rest and with its
/// timer run out.
pub proof fn lemma_border(g: GridView, c: Coord)
    requires
        !g.has(c),
    ensures
        g.at(c) == Tile::border(),
        g.at(c).state == TileState::Indestructible,
        g.at(c).state != TileState::Dangerous,
        g.at(c).state != TileState::Eatable,
        g.at(c).typ == TileType::Void,
        g.at(c).upd == 0,
        forall|tile: Tile| g.put(c, tile) == g,
{
}

/// Writing to a cell changes what is read there and nowhere else.
pub proof fn lemma_put(g: GridView, c: Coord, tile: Tile, d: Coord)
    ensures
        g.put(c, tile).has(d) == g.has(d),
        g.put(c, tile).at(d) == if d == c && g.has(c) {
            tile
        } else {
            g.at(d)
        },
        g.wf() ==> g.put(c, tile).wf(),
{
    if g.wf() && g.has(c) {
        assert(g.put(c, tile).cells.dom() =~= g.cells.dom());
    }
}

/// Row-major storage of the tiles of a `width` by `height` grid: the cell in
/// column `x` of row `y` is `array[x + y * width]`.
pub struct Grid {
    pub width: i16,
    pub height: i16,
    pub array: Vec<Tile>,
}

impl Clone for Grid {
    /// A copy of the grid, tile by tile.
    fn clone(&self) -> (g: Self)
        ensures
            g.width == self.width,
            g.height == self.height,
            g.array@ == self.array@,
            g@ == self@,
    {
        let mut array: Vec<Tile> = Vec::new();
        let mut i: usize = 0;
        while i < self.array.len()
            invariant
                i <= self.array@.len(),
                array@ == self.array@.take(i as int),
            decreases self.array@.len() - i,
        {
            array.push(self.array[i]);
            proof {
                assert(array@ =~= self.array@.take(i + 1));
            }
            i += 1;
        }
        proof {
            assert(self.array@.take(i as int) =~= self.array@);
        }
        Grid { width: self.width, height: self.height, array }
    }
}

impl View for Grid {
    type V = GridView;

    open spec fn view(&self) -> GridView {
        GridView {
            width: self.width as int,
            height: self.height as int,
            cells: Map::new(
                |c: Coord| 0 <= c.x < self.width && 0 <= c.y < self.height,
                |c: Coord| self.array@[c.x + c.y * self.width],
            ),
        }
    }
}

/// Position in row-major order of the cell in column `x` of row `y`, in a
/// grid `w` cells wide and `h` cells high.
proof fn lemma_index_in_range(w: int, h: int, x: int, y: int)
    requires
        0 <= x < w,
        0 <= y < h,
    ensures
        0 <= x + y * w < w * h,
        y * w <= (h - 1) * w,
{
    assert(y * w <= (h - 1) * w) by (nonlinear_arith)
        requires
            0 <= y <= h - 1,
            0 <= w,
    ;
    assert((h - 1) * w == h * w - w) by (nonlinear_arith);
    assert(0 <= y * w) by (nonlinear_arith)
        requires
            0 <= y,
            0 <= w,
    ;
    assert(w * h == h * w) by (nonlinear_arith);
}

/// Two cells with the same position in row-major order are the same cell.
pub proof fn lemma_index_injective(w: int, x1: int, y1: int, x2: int, y2: int)
    requires
        0 <= x1 < w,
        0 <= x2 < w,
        x1 + y1 * w == x2 + y2 * w,
    ensures
        x1 == x2,
        y1 == y2,
{
    if y1 < y2 {
        assert((y2 - y1) * w >= w) by (nonlinear_arith)
            requires
                y2 - y1 >= 1,
                w > 0,
        ;
        assert((y2 - y1) * w == y2 * w - y1 * w) by (nonlinear_arith);
    } else if y2 < y1 {
        assert((y1 - y2) * w >= w) by (nonlinear_arith)
            requires
                y1 - y2 >= 1,
                w > 0,
        ;
        assert((y1 - y2) * w == y1 * w - y2 * w) by (nonlinear_arith);
    }
}

impl Grid {
    /// The storage holds exactly one tile per cell.
    pub open spec fn wf(&self) -> bool {
        &&& 0 <= self.width
        &&& 0 <= self.height
        &&& self.array@.len() == self.width * self.height
    }

    /// Position of cell `c` in the storage.
    pub open spec fn index_of(&self, c: Coord) -> int {
        c.x + c.y * self.width
    }

    /// A well-formed grid has a well-formed view, and reads each cell from
    /// its place in the storage.
    pub proof fn lemma_view(&self)
        requires
            self.wf(),
        ensures
            self@.wf(),
            forall|c: Coord| #[trigger]
                self@.has(c) ==> 0 <= self.index_of(c) < self.array@.len() && self@.at(c)
                    == self.array@[self.index_of(c)],
    {
        assert forall|c: Coord| #[trigger] self@.has(c) implies 0 <= self.index_of(c)
            < self.array@.len() && self@.at(c) == self.array@[self.index_of(c)] by {
            lemma_index_in_range(
                self.width as int,
                self.height as int,
                c.x as int,
                c.y as int,
            );
        }
    }

    /// Builds the grid of a level from the level-file code of each cell, row
    /// by row.
    pub fn new(width: i16, height: i16, array: Vec<u8>) -> (g: Self)
        requires
            0 <= width,
            0 <= height,
            array@.len() == width * height,
        ensures
            g.wf(),
            g.width == width,
            g.height == height,
            forall|c: Coord| #[trigger]
                g@.has(c) ==> 0 <= c.x + c.y * width < array@.len() && g@.at(c)
                    == TileType::from_u8(array@[c.x + c.y * width]).to_tile(),
    {
        let mut tiles: Vec<Tile> = Vec::new();
        let mut i: usize = 0;
        while i < array.len()
            invariant
                0 <= i <= array@.len(),
                tiles@.len() == i,
                forall|j: int|
                    0 <= j < i ==> #[trigger] tiles@[j] == TileType::from_u8(array@[j]).to_tile(),
            decreases array@.len() - i,
        {
            tiles.push(TileType::to_tile(TileType::from_u8(array[i])));
            i += 1;
        }
        let g = Self { width, height, array: tiles };
        proof {
            g.lemma_view();
        }
        g
    }

    /// Storage index of `coord`, if the grid has such a cell.
    fn slot(&self, coord: &Coord) -> (r: Option<usize>)
        requires
            self.wf(),
        ensures
            r is Some <==> self@.has(*coord),
            r matches Some(i) ==> i == self.index_of(*coord) && i < self.array@.len(),
    {
        if 0 <= coord.x && coord.x < self.width && 0 <= coord.y && coord.y < self.height {
            proof {
                lemma_index_in_range(
                    self.width as int,
                    self.height as int,
                    coord.x as int,
                    coord.y as int,
                );
                assert((self.height - 1) * self.width <= 32767 * 32767) by (nonlinear_arith)
                    requires
                        0 <= self.height - 1 <= 32767,
                        0 <= self.width <= 32767,
                ;
            }
            Some(coord.y as usize * self.width as usize + coord.x as usize)
        } else {
            None
        }
    }

    /// Reads the tile at `coord`. Reading past the edge gives the border
    /// tile.
    pub fn get(&self, coord: &Coord) -> (tile: Tile)
        requires
            self.wf(),
        ensures
            tile == self@.at(*coord),
    {
        match self.slot(coord) {
            Some(i) => self.array[i],
            None => Tile::default(),
        }
    }

    /// Hands out the tile at `coord` for changing it in place, if the grid has
    /// such a cell. Whatever the caller leaves in the tile is then the cell's
    /// tile.
    pub fn get_mut(&mut self, coord: &Coord) -> (r: Option<&mut Tile>)
        requires
            old(self).wf(),
        ensures
            r is Some <==> old(self)@.has(*coord),
            r matches Some(t) ==> *t == old(self)@.at(*coord) && final(self).wf() && final(self)@
                == old(self)@.put(*coord, *final(t)),
            r is None ==> *final(self) == *old(self),
    {
        match self.slot(coord) {
            Some(i) => {
                proof {
                    self.lemma_view();
                }
                Some(self.tile_mut(i, Ghost(*coord)))
            },
            None => None,
        }
    }

    /// Hands out the tile at `coord` for changing it in place.
    pub fn get_mut_unchecked(&mut self, coord: &Coord) -> (t: &mut Tile)
        requires
            old(self).wf(),
            old(self)@.has(*coord),
        ensures
            *t == old(self)@.at(*coord),
            final(self).wf(),
            final(self)@ == old(self)@.put(*coord, *final(t)),
    {
        proof {
            self.lemma_view();
            lemma_index_in_range(
                self.width as int,
                self.height as int,
                coord.x as int,
                coord.y as int,
            );
            assert((self.height - 1) * self.width <= 32767 * 32767) by (nonlinear_arith)
                requires
                    0 <= self.height - 1 <= 32767,
                    0 <= self.width <= 32767,
            ;
        }
        let i = coord.y as usize * self.width as usize + coord.x as usize;
        self.tile_mut(i, Ghost(*coord))
    }

    /// The tile in storage slot `i`, which is the slot of cell `c`.
    fn tile_mut(&mut self, i: usize, Ghost(c): Ghost<Coord>) -> (t: &mut Tile)
        requires
            old(self).wf(),
            old(self)@.has(c),
            i == old(self).index_of(c),
            i < old(self).array@.len(),
        ensures
            *t == old(self).array@[i as int],
            final(self).wf(),
            final(self)@ == old(self)@.put(c, *final(t)),
    {
        proof {
            let before = *self;
            assert forall|after: Grid, tile: Tile|
                after.width == before.width && after.height == before.height && after.array@
                    == #[trigger] before.array@.update(i as int, tile) implies #[trigger] after@
                == before@.put(c, tile) by {
                after.lemma_put(before, c, tile);
            }
        }
        &mut self.array[i]
    }

    /// Writes `tile` to the cell at `coord`. Writing past the edge does
    /// nothing.
    pub fn set(&mut self, coord: &Coord, tile: Tile)
        requires
            old(self).wf(),
        ensures
            final(self).wf(),
            final(self).width == old(self).width,
            final(self).height == old(self).height,
            final(self)@ == old(self)@.put(*coord, tile),
    {
        match self.slot(coord) {
            Some(i) => {
                self.array.set(i, tile);
                proof {
                    self.lemma_put(*old(self), *coord, tile);
                }
            },
            None => {},
        }
    }

    /// Overwriting the storage slot of a cell is writing to that cell.
    proof fn lemma_put(&self, before: Grid, c: Coord, tile: Tile)
        requires
            before.wf(),
            before@.has(c),
            self.width == before.width,
            self.height == before.height,
            0 <= before.index_of(c) < before.array@.len(),
            self.array@ == before.array@.update(before.index_of(c), tile),
        ensures
            self@ == before@.put(c, tile),
    {
        lemma_index_in_range(self.width as int, self.height as int, c.x as int, c.y as int);
        let after = before@.put(c, tile);
        assert forall|d: Coord| after.cells.dom().contains(d) implies #[trigger] self@.cells[d]
            == after.cells[d] by {
            lemma_index_in_range(self.width as int, self.height as int, d.x as int, d.y as int);
            if d != c && self.index_of(d) == self.index_of(c) {
                lemma_index_injective(
                    self.width as int,
                    d.x as int,
                    d.y as int,
                    c.x as int,
                    c.y as int,
                );
            }
        }
        assert(self@.cells.dom() =~= after.cells.dom());
        assert(self@.cells =~= before@.put(c, tile).cells);
    }
}

} // verus!
