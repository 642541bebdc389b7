//! The level file: a sequence of fixed-size records, one per level.

use vstd::prelude::*;
use vstd::utf8::{decode_utf8, valid_utf8};
use crate::grid::{Coord, Grid};
use crate::level::{GameState, Level, LevelData, LevelDataView};
use crate::tile_data::tile_type::TileType;

verus! {

/// Levels in a level file.
pub const LEVEL_COUNT: usize = 111;

/// Bytes in the record of one level.
pub const LEVEL_SIZE: usize = 1536;

/// Width of every level, in cells.
pub const LEVEL_WIDTH: i16 = 60;

/// Height of every level, in cells.
pub const LEVEL_HEIGHT: i16 = 24;

/// Bytes at the start of a record that give the cells, row by row.
pub const CELLS_SIZE: usize = 1440;

/// Where in a record the gravity flag stands, and where the name starts.
pub const GRAVITY_AT: usize = 1444;

/// Where in a record the name ends.
pub const NAME_END: usize = 1467;

/// Where in a record the flag for frozen zonks stands.
pub const FROZEN_AT: usize = 1469;

/// Where in a record the number of required infotrons stands.
pub const INFOTRONS_AT: usize = 1470;

/// Time scale that a level from a file starts with.
pub const DEFAULT_SPEED: i32 = 8000;

/// Why a level file was not accepted.
#[derive(Clone, Copy, PartialEq, Eq, Structural, Debug)]
pub enum LoadError {
    /// The file is too short to hold all the levels.
    Truncated,
    /// The name of the level with this number is not valid UTF-8.
    BadName(usize),
}

/// `String::from_utf8` of the standard library: the string that `bytes`
/// encode, if they are valid UTF-8, and nothing if they are not.
#[verifier::external_body]
fn string_from_utf8(bytes: Vec<u8>) -> (r: Option<String>)
    ensures
        r is Some <==> valid_utf8(bytes@),
        r matches Some(s) ==> s@ == decode_utf8(bytes@),
{
    String::from_utf8(bytes).ok()
}

/// The record of level `i` in `data`.
pub open spec fn record(data: Seq<u8>, i: int) -> Seq<u8> {
    data.subrange(i * LEVEL_SIZE as int, (i + 1) * LEVEL_SIZE as int)
}

/// The bytes of the name in the record `rec`.
pub open spec fn name_bytes(rec: Seq<u8>) -> Seq<u8> {
    rec.subrange(GRAVITY_AT as int, NAME_END as int)
}

/// Whether `level` is what the record `rec` describes.
pub open spec fn describes(rec: Seq<u8>, level: Level) -> bool {
    &&& level.wf()
    &&& level.grid.width == LEVEL_WIDTH
    &&& level.grid.height == LEVEL_HEIGHT
    &&& forall|c: Coord| #[trigger]
        level.grid@.has(c) ==> level.grid@.at(c) == TileType::from_u8(
            rec[c.x + c.y * LEVEL_WIDTH],
        ).to_tile()
    &&& level.data@ == (LevelDataView {
        move_priority: Seq::empty(),
        name: decode_utf8(name_bytes(rec)),
        speed: DEFAULT_SPEED,
        delta_time: 0,
        update_duration: 0,
        camera_target: None,
        game_state: GameState::Active,
        infotrons_required: rec[INFOTRONS_AT as int] as i32,
        red_utility_disks: 0,
        gravity_enabled: rec[GRAVITY_AT as int] == 0,
        zonks_frozen: rec[FROZEN_AT as int] == 0,
        alternate_action: false,
    })
}

/// The number of the first level in `data` below `n` whose name is not
/// valid UTF-8, if there is one.
pub open spec fn first_bad_name(data: Seq<u8>, n: int) -> Option<int>
    decreases n,
{
    if n <= 0 {
        None
    } else {
        match first_bad_name(data, n - 1) {
            Some(i) => Some(i),
            None => if valid_utf8(name_bytes(record(data, n - 1))) {
                None
            } else {
                Some(n - 1)
            },
        }
    }
}

/// Copies `data[from..to]`.
fn copy_range(data: &[u8], from: usize, to: usize) -> (out: Vec<u8>)
    requires
        from <= to <= data@.len(),
    ensures
        out@ == data@.subrange(from as int, to as int),
{
    let mut out: Vec<u8> = Vec::new();
    let mut i: usize = from;
    while i < to
        invariant
            from <= i <= to <= data@.len(),
            out@ == data@.subrange(from as int, i as int),
        decreases to - i,
    {
        out.push(data[i]);
        proof {
            assert(out@ =~= data@.subrange(from as int, i + 1));
        }
        i += 1;
    }
    out
}

/// Reads level `i` of the file `data`.
pub fn parse_level(data: &[u8], i: usize) -> (r: Result<Level, LoadError>)
    requires
        i < LEVEL_COUNT,
        data@.len() >= (i + 1) * LEVEL_SIZE,
    ensures
        r is Ok <==> valid_utf8(name_bytes(record(data@, i as int))),
        r matches Ok(level) ==> describes(record(data@, i as int), level),
        r matches Err(e) ==> e == LoadError::BadName(i),
{
    let level_offset = i * LEVEL_SIZE;
    let ghost rec = record(data@, i as int);
    let tiles_array = copy_range(data, level_offset, CELLS_SIZE + level_offset);
    let gravity = data[GRAVITY_AT + level_offset];
    let name = copy_range(data, GRAVITY_AT + level_offset, NAME_END + level_offset);
    let zonk_buf = data[FROZEN_AT + level_offset];
    let infotrons = data[INFOTRONS_AT + level_offset];
    proof {
        assert(name@ =~= name_bytes(rec));
        assert(tiles_array@ =~= rec.subrange(0, CELLS_SIZE as int));
        assert(rec[GRAVITY_AT as int] == gravity);
        assert(rec[FROZEN_AT as int] == zonk_buf);
        assert(rec[INFOTRONS_AT as int] == infotrons);
    }
    let name = match string_from_utf8(name) {
        Some(name) => name,
        None => {
            return Err(LoadError::BadName(i));
        },
    };
    let grid = Grid::new(LEVEL_WIDTH, LEVEL_HEIGHT, tiles_array);
    let level = Level {
        data: LevelData {
            move_priority: Vec::new(),
            name,
            speed: DEFAULT_SPEED,
            delta_time: 0,
            update_duration: 0,
            camera_target: None,
            game_state: GameState::Active,
            infotrons_required: infotrons as i32,
            red_utility_disks: 0,
            gravity_enabled: gravity == 0,
            zonks_frozen: zonk_buf == 0,
            alternate_action: false,
        },
        grid,
    };
    Ok(level)
}

/// Reads the levels of the file `data`. The file is accepted if it is long
/// enough to hold all the levels and the name of each is valid UTF-8;
/// whatever follows the last level is ignored.
pub fn parse_level_dat(data: &[u8]) -> (r: Result<Vec<Level>, LoadError>)
    ensures
        r is Ok <==> data@.len() >= LEVEL_COUNT * LEVEL_SIZE && first_bad_name(
            data@,
            LEVEL_COUNT as int,
        ) is None,
        r matches Ok(levels) ==> levels@.len() == LEVEL_COUNT && forall|i: int|
            0 <= i < LEVEL_COUNT ==> describes(record(data@, i), #[trigger] levels@[i]),
        r matches Err(e) ==> if data@.len() < LEVEL_COUNT * LEVEL_SIZE {
            e == LoadError::Truncated
        } else {
            first_bad_name(data@, LEVEL_COUNT as int) matches Some(i) && e == LoadError::BadName(
                i as usize,
            )
        },
{
    if data.len() < LEVEL_COUNT * LEVEL_SIZE {
        return Err(LoadError::Truncated);
    }
    let mut levels: Vec<Level> = Vec::new();
    let mut i: usize = 0;
    while i < LEVEL_COUNT
        invariant
            0 <= i <= LEVEL_COUNT,
            data@.len() >= LEVEL_COUNT * LEVEL_SIZE,
            levels@.len() == i,
            first_bad_name(data@, i as int) is None,
            forall|j: int| 0 <= j < i ==> describes(record(data@, j), #[trigger] levels@[j]),
        decreases LEVEL_COUNT - i,
    {
        match parse_level(data, i) {
            Ok(level) => {
                levels.push(level);
            },
            Err(e) => {
                proof {
                    lemma_bad_name_stays(data@, i + 1, LEVEL_COUNT as int);
                }
                return Err(e);
            },
        }
        i += 1;
    }
    Ok(levels)
}

/// The first bad name below `n` is the first bad name below any larger
/// bound.
proof fn lemma_bad_name_stays(data: Seq<u8>, n: int, m: int)
    requires
        n <= m,
        first_bad_name(data, n) is Some,
    ensures
        first_bad_name(data, m) == first_bad_name(data, n),
    decreases m - n,
{
    if n < m {
        lemma_bad_name_stays(data, n, m - 1);
    }
}

} // verus!
