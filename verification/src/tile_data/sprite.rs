//! Which sprites show a tile. Nothing here changes the world: the choice
//! depends on the fields of the tile alone, the timer doubling as the
//! animation clock.

use vstd::prelude::*;
use crate::grid::{lag_x, lag_y, Coord, FCoord, CELL};
use super::tile::Tile;
use super::tile_interaction::TileInteraction;
use super::tile_move::TileMove;
use super::tile_type::TileType;
use super::tile_update::{TileUpdate, EXPLOSION_TIME, MOVE_TIME};

verus! {

/// One sprite to draw.
#[derive(Clone, Copy, Debug, PartialEq, Eq, Structural)]
pub struct Sprite {
    /// Where to draw it, in thousandths of a cell.
    pub at: FCoord,
    /// Its place on the sprite sheet: column `x`, row `y`.
    pub source: Coord,
    pub flip_x: bool,
    pub flip_y: bool,
}

/// Largest distance from the origin, in either direction, at which a tile
/// can be drawn.
pub const FAR: i64 = 0x100_0000_0000;

/// Whether `f` is close enough to the origin to draw a tile there.
pub open spec fn in_view(f: FCoord) -> bool {
    -FAR <= f.x <= FAR && -FAR <= f.y <= FAR
}

/// `v` forced into the range of a sprite-sheet column.
pub open spec fn clamp_column(v: int) -> i16 {
    if v < i16::MIN {
        i16::MIN
    } else if v > i16::MAX {
        i16::MAX
    } else {
        v as i16
    }
}

/// The frame that a timer `upd` has reached in an animation that shows
/// `frames` frames in `span` timer units: the whole frames that `upd`
/// spans, rounded down.
pub open spec fn frame(upd: TileUpdate, frames: int, span: int) -> int {
    upd * frames / span
}

/// Computes `frame`.
fn frame_of(upd: TileUpdate, frames: i64, span: i64) -> (f: i64)
    requires
        0 < frames <= 8,
        0 < span <= 2500,
    ensures
        f == frame(upd, frames as int, span as int),
{
    assert(-0x4_0000_0000 <= upd * frames <= 0x4_0000_0000) by (nonlinear_arith)
        requires
            -0x8000_0000 <= upd <= 0x7fff_ffff,
            0 < frames <= 8,
    ;
    let scaled: i64 = upd as i64 * frames;
    if scaled >= 0 {
        scaled / span
    } else {
        let up: i64 = -scaled;
        let q: i64 = up / span;
        let r: i64 = up % span;
        proof {
            vstd::arithmetic::div_mod::lemma_fundamental_div_mod(up as int, span as int);
            let (q2, r2): (int, int) = if r == 0 {
                (-q, 0)
            } else {
                (-q - 1, span - r)
            };
            assert(0 <= r < span);
            assert(scaled == q2 * span + r2) by (nonlinear_arith)
                requires
                    up == span * q + r,
                    scaled == -up,
                    (r == 0 && q2 == -q && r2 == 0) || (r != 0 && q2 == -q - 1 && r2 == span - r),
            ;
            vstd::arithmetic::div_mod::lemma_fundamental_div_mod_converse(
                scaled as int,
                span as int,
                q2,
                r2,
            );
        }
        if r == 0 {
            -q
        } else {
            -q - 1
        }
    }
}

/// Forces `v` into the range of a sprite-sheet column.
fn column(v: i64) -> (c: i16)
    ensures
        c == clamp_column(v as int),
{
    if v < i16::MIN as i64 {
        i16::MIN
    } else if v > i16::MAX as i64 {
        i16::MAX
    } else {
        v as i16
    }
}

/// Where `tile` is drawn when `f` is the position of its cell: `f` for a
/// tile at rest, and short of it by what is left of the move for a tile on
/// its way.
pub open spec fn lagging(f: FCoord, tile: Tile) -> FCoord {
    f.shifted(lag_x(tile), lag_y(tile))
}

/// The sprite of a falling or rolling object. A rolling object turns
/// through eight frames in the course of a move, forwards to the right
/// and backwards to the left.
pub open spec fn gravity_sprite(tile: Tile, f: FCoord) -> Sprite {
    let eighths = frame(tile.upd, 8, MOVE_TIME as int);
    let x = match tile.mov {
        TileMove::Right => clamp_column(7 - eighths),
        TileMove::Left => clamp_column(eighths),
        _ => 0,
    };
    Sprite {
        at: lagging(f, tile),
        source: Coord { x, y: tile.typ.def_tex_pos().y },
        flip_x: false,
        flip_y: false,
    }
}

/// The sprite of a blast: seven frames in the time of an explosion, the
/// last one first.
pub open spec fn explode_sprite(tile: Tile, f: FCoord) -> Sprite {
    Sprite {
        at: f,
        source: Coord { x: clamp_column(frame(tile.upd, 7, EXPLOSION_TIME as int)), y: 18 },
        flip_x: false,
        flip_y: false,
    }
}

/// The sprite of a placeholder: what was eaten there dissolves in eight
/// frames. A placeholder for anything but base, an infotron or a red disk
/// shows nothing.
pub open spec fn transitory_sprite(tile: Tile, f: FCoord) -> Option<Sprite> {
    let eighths = clamp_column(7 - frame(tile.upd, 8, MOVE_TIME as int));
    let x = if eighths > 0 {
        eighths as int
    } else {
        0
    };
    match tile.interaction {
        TileInteraction::Eating(TileType::Base) => Some(
            Sprite { at: f, source: Coord { x: clamp_column(x), y: 0 }, flip_x: false, flip_y: false },
        ),
        TileInteraction::Eating(TileType::Infotron) => Some(
            Sprite {
                at: f,
                source: Coord { x: clamp_column(x + 1), y: 6 },
                flip_x: false,
                flip_y: false,
            },
        ),
        TileInteraction::Eating(TileType::RedUtilityDisk) => Some(
            Sprite { at: f, source: Coord { x: clamp_column(x), y: 14 }, flip_x: false, flip_y: false },
        ),
        _ => None,
    }
}

/// The first column of the sprites that show an enemy with facing `mov`
/// and previous facing `mov2`: one of four sprites for the four corners it
/// can turn through, or the first of four of it going up or down, or
/// sideways. An enemy without a facing shows nothing.
pub open spec fn ai_column(mov: TileMove, mov2: TileMove) -> Option<int> {
    match (mov, mov2) {
        (TileMove::Up, TileMove::Right) => Some(3),
        (TileMove::Up, TileMove::Left) => Some(0),
        (TileMove::Right, TileMove::Up) => Some(3),
        (TileMove::Right, TileMove::Down) => Some(2),
        (TileMove::Down, TileMove::Right) => Some(2),
        (TileMove::Down, TileMove::Left) => Some(1),
        (TileMove::Left, TileMove::Up) => Some(0),
        (TileMove::Left, TileMove::Down) => Some(1),
        (TileMove::Up, _) => Some(4),
        (TileMove::Down, _) => Some(4),
        (TileMove::Left, _) => Some(8),
        (TileMove::Right, _) => Some(8),
        _ => None,
    }
}

/// The frame of the snipping animation at timer `upd`: the scissors close
/// in four steps during the first half of a move and open again during
/// the second.
pub open spec fn snip(upd: TileUpdate) -> int {
    if (875 < upd <= 1000) || (0 < upd <= 125) {
        0
    } else if (750 < upd <= 875) || (125 < upd <= 250) {
        1
    } else if (625 < upd <= 750) || (250 < upd <= 375) {
        2
    } else if 375 < upd <= 625 {
        3
    } else {
        0
    }
}

/// The sprite of an enemy. It snips while it goes straight, is mirrored
/// when it goes left or down, and is drawn on its way only while it moves.
pub open spec fn ai_sprite(ai: Tile, f: FCoord) -> Option<Sprite> {
    match ai_column(ai.mov, ai.mov2) {
        Some(x) => Some(
            Sprite {
                at: if ai.interaction == TileInteraction::Moving {
                    lagging(f, ai)
                } else {
                    f
                },
                source: Coord {
                    x: (x + if ai.mov == ai.mov2 {
                        snip(ai.upd)
                    } else {
                        0
                    }) as i16,
                    y: 12,
                },
                flip_x: ai.mov == TileMove::Left && ai.mov2 == TileMove::Left,
                flip_y: ai.mov == TileMove::Down && ai.mov2 == TileMove::Down,
            },
        ),
        None => None,
    }
}

/// The column of the player's walking animation at timer `upd`: four
/// frames in the course of a move, ending on column 13.
pub open spec fn stride(upd: TileUpdate) -> i16 {
    if upd > 0 {
        clamp_column(13 - clamp_column(frame(upd, 4, MOVE_TIME as int)))
    } else {
        13
    }
}

/// The sprites of the player, in the order in which to draw them. What is
/// eaten lies under the player; a port lies over the player, who is drawn
/// on both sides of it.
pub open spec fn murphy_sprites(murphy: Tile, f: FCoord) -> Seq<Sprite> {
    let flip_x = murphy.mov2 == TileMove::Left;
    let walking = Sprite {
        at: lagging(f, murphy),
        source: Coord { x: stride(murphy.upd), y: 7 },
        flip_x,
        flip_y: false,
    };
    match murphy.interaction {
        TileInteraction::Eating(typ) => seq![
            Sprite { at: f, source: typ.def_tex_pos(), flip_x: false, flip_y: false },
            walking,
        ],
        TileInteraction::Pushing => seq![
            Sprite { at: lagging(f, murphy), source: Coord { x: 3, y: 7 }, flip_x, flip_y: false },
        ],
        TileInteraction::Slurping => seq![
            Sprite {
                at: f,
                source: Coord {
                    x: match murphy.mov {
                        TileMove::Up => 4i16,
                        TileMove::Down => 5i16,
                        _ => 6i16,
                    },
                    y: 7,
                },
                flip_x,
                flip_y: false,
            },
        ],
        TileInteraction::Tunneling(port) => {
            let back = f.shifted(
                murphy.mov.opposite().dx() * CELL,
                murphy.mov.opposite().dy() * CELL,
            );
            seq![
                walking,
                Sprite { at: lagging(back, murphy), ..walking },
                Sprite { at: back, source: port.def_tex_pos(), flip_x: false, flip_y: false },
            ]
        },
        _ => seq![Sprite { at: f, source: Coord { x: 0, y: 7 }, flip_x: false, flip_y: false }],
    }
}

/// The sprites of `tile`, to be drawn in this order, when `f` is the
/// position of its cell. Empty space and the border show nothing; disks
/// are drawn on their way; whatever has no animation of its own shows the
/// sprite of its category.
pub open spec fn tile_sprites(tile: Tile, f: FCoord) -> Seq<Sprite> {
    let plain = Sprite { at: f, source: tile.typ.def_tex_pos(), flip_x: false, flip_y: false };
    match tile.typ {
        TileType::Murphy => murphy_sprites(tile, f),
        TileType::SnikSnak => match ai_sprite(tile, f) {
            Some(s) => seq![s],
            None => Seq::empty(),
        },
        TileType::Transitory => match transitory_sprite(tile, f) {
            Some(s) => seq![s],
            None => Seq::empty(),
        },
        TileType::Infotron | TileType::Zonk => seq![gravity_sprite(tile, f)],
        TileType::Explosion | TileType::Explosion2 => seq![explode_sprite(tile, f)],
        TileType::OrangeUtilityDisk | TileType::YellowUtilityDisk => seq![
            Sprite { at: lagging(f, tile), ..plain },
        ],
        TileType::Void | TileType::Empty => Seq::empty(),
        _ => seq![plain],
    }
}

/// Chooses the sprite of a falling or rolling object.
pub fn choose_gravity_sprite(tile: &Tile, fcoord: &FCoord) -> (s: Sprite)
    requires
        in_view(*fcoord),
    ensures
        s == gravity_sprite(*tile, *fcoord),
{
    let eighths = frame_of(tile.upd, 8, 1000);
    let x = match tile.mov {
        TileMove::Right => column(7 - eighths),
        TileMove::Left => column(eighths),
        _ => 0,
    };
    Sprite {
        at: fcoord.offset_time(tile),
        source: Coord::new(x, tile.typ.def_tex_pos().y),
        flip_x: false,
        flip_y: false,
    }
}

/// Chooses the sprite of a blast.
pub fn choose_explode_sprite(explosion: &Tile, fcoord: &FCoord) -> (s: Sprite)
    ensures
        s == explode_sprite(*explosion, *fcoord),
{
    let time = column(frame_of(explosion.upd, 7, 2500));
    Sprite { at: *fcoord, source: Coord::new(time, 18), flip_x: false, flip_y: false }
}

/// Chooses the sprite of a placeholder.
pub fn choose_transitory_sprite(tile: &Tile, fcoord: &FCoord) -> (s: Option<Sprite>)
    ensures
        s == transitory_sprite(*tile, *fcoord),
{
    let (y, offset): (i16, i64) = match tile.interaction {
        TileInteraction::Eating(typ) => match typ {
            TileType::Base => (0, 0),
            TileType::Infotron => (6, 1),
            TileType::RedUtilityDisk => (14, 0),
            _ => {
                return None;
            },
        },
        _ => {
            return None;
        },
    };
    let eighths = column(7 - frame_of(tile.upd, 8, 1000));
    let x: i64 = if eighths > 0 {
        eighths as i64
    } else {
        0
    };
    Some(Sprite { at: *fcoord, source: Coord::new(column(x + offset), y), flip_x: false, flip_y: false })
}

/// Chooses the sprite of an enemy.
pub fn choose_ai_sprite(ai: &Tile, fcoord: &FCoord) -> (s: Option<Sprite>)
    requires
        in_view(*fcoord),
    ensures
        s == ai_sprite(*ai, *fcoord),
{
    let x: i16 = match (ai.mov, ai.mov2) {
        (TileMove::Up, TileMove::Right) => 3,
        (TileMove::Up, TileMove::Left) => 0,
        (TileMove::Right, TileMove::Up) => 3,
        (TileMove::Right, TileMove::Down) => 2,
        (TileMove::Down, TileMove::Right) => 2,
        (TileMove::Down, TileMove::Left) => 1,
        (TileMove::Left, TileMove::Up) => 0,
        (TileMove::Left, TileMove::Down) => 1,
        (TileMove::Up, _) => 4,
        (TileMove::Down, _) => 4,
        (TileMove::Left, _) => 8,
        (TileMove::Right, _) => 8,
        _ => {
            return None;
        },
    };
    let flip_x = ai.mov == TileMove::Left && ai.mov2 == TileMove::Left;
    let flip_y = ai.mov == TileMove::Down && ai.mov2 == TileMove::Down;
    let time: i16 = if (ai.upd <= 1000 && ai.upd > 875) || (ai.upd <= 125 && ai.upd > 0) {
        0
    } else if (ai.upd <= 875 && ai.upd > 750) || (ai.upd <= 250 && ai.upd > 125) {
        1
    } else if (ai.upd <= 750 && ai.upd > 625) || (ai.upd <= 375 && ai.upd > 250) {
        2
    } else if (ai.upd <= 625 && ai.upd > 500) || (ai.upd <= 500 && ai.upd > 375) {
        3
    } else {
        0
    };
    let offset: i16 = if ai.mov == ai.mov2 {
        time
    } else {
        0
    };
    let smooth_dst = if ai.interaction == TileInteraction::Moving {
        fcoord.offset_time(ai)
    } else {
        *fcoord
    };
    Some(Sprite { at: smooth_dst, source: Coord::new(x + offset, 12), flip_x, flip_y })
}

/// The column of the player's walking animation.
fn stride_of(upd: TileUpdate) -> (x: i16)
    ensures
        x == stride(upd),
{
    if upd > 0 {
        column(13 - column(frame_of(upd, 4, 1000)) as i64)
    } else {
        13
    }
}

/// Chooses the sprites of the player.
pub fn choose_murphy_sprites(murphy: &Tile, fcoord: &FCoord) -> (s: Vec<Sprite>)
    requires
        in_view(*fcoord),
    ensures
        s@ == murphy_sprites(*murphy, *fcoord),
{
    let flip_x = murphy.mov2 == TileMove::Left;
    let mut sprites: Vec<Sprite> = Vec::new();
    match murphy.interaction {
        TileInteraction::Eating(tile) => {
            let smooth_dst = fcoord.offset_time(murphy);
            let anim_pos = stride_of(murphy.upd);
            sprites.push(
                Sprite { at: *fcoord, source: tile.def_tex_pos(), flip_x: false, flip_y: false },
            );
            sprites.push(
                Sprite { at: smooth_dst, source: Coord::new(anim_pos, 7), flip_x, flip_y: false },
            );
        },
        TileInteraction::Pushing => {
            let smooth_dst = fcoord.offset_time(murphy);
            sprites.push(Sprite { at: smooth_dst, source: Coord::new(3, 7), flip_x, flip_y: false });
        },
        TileInteraction::Slurping => {
            let pos = match murphy.mov {
                TileMove::Up => Coord::new(4, 7),
                TileMove::Down => Coord::new(5, 7),
                _ => Coord::new(6, 7),
            };
            sprites.push(Sprite { at: *fcoord, source: pos, flip_x, flip_y: false });
        },
        TileInteraction::Tunneling(port) => {
            let smooth_dst = fcoord.offset_time(murphy);
            let dst2 = fcoord.offset(&murphy.mov.opposite());
            let smooth_dst3 = dst2.offset_time(murphy);
            let anim_pos = stride_of(murphy.upd);
            sprites.push(
                Sprite { at: smooth_dst, source: Coord::new(anim_pos, 7), flip_x, flip_y: false },
            );
            sprites.push(
                Sprite { at: smooth_dst3, source: Coord::new(anim_pos, 7), flip_x, flip_y: false },
            );
            sprites.push(
                Sprite { at: dst2, source: port.def_tex_pos(), flip_x: false, flip_y: false },
            );
        },
        _ => {
            sprites.push(
                Sprite { at: *fcoord, source: Coord::new(0, 7), flip_x: false, flip_y: false },
            );
        },
    }
    proof {
        assert(sprites@ =~= murphy_sprites(*murphy, *fcoord));
    }
    sprites
}

impl Tile {
    /// Chooses the sprites that show the tile when `fcoord` is the position
    /// of its cell.
    pub fn sprites(&self, fcoord: &FCoord) -> (s: Vec<Sprite>)
        requires
            in_view(*fcoord),
        ensures
            s@ == tile_sprites(*self, *fcoord),
    {
        let mut sprites: Vec<Sprite> = Vec::new();
        match self.typ {
            TileType::Murphy => {
                return choose_murphy_sprites(self, fcoord);
            },
            TileType::SnikSnak => {
                if let Some(s) = choose_ai_sprite(self, fcoord) {
                    sprites.push(s);
                }
            },
            TileType::Transitory => {
                if let Some(s) = choose_transitory_sprite(self, fcoord) {
                    sprites.push(s);
                }
            },
            TileType::Infotron | TileType::Zonk => {
                sprites.push(choose_gravity_sprite(self, fcoord));
            },
            TileType::Explosion | TileType::Explosion2 => {
                sprites.push(choose_explode_sprite(self, fcoord));
            },
            TileType::OrangeUtilityDisk | TileType::YellowUtilityDisk => {
                sprites.push(
                    Sprite {
                        at: fcoord.offset_time(self),
                        source: self.typ.def_tex_pos(),
                        flip_x: false,
                        flip_y: false,
                    },
                );
            },
            TileType::Void | TileType::Empty => {},
            _ => {
                sprites.push(
                    Sprite {
                        at: *fcoord,
                        source: self.typ.def_tex_pos(),
                        flip_x: false,
                        flip_y: false,
                    },
                );
            },
        }
        proof {
            assert(sprites@ =~= tile_sprites(*self, *fcoord));
        }
        sprites
    }
}

} // verus!
