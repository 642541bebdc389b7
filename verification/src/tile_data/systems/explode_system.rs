//! Blasts: the area explosion, and what becomes of a blast when its time is
//! up.

use vstd::prelude::*;
use crate::grid::{Coord, Grid, GridView};
use crate::level::{world_of, GameState, LevelData, LevelDataView, World};
use crate::tile_data::tile::Tile;
use crate::tile_data::tile_state::TileState;
use crate::tile_data::tile_type::TileType;
use crate::tile_data::tile_update::{add_time, timer_plus, TileUpdate, EXPLOSION_TIME};

verus! {

/// Whether `c` is one of the eight cells around `center`.
pub open spec fn is_neighbour(center: Coord, c: Coord) -> bool {
    &&& c != center
    &&& center.x - 1 <= c.x <= center.x + 1
    &&& center.y - 1 <= c.y <= center.y + 1
}

/// What a blast next to it makes of `tile`, where `upd` is the timer of
/// the blast. An actor becomes a delayed blast that will go off in its
/// turn; a delayed blast that is already there is left to run; anything
/// else is blown away unless it is indestructible.
pub open spec fn blasted(tile: Tile, upd: TileUpdate) -> Tile {
    if tile.typ.is_actor() {
        Tile::blast(TileType::Explosion2, upd)
    } else if tile.typ == TileType::Explosion2 {
        tile
    } else if tile.state != TileState::Indestructible {
        Tile::blast(TileType::Explosion, upd)
    } else {
        tile
    }
}

/// The timer shared by all the cells of an explosion set off at `center`.
pub open spec fn blast_timer(g: GridView, center: Coord) -> TileUpdate {
    timer_plus(g.at(center).upd, EXPLOSION_TIME)
}

/// The tile at `c` after an explosion at `center`, given the tile `before`
/// that was there.
pub open spec fn exploded_tile(g: GridView, center: Coord, c: Coord, before: Tile) -> Tile {
    if c == center {
        Tile::blast(TileType::Explosion, blast_timer(g, center))
    } else if is_neighbour(center, c) {
        blasted(before, blast_timer(g, center))
    } else {
        before
    }
}

/// The grid after an explosion at `center`.
pub open spec fn area_exploded(g: GridView, center: Coord) -> GridView {
    GridView {
        cells: Map::new(
            |c: Coord| g.has(c),
            |c: Coord| exploded_tile(g, center, c, g.cells[c]),
        ),
        ..g
    }
}

/// Whether an explosion at `center` catches the player in one of the cells
/// around it.
pub open spec fn area_kills(g: GridView, center: Coord) -> bool {
    exists|c: Coord| is_neighbour(center, c) && #[trigger] g.at(c).typ == TileType::Murphy
}

/// The state of the game after an explosion at `center`: lost if the
/// explosion catches the player, whatever it was, and else as it was.
pub open spec fn area_state(g: GridView, center: Coord, state: GameState) -> GameState {
    if area_kills(g, center) {
        GameState::Died
    } else {
        state
    }
}

/// The world after an explosion at `center`.
pub open spec fn explode_at(w: World, center: Coord) -> World {
    World {
        grid: area_exploded(w.grid, center),
        data: LevelDataView {
            game_state: area_state(w.grid, center, w.data.game_state),
            ..w.data
        },
    }
}

/// Rank of `c` in the order in which an explosion at `center` visits the
/// nine cells: row by row, left to right.
spec fn rank(center: Coord, c: Coord) -> int {
    (c.y - center.y + 1) * 3 + (c.x - center.x + 1)
}

/// The grid when the explosion at `center` has dealt with the first `k`
/// cells.
spec fn exploded_upto(g: GridView, center: Coord, k: int) -> GridView {
    GridView {
        cells: Map::new(
            |c: Coord| g.has(c),
            |c: Coord|
                if (c == center || is_neighbour(center, c)) && rank(center, c) < k {
                    exploded_tile(g, center, c, g.cells[c])
                } else {
                    g.cells[c]
                },
        ),
        ..g
    }
}

/// Whether the player is in one of the first `k` cells, the centre not
/// counted.
spec fn kills_upto(g: GridView, center: Coord, k: int) -> bool {
    exists|c: Coord|
        is_neighbour(center, c) && rank(center, c) < k && #[trigger] g.at(c).typ
            == TileType::Murphy
}

/// Sets off an explosion at `coord`: the cell itself becomes a blast, and
/// each of the eight cells around it is dealt with as `blasted` says. All
/// the blasts share one timer: that of the tile at `coord`, plus
/// `EXPLOSION_TIME`. The game is lost if the player is in one of the cells
/// around `coord`.
pub fn set_area_explode(coord: &Coord, grid: &mut Grid, game_state: &mut GameState)
    requires
        old(grid).wf(),
        coord.is_inner(),
    ensures
        final(grid).wf(),
        final(grid).width == old(grid).width,
        final(grid).height == old(grid).height,
        final(grid)@ == area_exploded(old(grid)@, *coord),
        *final(game_state) == area_state(old(grid)@, *coord, *old(game_state)),
{
    let tile = grid.get(coord);
    let upd = add_time(tile.upd, EXPLOSION_TIME);
    let ghost g0 = grid@;
    let ghost gs0 = *game_state;
    proof {
        grid.lemma_view();
        assert(grid@.cells =~= exploded_upto(g0, *coord, 0).cells);
    }
    let mut y: i16 = -1;
    while y <= 1
        invariant
            -1 <= y <= 2,
            coord.is_inner(),
            grid.wf(),
            g0.wf(),
            upd == blast_timer(g0, *coord),
            grid@ == exploded_upto(g0, *coord, (y + 1) * 3),
            *game_state == if kills_upto(g0, *coord, (y + 1) * 3) {
                GameState::Died
            } else {
                gs0
            },
        decreases 2 - y,
    {
        let mut x: i16 = -1;
        while x <= 1
            invariant
                -1 <= x <= 2,
                -1 <= y <= 1,
                coord.is_inner(),
                grid.wf(),
                g0.wf(),
                upd == blast_timer(g0, *coord),
                grid@ == exploded_upto(g0, *coord, (y + 1) * 3 + (x + 1)),
                *game_state == if kills_upto(g0, *coord, (y + 1) * 3 + (x + 1)) {
                    GameState::Died
                } else {
                    gs0
                },
            decreases 2 - x,
        {
            let curr_coord = coord.offset(&(x, y));
            let ghost k = (y + 1) * 3 + (x + 1);
            let ghost before = grid@;
            assert(rank(*coord, curr_coord) == k);
            assert(grid@.at(curr_coord) == g0.at(curr_coord));
            let current = grid.get(&curr_coord);
            if x == 0 && y == 0 {
                grid.set(&curr_coord, Tile::blast(TileType::Explosion, upd));
            } else {
                match current.typ {
                    TileType::Electron
                    | TileType::Murphy
                    | TileType::OrangeUtilityDisk
                    | TileType::SnikSnak
                    | TileType::YellowUtilityDisk => {
                        if current.typ == TileType::Murphy {
                            *game_state = GameState::Died;
                        }
                        grid.set(&curr_coord, Tile::blast(TileType::Explosion2, upd));
                    },
                    TileType::Explosion2 => {},
                    _ => {
                        if current.state != TileState::Indestructible {
                            grid.set(&curr_coord, Tile::blast(TileType::Explosion, upd));
                        }
                    },
                }
            }
            proof {
                let next = exploded_upto(g0, *coord, k + 1);
                assert forall|c: Coord| g0.has(c) implies #[trigger] grid@.cells[c]
                    == next.cells[c] by {
                    if c != curr_coord {
                        assert(rank(*coord, c) != k || !(c == *coord || is_neighbour(*coord, c)));
                    }
                }
                assert(grid@.cells =~= next.cells);
                if kills_upto(g0, *coord, k + 1) {
                    let c = choose|c: Coord|
                        is_neighbour(*coord, c) && rank(*coord, c) < k + 1 && #[trigger] g0.at(
                            c,
                        ).typ == TileType::Murphy;
                    if rank(*coord, c) == k {
                        assert(c == curr_coord);
                    } else {
                        assert(kills_upto(g0, *coord, k));
                    }
                } else {
                    if kills_upto(g0, *coord, k) {
                        let c = choose|c: Coord|
                            is_neighbour(*coord, c) && rank(*coord, c) < k && #[trigger] g0.at(
                                c,
                            ).typ == TileType::Murphy;
                        assert(is_neighbour(*coord, c) && rank(*coord, c) < k + 1 && g0.at(c).typ
                            == TileType::Murphy);
                    }
                    if is_neighbour(*coord, curr_coord) && g0.at(curr_coord).typ
                        == TileType::Murphy {
                        assert(kills_upto(g0, *coord, k + 1));
                    }
                }
            }
            x += 1;
        }
        y += 1;
    }
    proof {
        let done = area_exploded(g0, *coord);
        assert forall|c: Coord| g0.has(c) implies #[trigger] grid@.cells[c] == done.cells[c] by {
            if c == *coord || is_neighbour(*coord, c) {
                assert(rank(*coord, c) < 9);
            }
        }
        assert(grid@.cells =~= done.cells);
        if area_kills(g0, *coord) {
            let c = choose|c: Coord|
                is_neighbour(*coord, c) && #[trigger] g0.at(c).typ == TileType::Murphy;
            assert(rank(*coord, c) < 9);
            assert(kills_upto(g0, *coord, 9));
        }
        if kills_upto(g0, *coord, 9) {
            let c = choose|c: Coord|
                is_neighbour(*coord, c) && rank(*coord, c) < 9 && #[trigger] g0.at(c).typ
                    == TileType::Murphy;
            assert(is_neighbour(*coord, c) && g0.at(c).typ == TileType::Murphy);
        }
    }
}

/// What the blast system makes of the world when it visits `c`. A blast
/// whose time is not up is left alone. A blast whose time is up clears its
/// cell; a delayed blast whose time is up sets off an explosion of its own.
pub open spec fn explode_step(w: World, c: Coord) -> World {
    let tile = w.grid.at(c);
    if tile.upd > 0 {
        w
    } else if tile.typ == TileType::Explosion {
        World { grid: w.grid.put(c, TileType::Empty.to_tile()), ..w }
    } else if tile.typ == TileType::Explosion2 {
        explode_at(w, c)
    } else {
        w
    }
}

pub fn explode_system(coord: &Coord, grid: &mut Grid, level_data: &mut LevelData)
    requires
        old(grid).wf(),
        coord.is_inner(),
    ensures
        final(grid).wf(),
        final(grid).width == old(grid).width,
        final(grid).height == old(grid).height,
        world_of(*final(grid), *final(level_data)) == explode_step(
            world_of(*old(grid), *old(level_data)),
            *coord,
        ),
{
    let explosion = grid.get(coord);

    if explosion.upd > 0 {
        return ;
    }
    match explosion.typ {
        TileType::Explosion => {
            grid.set(coord, TileType::to_tile(TileType::Empty));
        },
        TileType::Explosion2 => {
            set_area_explode(coord, grid, &mut level_data.game_state);
        },
        _ => {},
    }
}

/// An explosion reaches the cell it is set off in and the eight cells
/// around it, as far as the grid has them, and nothing else. Whatever it
/// changes becomes a blast, and all these blasts carry one and the same
/// timer. Around the centre it leaves alone what is indestructible and no
/// actor, and delayed blasts that are there already.
pub proof fn lemma_explosion(g: GridView, center: Coord, c: Coord)
    ensures
        area_exploded(g, center).width == g.width,
        area_exploded(g, center).height == g.height,
        g.wf() ==> area_exploded(g, center).wf(),
        c != center && !is_neighbour(center, c) ==> area_exploded(g, center).at(c) == g.at(c),
        g.has(center) ==> area_exploded(g, center).at(center) == Tile::blast(
            TileType::Explosion,
            blast_timer(g, center),
        ),
        area_exploded(g, center).at(c) != g.at(c) ==> {
            let after = area_exploded(g, center).at(c);
            &&& g.has(c)
            &&& after.upd == blast_timer(g, center)
            &&& after.state == TileState::Dangerous
            &&& after.typ == TileType::Explosion || after.typ == TileType::Explosion2
        },
        is_neighbour(center, c) && g.at(c).state == TileState::Indestructible && !g.at(
            c,
        ).typ.is_actor() ==> area_exploded(g, center).at(c) == g.at(c),
        is_neighbour(center, c) && g.at(c).typ == TileType::Explosion2 ==> area_exploded(
            g,
            center,
        ).at(c) == g.at(c),
        is_neighbour(center, c) && g.has(c) ==> area_exploded(g, center).at(c) == blasted(
            g.at(c),
            blast_timer(g, center),
        ),
{
    if g.wf() {
        assert(area_exploded(g, center).cells.dom() =~= g.cells.dom());
    }
}

/// The cells that an explosion at `center` reaches.
pub open spec fn blast_zone(center: Coord) -> Set<Coord> {
    Set::new(|c: Coord| c == center || is_neighbour(center, c))
}

/// An explosion reaches nine cells.
pub proof fn lemma_blast_zone(center: Coord)
    requires
        center.is_inner(),
    ensures
        blast_zone(center).finite(),
        blast_zone(center).len() == 9,
{
    let x = center.x;
    let y = center.y;
    let s0 = Set::<Coord>::empty();
    let s1 = s0.insert(Coord { x: (x - 1) as i16, y: (y - 1) as i16 });
    let s2 = s1.insert(Coord { x, y: (y - 1) as i16 });
    let s3 = s2.insert(Coord { x: (x + 1) as i16, y: (y - 1) as i16 });
    let s4 = s3.insert(Coord { x: (x - 1) as i16, y });
    let s5 = s4.insert(Coord { x, y });
    let s6 = s5.insert(Coord { x: (x + 1) as i16, y });
    let s7 = s6.insert(Coord { x: (x - 1) as i16, y: (y + 1) as i16 });
    let s8 = s7.insert(Coord { x, y: (y + 1) as i16 });
    let s9 = s8.insert(Coord { x: (x + 1) as i16, y: (y + 1) as i16 });
    assert(s1.len() == 1);
    assert(s2.len() == 2);
    assert(s3.len() == 3);
    assert(s4.len() == 4);
    assert(s5.len() == 5);
    assert(s6.len() == 6);
    assert(s7.len() == 7);
    assert(s8.len() == 8);
    assert(s9.len() == 9);
    assert(blast_zone(center) =~= s9);
}

/// A delayed blast whose time is up sets off an explosion in its own cell,
/// the same as any other explosion there.
pub proof fn lemma_chain(w: World, c: Coord)
    requires
        w.grid.at(c).typ == TileType::Explosion2,
        w.grid.at(c).upd <= 0,
    ensures
        explode_step(w, c) == explode_at(w, c),
{
}

} // verus!
