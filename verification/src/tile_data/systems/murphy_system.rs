//! The player: moving, eating, pushing, tunnelling.

use vstd::prelude::*;
use crate::grid::{Coord, FCoord, Grid, CELL};
use crate::level::{
    sweep, sweep_row, sweep_rows, world_of, GameState, LevelData, LevelDataView, World,
};
use crate::tile_data::tile::Tile;
use crate::tile_data::tile_interaction::TileInteraction;
use crate::tile_data::tile_move::TileMove;
use crate::tile_data::tile_state::TileState;
use crate::tile_data::tile_type::TileType;
use crate::tile_data::tile_update::{add_time, timer_plus, Updateable, MOVE_TIME, PUSH_TIME};
use super::explode_system::{explode_at, set_area_explode};

verus! {

/// What the player can do in one direction.
#[derive(Clone, Copy, PartialEq, Eq, Structural, Debug)]
pub enum MurphyAction {
    /// Nothing.
    Blocked,
    /// Leave through the exit.
    Finish,
    /// Operate a terminal.
    Detonate,
    /// Touch something dangerous, and go up in an explosion of one's own.
    Die,
    /// Move onto what is there and consume it.
    Eat,
    /// Consume what is there without moving.
    Slurp,
    /// Lean against an object before pushing it.
    Lean,
    /// Push an object one cell on and follow it.
    Push,
    /// Pass through a port.
    Tunnel,
}

/// What the player at `c` can do towards `dir`, going by the cell there
/// and, for a push or a port, by the cell beyond it.
///
/// The exit lets the player out once no infotron is required any more. An
/// object is pushed sideways only, into an empty cell; the push proper
/// starts when the player's timer has run a whole move past zero, and until
/// then the player leans. A port is passed only in a direction it accepts,
/// into an empty cell.
pub open spec fn murphy_action(w: World, c: Coord, dir: TileMove) -> MurphyAction {
    let murphy = w.grid.at(c);
    let target = w.grid.at(c.step(dir));
    let beyond = w.grid.at(c.step(dir).step(dir));
    if target.typ == TileType::Exit && w.data.infotrons_required <= 0 {
        MurphyAction::Finish
    } else if target.typ == TileType::Terminal {
        MurphyAction::Detonate
    } else {
        match target.state {
            TileState::Dangerous => MurphyAction::Die,
            TileState::Eatable => if w.data.alternate_action {
                MurphyAction::Slurp
            } else {
                MurphyAction::Eat
            },
            TileState::Moveable => if dir.is_lateral() && beyond.typ == TileType::Empty {
                if murphy.upd > -MOVE_TIME {
                    MurphyAction::Lean
                } else {
                    MurphyAction::Push
                }
            } else {
                MurphyAction::Blocked
            },
            TileState::Tunnelable => if beyond.typ == TileType::Empty && target.typ.accepts(dir) {
                MurphyAction::Tunnel
            } else {
                MurphyAction::Blocked
            },
            _ => MurphyAction::Blocked,
        }
    }
}

/// The first of the directions `dirs` in which the player at `c` can do
/// something.
pub open spec fn first_legal(w: World, c: Coord, dirs: Seq<TileMove>) -> Option<TileMove>
    decreases dirs.len(),
{
    if dirs.len() == 0 {
        None
    } else if murphy_action(w, c, dirs[0]) != MurphyAction::Blocked {
        Some(dirs[0])
    } else {
        first_legal(w, c, dirs.skip(1))
    }
}

/// The side the player looks at after acting towards `dir`: a sideways
/// action turns the player that way, a vertical one leaves the side as it
/// was.
pub open spec fn facing_after(murphy: Tile, dir: TileMove) -> TileMove {
    if dir.is_lateral() {
        dir
    } else {
        murphy.mov2
    }
}

/// `n` less one, as far as the range goes.
pub open spec fn one_less(n: i32) -> i32 {
    if n > i32::MIN {
        (n - 1) as i32
    } else {
        n
    }
}

/// `n` plus one, as far as the range goes.
pub open spec fn one_more(n: u32) -> u32 {
    if n < u32::MAX {
        (n + 1) as u32
    } else {
        n
    }
}

/// The shared state after the player has consumed a tile of category
/// `typ`: an infotron is one infotron less to collect, a red disk is one
/// more in stock.
pub open spec fn collected(data: LevelDataView, typ: TileType) -> LevelDataView {
    if typ == TileType::Infotron {
        LevelDataView { infotrons_required: one_less(data.infotrons_required), ..data }
    } else if typ == TileType::RedUtilityDisk {
        LevelDataView { red_utility_disks: one_more(data.red_utility_disks), ..data }
    } else {
        data
    }
}

/// What visiting `c` does when a terminal has been operated: a yellow disk
/// explodes.
pub open spec fn detonate_cell(w: World, c: Coord) -> World {
    if w.grid.at(c).typ == TileType::YellowUtilityDisk {
        explode_at(w, c)
    } else {
        w
    }
}

/// The world after a terminal has been operated: every yellow disk has
/// exploded, in the order of a scan. A disk caught in the explosion of an
/// earlier one is a delayed blast by the time the scan reaches it, and is
/// left to go off by itself.
pub open spec fn detonated(w: World) -> World {
    sweep(|v: World, c: Coord| detonate_cell(v, c), w, w.grid.width, w.grid.height)
}

/// What a call of the player system leaves: the world, and the cell the
/// player is in.
pub struct MurphyOutcome {
    pub world: World,
    pub at: Coord,
}

/// The world after the player at `c` has done towards `dir` what
/// `murphy_action` allows there, and the cell the player is in then.
///
/// A player who touches something dangerous sets off an explosion in its
/// own cell. Such an explosion catches whoever stands around it: the game
/// is lost by it only if another player does.
pub open spec fn murphy_act(w: World, c: Coord, dir: TileMove) -> MurphyOutcome {
    let murphy = w.grid.at(c);
    let c2 = c.step(dir);
    let c3 = c2.step(dir);
    let target = w.grid.at(c2);
    let side = facing_after(murphy, dir);
    let upd = timer_plus(murphy.upd, MOVE_TIME);
    let placeholder = Tile::transitory(upd, TileType::Empty);
    match murphy_action(w, c, dir) {
        MurphyAction::Blocked => MurphyOutcome { world: w, at: c },
        MurphyAction::Finish => MurphyOutcome {
            world: World {
                data: LevelDataView { game_state: GameState::Finished, ..w.data },
                ..w
            },
            at: c,
        },
        MurphyAction::Detonate => MurphyOutcome { world: detonated(w), at: c },
        MurphyAction::Die => MurphyOutcome { world: explode_at(w, c), at: c },
        MurphyAction::Eat => MurphyOutcome {
            world: World {
                grid: w.grid.put(
                    c2,
                    Tile::murphy(upd, dir, side, TileInteraction::Eating(target.typ)),
                ).put(c, placeholder),
                data: collected(w.data, target.typ),
            },
            at: c2,
        },
        MurphyAction::Slurp => MurphyOutcome {
            world: World {
                grid: w.grid.put(c2, Tile::transitory(upd, target.typ)).put(
                    c,
                    Tile::murphy(upd, dir, side, TileInteraction::Slurping),
                ),
                data: collected(w.data, target.typ),
            },
            at: c,
        },
        MurphyAction::Lean => MurphyOutcome {
            world: World {
                grid: w.grid.put(
                    c,
                    Tile { interaction: TileInteraction::Pushing, mov: dir, mov2: dir, ..murphy },
                ),
                ..w
            },
            at: c,
        },
        MurphyAction::Push => {
            let upd = timer_plus(murphy.upd, PUSH_TIME);
            MurphyOutcome {
                world: World {
                    grid: w.grid.put(c3, target.moving(upd, dir)).put(
                        c2,
                        Tile::murphy(upd, dir, dir, TileInteraction::Pushing),
                    ).put(c, Tile::transitory(upd, TileType::Empty)),
                    ..w
                },
                at: c2,
            }
        },
        MurphyAction::Tunnel => MurphyOutcome {
            world: World {
                grid: w.grid.put(
                    c3,
                    Tile::murphy(upd, dir, side, TileInteraction::Tunneling(target.typ)),
                ).put(c, placeholder),
                ..w
            },
            at: c3,
        },
    }
}

/// The player `murphy` with nothing to do.
pub open spec fn idled(murphy: Tile) -> Tile {
    Tile { upd: 0, interaction: TileInteraction::Idle, ..murphy }
}

/// What the player system makes of the world when it visits `c`. While the
/// player's timer runs nothing happens. After that the held directions are
/// tried in order of priority and the first in which something can be done
/// decides; with none, the player idles.
pub open spec fn murphy_step(w: World, c: Coord) -> MurphyOutcome {
    if w.grid.at(c).upd > 0 {
        MurphyOutcome { world: w, at: c }
    } else {
        match first_legal(w, c, w.data.move_priority) {
            Some(dir) => murphy_act(w, c, dir),
            None => MurphyOutcome {
                world: World { grid: w.grid.put(c, idled(w.grid.at(c))), ..w },
                at: c,
            },
        }
    }
}

/// Decides what the player at `coord` can do towards `dir`.
pub fn consider(coord: &Coord, grid: &Grid, level_data: &LevelData, dir: TileMove) -> (action:
    MurphyAction)
    requires
        grid.wf(),
        coord.is_inner(),
    ensures
        action == murphy_action(world_of(*grid, *level_data), *coord, dir),
{
    let murphy = grid.get(coord);
    let coord2 = coord.offset(&dir);
    let tile2 = grid.get(&coord2);
    if tile2.typ == TileType::Exit && level_data.infotrons_required <= 0 {
        return MurphyAction::Finish;
    }
    if tile2.typ == TileType::Terminal {
        return MurphyAction::Detonate;
    }
    match tile2.state {
        TileState::Dangerous => MurphyAction::Die,
        TileState::Eatable => if level_data.alternate_action {
            MurphyAction::Slurp
        } else {
            MurphyAction::Eat
        },
        TileState::Moveable => {
            if dir == TileMove::Left || dir == TileMove::Right {
                let coord3 = coord2.offset(&dir);
                if grid.get(&coord3).typ == TileType::Empty {
                    if murphy.upd > -MOVE_TIME {
                        return MurphyAction::Lean;
                    }
                    return MurphyAction::Push;
                }
            }
            MurphyAction::Blocked
        },
        TileState::Tunnelable => {
            let coord3 = coord2.offset(&dir);
            if grid.get(&coord3).typ == TileType::Empty && tile2.typ.accepts(dir) {
                MurphyAction::Tunnel
            } else {
                MurphyAction::Blocked
            }
        },
        _ => MurphyAction::Blocked,
    }
}

/// Books a consumed tile of category `typ`.
fn collect(level_data: &mut LevelData, typ: TileType)
    ensures
        final(level_data)@ == collected(old(level_data)@, typ),
{
    if typ == TileType::Infotron {
        if level_data.infotrons_required > i32::MIN {
            level_data.infotrons_required -= 1;
        }
    } else if typ == TileType::RedUtilityDisk {
        if level_data.red_utility_disks < u32::MAX {
            level_data.red_utility_disks += 1;
        }
    }
}

/// Blows up every yellow disk of the grid.
#[verifier::loop_isolation(false)]
fn detonate(grid: &mut Grid, level_data: &mut LevelData)
    requires
        old(grid).wf(),
    ensures
        final(grid).wf(),
        final(grid).width == old(grid).width,
        final(grid).height == old(grid).height,
        world_of(*final(grid), *final(level_data)) == detonated(
            world_of(*old(grid), *old(level_data)),
        ),
{
    let ghost f = |v: World, c: Coord| detonate_cell(v, c);
    let ghost goal = detonated(world_of(*grid, *level_data));
    let height = grid.height;
    let width = grid.width;
    let mut y: i16 = 0;
    while y < height
        invariant
            0 <= y <= height,
            grid.wf(),
            grid.width == width,
            grid.height == height,
            sweep_rows(f, world_of(*grid, *level_data), width as int, height as int, y as int)
                == goal,
        decreases height - y,
    {
        let mut x: i16 = 0;
        while x < width
            invariant
                0 <= x <= width,
                0 <= y < height,
                grid.wf(),
                grid.width == width,
                grid.height == height,
                sweep_rows(
                    f,
                    sweep_row(f, world_of(*grid, *level_data), width as int, y as int, x as int),
                    width as int,
                    height as int,
                    y + 1,
                ) == goal,
            decreases width - x,
        {
            let special_coord = Coord::new(x, y);
            let ghost before = world_of(*grid, *level_data);
            if grid.get(&special_coord).typ == TileType::YellowUtilityDisk {
                set_area_explode(&special_coord, grid, &mut level_data.game_state);
            }
            proof {
                assert(world_of(*grid, *level_data) == f(before, special_coord));
                assert(sweep_row(f, before, width as int, y as int, x as int) == sweep_row(
                    f,
                    f(before, special_coord),
                    width as int,
                    y as int,
                    x + 1,
                ));
            }
            x += 1;
        }
        y += 1;
    }
}

/// Lets the player at `coord` act on the held directions, and returns the
/// cell the player is in afterwards.
#[verifier::loop_isolation(false)]
pub fn murphy_system(coord: &Coord, grid: &mut Grid, level_data: &mut LevelData) -> (at: Coord)
    requires
        old(grid).wf(),
        coord.is_inner(),
    ensures
        final(grid).wf(),
        final(grid).width == old(grid).width,
        final(grid).height == old(grid).height,
        world_of(*final(grid), *final(level_data)) == murphy_step(
            world_of(*old(grid), *old(level_data)),
            *coord,
        ).world,
        at == murphy_step(world_of(*old(grid), *old(level_data)), *coord).at,
{
    let murphy = grid.get(coord);
    if murphy.upd > 0 {
        return *coord;
    }
    let ghost w0 = world_of(*grid, *level_data);
    let ghost dirs = level_data.move_priority@;
    proof {
        grid.lemma_view();
        assert(dirs.skip(0) =~= dirs);
    }
    let mut i: usize = 0;
    while i < level_data.move_priority.len()
        invariant
            0 <= i <= dirs.len(),
            grid.wf(),
            grid@.wf(),
            coord.is_inner(),
            world_of(*grid, *level_data) == w0,
            dirs == level_data.move_priority@,
            murphy == w0.grid.at(*coord),
            first_legal(w0, *coord, dirs) == first_legal(w0, *coord, dirs.skip(i as int)),
        decreases dirs.len() - i,
    {
        let dir = level_data.move_priority[i];
        let action = consider(coord, grid, level_data, dir);
        proof {
            let rest = dirs.skip(i as int);
            assert(rest[0] == dir);
            assert(rest.skip(1) =~= dirs.skip(i + 1));
            assert(first_legal(w0, *coord, rest) == if action != MurphyAction::Blocked {
                Some(dir)
            } else {
                first_legal(w0, *coord, dirs.skip(i + 1))
            });
        }
        let coord2 = coord.offset(&dir);
        let tile2 = grid.get(&coord2);
        let side = match dir {
            TileMove::Right | TileMove::Left => dir,
            _ => murphy.mov2,
        };
        match action {
            MurphyAction::Blocked => {},
            MurphyAction::Finish => {
                level_data.game_state = GameState::Finished;
                return *coord;
            },
            MurphyAction::Detonate => {
                detonate(grid, level_data);
                return *coord;
            },
            MurphyAction::Die => {
                set_area_explode(coord, grid, &mut level_data.game_state);
                return *coord;
            },
            MurphyAction::Eat => {
                let upd = murphy.upd.move_update();
                collect(level_data, tile2.typ);
                grid.set(
                    &coord2,
                    Tile::murphy(upd, dir, side, TileInteraction::Eating(tile2.typ)),
                );
                grid.set(coord, Tile::transitory(upd, TileType::Empty));
                return coord2;
            },
            MurphyAction::Slurp => {
                let upd = murphy.upd.move_update();
                collect(level_data, tile2.typ);
                grid.set(&coord2, Tile::transitory(upd, tile2.typ));
                grid.set(coord, Tile::murphy(upd, dir, side, TileInteraction::Slurping));
                return *coord;
            },
            MurphyAction::Lean => {
                let mut leaning = murphy;
                leaning.interaction = TileInteraction::Pushing;
                leaning.mov = dir;
                leaning.mov2 = side;
                grid.set(coord, leaning);
                return *coord;
            },
            MurphyAction::Push => {
                let coord3 = coord2.offset(&dir);
                let upd = add_time(murphy.upd, PUSH_TIME);
                grid.set(&coord3, tile2.moving(upd, dir));
                grid.set(&coord2, Tile::murphy(upd, dir, side, TileInteraction::Pushing));
                grid.set(coord, Tile::transitory(upd, TileType::Empty));
                return coord2;
            },
            MurphyAction::Tunnel => {
                let coord3 = coord2.offset(&dir);
                let upd = murphy.upd.move_update();
                grid.set(
                    &coord3,
                    Tile::murphy(upd, dir, side, TileInteraction::Tunneling(tile2.typ)),
                );
                grid.set(coord, Tile::transitory(upd, TileType::Empty));
                return coord3;
            },
        }
        i += 1;
    }
    let mut idle = murphy;
    idle.upd.dont_update();
    idle.interaction = TileInteraction::Idle;
    grid.set(coord, idle);
    *coord
}

/// Pixels in the width of a cell.
pub const CELL_PIXELS: i64 = 16;

/// Where the camera looks when the player `murphy` is in cell `c`: at the
/// middle of the player's sprite, in thousandths of a pixel. The sprite is
/// in its cell while the player idles or consumes from a distance, and on
/// its way there otherwise.
pub open spec fn camera_focus(murphy: Tile, c: Coord) -> FCoord {
    let pos = if murphy.interaction == TileInteraction::Idle || murphy.interaction
        == TileInteraction::Slurping {
        c.as_fcoord()
    } else {
        c.to_fcoord(&murphy)
    };
    FCoord {
        x: (pos.x * CELL_PIXELS + CELL_PIXELS / 2 * CELL) as i64,
        y: (pos.y * CELL_PIXELS + CELL_PIXELS / 2 * CELL) as i64,
    }
}

pub fn set_cam_pos(murphy: &Tile, coord: &Coord, level_data: &mut LevelData)
    ensures
        final(level_data)@ == (LevelDataView {
            camera_target: Some(camera_focus(*murphy, *coord)),
            ..old(level_data)@
        }),
{
    let pos = if murphy.interaction == TileInteraction::Idle || murphy.interaction
        == TileInteraction::Slurping {
        coord.as_fcoord()
    } else {
        coord.to_fcoord(murphy)
    };
    level_data.camera_target = Some(
        FCoord::new(
            pos.x * CELL_PIXELS + CELL_PIXELS / 2 * CELL,
            pos.y * CELL_PIXELS + CELL_PIXELS / 2 * CELL,
        ),
    );
}

/// Of the held directions the first in which something can be done
/// decides, and those after it are not looked at: if nothing can be done in
/// the first `i` directions and something can in the next, the player does
/// that.
pub proof fn lemma_first_legal(w: World, c: Coord, dirs: Seq<TileMove>, i: int)
    requires
        0 <= i < dirs.len(),
        forall|j: int| 0 <= j < i ==> murphy_action(w, c, #[trigger] dirs[j]) == MurphyAction::Blocked,
        murphy_action(w, c, dirs[i]) != MurphyAction::Blocked,
    ensures
        first_legal(w, c, dirs) == Some(dirs[i]),
    decreases i,
{
    if i > 0 {
        let rest = dirs.skip(1);
        assert forall|j: int| 0 <= j < i - 1 implies murphy_action(w, c, #[trigger] rest[j])
            == MurphyAction::Blocked by {
            assert(rest[j] == dirs[j + 1]);
        }
        assert(rest[i - 1] == dirs[i]);
        lemma_first_legal(w, c, rest, i - 1);
    }
}

/// In the direction that is chosen something can be done.
pub proof fn lemma_legal(w: World, c: Coord, dirs: Seq<TileMove>)
    ensures
        first_legal(w, c, dirs) matches Some(dir) ==> murphy_action(w, c, dir)
            != MurphyAction::Blocked,
    decreases dirs.len(),
{
    if dirs.len() > 0 && murphy_action(w, c, dirs[0]) == MurphyAction::Blocked {
        lemma_legal(w, c, dirs.skip(1));
    }
}

/// With nothing to be done in any of the held directions, none is chosen.
pub proof fn lemma_none_legal(w: World, c: Coord, dirs: Seq<TileMove>)
    requires
        forall|j: int|
            0 <= j < dirs.len() ==> murphy_action(w, c, #[trigger] dirs[j])
                == MurphyAction::Blocked,
    ensures
        first_legal(w, c, dirs) is None,
    decreases dirs.len(),
{
    if dirs.len() > 0 {
        let rest = dirs.skip(1);
        assert forall|j: int| 0 <= j < rest.len() implies murphy_action(w, c, #[trigger] rest[j])
            == MurphyAction::Blocked by {
            assert(rest[j] == dirs[j + 1]);
        }
        lemma_none_legal(w, c, rest);
    }
}

/// With two directions held of which only the second allows anything, the
/// player does what the second allows; with the first allowing something,
/// the player does that, whatever the second would allow; with neither
/// allowing anything, the player idles.
pub proof fn lemma_input_priority(w: World, c: Coord, first: TileMove, second: TileMove)
    requires
        w.grid.at(c).upd <= 0,
        w.data.move_priority == seq![first, second],
    ensures
        murphy_action(w, c, first) != MurphyAction::Blocked ==> murphy_step(w, c) == murphy_act(
            w,
            c,
            first,
        ),
        murphy_action(w, c, first) == MurphyAction::Blocked && murphy_action(w, c, second)
            != MurphyAction::Blocked ==> murphy_step(w, c) == murphy_act(w, c, second),
        murphy_action(w, c, first) == MurphyAction::Blocked && murphy_action(w, c, second)
            == MurphyAction::Blocked ==> murphy_step(w, c) == (MurphyOutcome {
            world: World { grid: w.grid.put(c, idled(w.grid.at(c))), ..w },
            at: c,
        }),
{
    let dirs = w.data.move_priority;
    if murphy_action(w, c, first) != MurphyAction::Blocked {
        lemma_first_legal(w, c, dirs, 0);
    } else if murphy_action(w, c, second) != MurphyAction::Blocked {
        lemma_first_legal(w, c, dirs, 1);
    } else {
        lemma_none_legal(w, c, dirs);
    }
}

/// Operating a terminal changes nothing of the shared state but the state
/// of the game, and that only to lost.
pub proof fn lemma_detonated_data(w: World)
    requires
        w.grid.wf(),
    ensures
        detonated(w).data == (LevelDataView {
            game_state: detonated(w).data.game_state,
            ..w.data
        }),
        detonated(w).data.game_state == w.data.game_state || detonated(w).data.game_state
            == GameState::Died,
        detonated(w).grid.width == w.grid.width,
        detonated(w).grid.height == w.grid.height,
        detonated(w).grid.wf(),
{
    let f = |v: World, c: Coord| detonate_cell(v, c);
    let inv = |v: World|
        {
            &&& v.data == (LevelDataView { game_state: v.data.game_state, ..w.data })
            &&& v.data.game_state == w.data.game_state || v.data.game_state == GameState::Died
            &&& v.grid.width == w.grid.width
            &&& v.grid.height == w.grid.height
            &&& v.grid.wf()
        };
    assert forall|v: World, c: Coord| inv(v) implies inv(#[trigger] f(v, c)) by {
        super::explode_system::lemma_explosion(v.grid, c, c);
    }
    crate::level::lemma_sweep_keeps(f, inv, w, w.grid.width, w.grid.height);
}

/// Stepping towards the exit when no infotron is required any more wins the
/// game and changes nothing else. While infotrons are required the exit
/// lets nobody out, and nothing the player does wins the game.
pub proof fn lemma_exit(w: World, c: Coord)
    requires
        w.grid.wf(),
        w.grid.at(c).upd <= 0,
        w.data.move_priority.len() > 0,
        w.grid.at(c.step(w.data.move_priority[0])).typ == TileType::Exit,
    ensures
        w.data.infotrons_required <= 0 ==> murphy_step(w, c) == (MurphyOutcome {
            world: World {
                data: LevelDataView { game_state: GameState::Finished, ..w.data },
                ..w
            },
            at: c,
        }),
        w.data.infotrons_required <= 0 ==> murphy_step(w, c).world.data.game_state
            == GameState::Finished,
        w.data.infotrons_required > 0 ==> murphy_action(w, c, w.data.move_priority[0])
            != MurphyAction::Finish,
        w.data.infotrons_required > 0 && w.data.game_state != GameState::Finished ==> murphy_step(
            w,
            c,
        ).world.data.game_state != GameState::Finished,
{
    if w.data.infotrons_required > 0 {
        lemma_stays_shut(w, c);
    } else {
        lemma_first_legal(w, c, w.data.move_priority, 0);
    }
}

/// While infotrons are required, nothing the player does wins the game.
pub proof fn lemma_stays_shut(w: World, c: Coord)
    requires
        w.grid.wf(),
        w.data.infotrons_required > 0,
    ensures
        murphy_step(w, c).world.data.game_state == w.data.game_state || murphy_step(
            w,
            c,
        ).world.data.game_state == GameState::Died,
{
    lemma_detonated_data(w);
}

/// The player system leaves the grid the size it was, and well-formed if
/// it was.
pub proof fn lemma_murphy_shape(w: World, c: Coord)
    requires
        w.grid.wf(),
    ensures
        murphy_step(w, c).world.grid.wf(),
        murphy_step(w, c).world.grid.width == w.grid.width,
        murphy_step(w, c).world.grid.height == w.grid.height,
{
    let g = w.grid;
    lemma_detonated_data(w);
    super::explode_system::lemma_explosion(g, c, c);
    assert forall|d: Coord, t: Tile| #![trigger g.put(d, t)] g.put(d, t).wf() by {
        crate::grid::lemma_put(g, d, t, d);
    }
    assert forall|d: Coord, e: Coord, t: Tile, u: Tile| #![trigger g.put(d, t).put(e, u)]
        g.put(d, t).put(e, u).wf() by {
        crate::grid::lemma_put(g.put(d, t), e, u, e);
    }
    assert forall|d: Coord, e: Coord, k: Coord, t: Tile, u: Tile, v: Tile|
        #![trigger g.put(d, t).put(e, u).put(k, v)]
        g.put(d, t).put(e, u).put(k, v).wf() by {
        crate::grid::lemma_put(g.put(d, t).put(e, u), k, v, k);
    }
}

} // verus!
