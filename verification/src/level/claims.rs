//! Claims. A tile that moves claims the cell it moves into, and a claimed
//! cell stays out of reach for the rest of the scan: no second tile moves
//! into it before every cell has had its visit.
//!
//! This rests on timers being looked after. A tile that moves is locked in
//! its new cell by the timer of the move, and a blast holds its cell by the
//! timer of the explosion; both timers start from the timer of the tile
//! that acts, which must not have run too far past zero. A grid in which
//! no timer has is called tended. Every level starts out tended, and a
//! tick keeps it so, as long as ticks are no longer than a quarter turn,
//! with two exceptions, both of which leave a timer running that has run
//! out: an object that has come down on an actor that is being pushed
//! waits for as long as the push lasts, and a player who operates a
//! terminal can go on doing so. Yellow disks are a case of their own: no
//! system owns them, their timers run for good, and an old disk that a
//! terminal sets off makes blasts that are over before they begin. Such
//! blasts hold no cell. So the timers of the yellow disks are asked about
//! where a terminal is operated, and nowhere else.

use vstd::prelude::*;
use crate::grid::{Coord, GridView};
use crate::level::{
    aged, dispatch, lemma_sweep_keeps, readied, scaled_time, scanned, sweep, sweep_row,
    sweep_rows, ticked, GameState, TickInput, World,
};
use crate::tile_data::systems::ai_system::{ai_action, ai_step, AiAction};
use crate::tile_data::systems::explode_system::{area_exploded, explode_at, explode_step};
use crate::tile_data::systems::gravity_system::{gravity_action, gravity_step, GravityAction};
use crate::tile_data::systems::murphy_system::{
    detonate_cell, detonated, first_legal, murphy_act, murphy_action, murphy_step, MurphyAction,
};
use crate::tile_data::systems::orange_disk_system::orange_disk_step;
use crate::tile_data::systems::transitory_system::transitory_step;
use crate::tile_data::tile::Tile;
use crate::tile_data::tile_interaction::TileInteraction;
use crate::tile_data::tile_move::TileMove;
use crate::tile_data::tile_state::TileState;
use crate::tile_data::tile_type::TileType;
use crate::tile_data::tile_update::{
    timer_plus, EXPLOSION_TIME, MOVE_TIME, PUSH_TIME, TURN_TIME,
};

verus! {

/// Whether `tile` only stands in for something: a placeholder or a blast.
pub open spec fn is_stand_in(tile: Tile) -> bool {
    tile.typ == TileType::Transitory || tile.typ == TileType::Explosion || tile.typ
        == TileType::Explosion2
}

/// The cells that a visit to `c` has moved a tile into, going by the grid
/// `before` and `after` it: the cells other than `c` that hold something
/// else than before which does not just stand in for something.
pub open spec fn entered(before: GridView, after: GridView, c: Coord) -> Set<Coord> {
    Set::new(|d: Coord| d != c && after.at(d) != before.at(d) && !is_stand_in(after.at(d)))
}

/// Whether `tile` has not been left to itself for too long: its timer has
/// not run further past zero than the system that owns it lets it. A tile
/// that moves acts as soon as its timer has run out, so that it is never a
/// whole move behind. The player may be up to a whole move behind while
/// leaning against something. A delayed blast goes off as soon as its
/// timer has run out. Categories that no system owns are not asked
/// anything.
pub open spec fn is_fresh(tile: Tile) -> bool {
    match tile.typ {
        TileType::Infotron | TileType::Zonk | TileType::OrangeUtilityDisk | TileType::SnikSnak => {
            tile.upd > -MOVE_TIME
        },
        TileType::Murphy => tile.upd > -PUSH_TIME,
        TileType::Explosion2 => tile.upd > -EXPLOSION_TIME,
        _ => true,
    }
}

/// Whether `tile` can be left to itself for the time of a quarter turn and
/// still be fresh.
pub open spec fn is_rested(tile: Tile) -> bool {
    is_fresh(tile.after(TURN_TIME))
}

/// Whether no yellow disk of `g` is a whole blast behind. No system owns
/// the yellow disks and nothing but a push ever sets their timers: this
/// matters when a terminal sets them off, and only then.
pub open spec fn disks_fresh(g: GridView) -> bool {
    forall|c: Coord|
        (#[trigger] g.at(c)).typ == TileType::YellowUtilityDisk ==> g.at(c).upd
            > -EXPLOSION_TIME
}

/// Whether a visit to `c` has the player operate a terminal.
pub open spec fn operates(w: World, c: Coord) -> bool {
    &&& w.grid.at(c).typ == TileType::Murphy
    &&& w.grid.at(c).upd <= 0
    &&& first_legal(w, c, w.data.move_priority) matches Some(dir) && murphy_action(w, c, dir)
        == MurphyAction::Detonate
}

/// Whether a visit to `c` finds an object that has come down on an actor
/// that is being pushed, and has to wait.
pub open spec fn hangs(w: World, c: Coord) -> bool {
    &&& w.grid.at(c).typ == TileType::Infotron || w.grid.at(c).typ == TileType::Zonk
    &&& gravity_action(w.grid, c) == GravityAction::Hang
}

/// Whether a visit to `c` lets a timer lapse: it leaves a timer running
/// that has run out, for longer than is good. The two visits that leave
/// such a timer running are that to an object that has to wait, and that
/// to the player operating a terminal; the timer has lapsed when the tile
/// is no longer rested.
pub open spec fn lapses(w: World, c: Coord) -> bool {
    (hangs(w, c) || operates(w, c)) && !is_rested(w.grid.at(c))
}

/// Whether the physical state of `tile` is one that its category can have,
/// as far as claims depend on it: an enemy and a blast are dangerous, a
/// placeholder is destructible, and empty space is eatable.
pub open spec fn is_coherent(tile: Tile) -> bool {
    &&& tile.typ == TileType::SnikSnak ==> tile.state == TileState::Dangerous
    &&& tile.typ == TileType::Explosion ==> tile.state == TileState::Dangerous
    &&& tile.typ == TileType::Explosion2 ==> tile.state == TileState::Dangerous
    &&& tile.typ == TileType::Transitory ==> tile.state == TileState::Destructible
    &&& tile.typ == TileType::Empty ==> tile.state == TileState::Eatable
}

/// Whether every tile of `g` is fresh and coherent.
pub open spec fn is_tended(g: GridView) -> bool {
    forall|c: Coord| is_fresh(#[trigger] g.at(c)) && is_coherent(g.at(c))
}

/// A level starts out tended, and stays so as long as less than the time
/// of a move passes before its first scan: every tile that a level file
/// can name is fresh and coherent then.
pub proof fn lemma_start_is_tended(typ: TileType, time: i32)
    requires
        0 <= time < MOVE_TIME,
    ensures
        is_fresh(typ.to_tile().after(time)),
        is_coherent(typ.to_tile().after(time)),
        is_fresh(Tile::border()),
        is_coherent(Tile::border()),
{
}

/// The cell that a tile in `d` has come from if it moves as `tile` says.
pub open spec fn behind(d: Coord, tile: Tile) -> Coord {
    d.step(tile.mov.opposite())
}

/// Whether `tile` is the player arriving late: with a timer that has run
/// out already, though by less than a move.
pub open spec fn is_late_murphy(tile: Tile) -> bool {
    tile.typ == TileType::Murphy && tile.state == TileState::Destructible && tile.upd > -MOVE_TIME
}

/// Whether nothing moves into a cell that holds `tile`, and `tile` does
/// not move on to make room.
pub open spec fn is_shut(tile: Tile) -> bool {
    &&& tile.typ != TileType::Empty
    &&& tile.state != TileState::Eatable
    &&& tile.state != TileState::Moveable
    &&& tile.upd > 0 || is_late_murphy(tile)
}

/// Whether the claimed cell `d` is out of reach in `g`, given that the
/// cells `claimed` are claimed. Either it is shut, or it holds something
/// that has just been pushed there by the player, who is still busy in the
/// cell behind it.
pub open spec fn is_locked(g: GridView, claimed: Set<Coord>, d: Coord) -> bool {
    let tile = g.at(d);
    ||| is_shut(tile)
    ||| {
        &&& tile.typ != TileType::Empty
        &&& tile.state == TileState::Moveable
        &&& tile.mov.is_lateral()
        &&& tile.upd > 0
        &&& claimed.contains(behind(d, tile))
        &&& g.at(behind(d, tile)).upd > 0
    }
}

/// Whether every claimed cell is out of reach.
pub open spec fn all_locked(g: GridView, claimed: Set<Coord>) -> bool {
    forall|d: Coord| #[trigger] claimed.contains(d) ==> is_locked(g, claimed, d)
}

/// Whether a visit to `c` that turns the grid `before` into `after`
/// respects the claims `claimed`: it moves nothing into a claimed cell, and
/// leaves the grid tended and all claims, old and new, locked.
pub open spec fn respects(before: GridView, after: GridView, claimed: Set<Coord>, c: Coord) -> bool {
    &&& entered(before, after, c).disjoint(claimed)
    &&& is_tended(after)
    &&& all_locked(after, claimed.union(entered(before, after, c)))
}

/// Whether `tile` is a blast whose timer runs.
pub open spec fn is_live_blast(tile: Tile) -> bool {
    &&& tile.typ == TileType::Explosion || tile.typ == TileType::Explosion2
    &&& tile.state == TileState::Dangerous
    &&& tile.upd > 0
}

/// Whether a tile whose timer runs has been left alone: `after` is what
/// `before` was, but for a new facing perhaps.
pub open spec fn is_kept(before: Tile, after: Tile) -> bool {
    ||| after == before
    ||| {
        &&& after.upd > 0
        &&& after.typ == before.typ
        &&& after.state == before.state
        &&& before.state != TileState::Moveable
    }
}

/// Whether what a visit to `c` has made of cell `d` is in keeping with the
/// claims `claimed`. The visit may have left the cell alone, or have turned
/// it into a blast whose timer runs. It may have changed its own cell, but
/// a tile whose timer runs only by turning it, and a claimed cell only so
/// that it stays shut. It may have put a placeholder into an unclaimed
/// cell. And it may have moved a tile into an unclaimed cell that is now
/// out of reach.
pub open spec fn is_fair(
    before: GridView,
    after: GridView,
    claimed: Set<Coord>,
    c: Coord,
    d: Coord,
) -> bool {
    let old_tile = before.at(d);
    let new_tile = after.at(d);
    ||| new_tile == old_tile
    ||| is_live_blast(new_tile)
    ||| {
        &&& d == c
        &&& is_fresh(new_tile)
        &&& is_coherent(new_tile)
        &&& new_tile.typ != TileType::YellowUtilityDisk
        &&& claimed.contains(c) && old_tile.upd > 0 ==> is_kept(old_tile, new_tile)
        &&& claimed.contains(c) && old_tile.upd <= 0 ==> is_shut(new_tile)
    }
    ||| {
        &&& d != c
        &&& !claimed.contains(d)
        &&& new_tile.typ == TileType::Transitory
        &&& new_tile.state == TileState::Destructible
    }
    ||| {
        &&& d != c
        &&& !claimed.contains(d)
        &&& is_fresh(new_tile)
        &&& is_coherent(new_tile)
        &&& new_tile.upd > -EXPLOSION_TIME
        &&& is_locked(after, claimed.union(entered(before, after, c)), d)
    }
}

/// A visit that is fair to every cell respects the claims.
pub proof fn lemma_fair_respects(before: GridView, after: GridView, claimed: Set<Coord>, c: Coord)
    requires
        is_tended(before),
        all_locked(before, claimed),
        forall|d: Coord| is_fair(before, after, claimed, c, d),
    ensures
        respects(before, after, claimed, c),
        disks_fresh(before) ==> disks_fresh(after),
{
    if disks_fresh(before) {
        assert forall|d: Coord|
            (#[trigger] after.at(d)).typ == TileType::YellowUtilityDisk implies after.at(d).upd
            > -EXPLOSION_TIME by {
            assert(is_fair(before, after, claimed, c, d));
            assert(before.at(d).typ == TileType::YellowUtilityDisk ==> before.at(d).upd
                > -EXPLOSION_TIME);
        }
    }
    let fresh = entered(before, after, c);
    let all = claimed.union(fresh);
    assert forall|d: Coord| fresh.contains(d) implies !claimed.contains(d) by {
        assert(is_fair(before, after, claimed, c, d));
    }
    assert forall|d: Coord| is_fresh(#[trigger] after.at(d)) && is_coherent(after.at(d)) by {
        assert(is_fair(before, after, claimed, c, d));
        assert(is_fresh(before.at(d)) && is_coherent(before.at(d)));
    }
    assert forall|d: Coord| #[trigger] all.contains(d) implies is_locked(after, all, d) by {
        assert(is_fair(before, after, claimed, c, d));
        if claimed.contains(d) {
            assert(is_locked(before, claimed, d));
            let tile = before.at(d);
            if !is_shut(tile) {
                let b = behind(d, tile);
                assert(is_fair(before, after, claimed, c, b));
                assert(is_locked(before, claimed, b));
            }
        }
    }
}

/// An explosion is fair to every cell, provided that what sets it off is
/// not a whole blast behind.
pub proof fn lemma_blast_fair(g: GridView, claimed: Set<Coord>, c: Coord, center: Coord, d: Coord)
    requires
        g.at(center).upd > -EXPLOSION_TIME,
    ensures
        is_fair(g, area_exploded(g, center), claimed, c, d),
        area_exploded(g, center).at(d) == g.at(d) || is_live_blast(area_exploded(g, center).at(d)),
{
}

/// A tile that sets out from `c` in direction `dir` for an empty cell, and
/// leaves a placeholder behind, is fair to every cell.
proof fn lemma_move_fair(
    g: GridView,
    claimed: Set<Coord>,
    c: Coord,
    dir: TileMove,
    arriving: Tile,
    left: Tile,
    d: Coord,
)
    requires
        g.wf(),
        g.has(c),
        is_tended(g),
        all_locked(g, claimed),
        g.at(c).upd <= 0,
        g.at(c.step(dir)).typ == TileType::Empty,
        is_fresh(arriving),
        is_coherent(arriving),
        is_shut(arriving),
        !is_stand_in(arriving),
        left.typ == TileType::Transitory,
        left.state == TileState::Destructible,
        left.upd > 0,
    ensures
        is_fair(g, g.put(c.step(dir), arriving).put(c, left), claimed, c, d),
{
    let target = c.step(dir);
    let after = g.put(target, arriving).put(c, left);
    assert(g.has(target));
    if d == target && d != c {
        if claimed.contains(d) {
            assert(is_locked(g, claimed, d));
        }
        assert(after.at(d) == arriving);
    }
}

/// Gravity is fair to every cell.
pub proof fn lemma_gravity_fair(w: World, claimed: Set<Coord>, c: Coord, d: Coord)
    requires
        w.grid.wf(),
        w.grid.has(c),
        is_tended(w.grid),
        all_locked(w.grid, claimed),
        w.grid.at(c).typ == TileType::Infotron || w.grid.at(c).typ == TileType::Zonk,
    ensures
        is_fair(w.grid, gravity_step(w, c).grid, claimed, c, d),
{
    let g = w.grid;
    let tile = g.at(c);
    let upd = timer_plus(tile.upd, MOVE_TIME);
    let left = Tile::transitory(upd, TileType::Empty);
    assert(is_fresh(tile));
    if claimed.contains(c) {
        assert(is_locked(g, claimed, c));
    }
    match gravity_action(g, c) {
        GravityAction::Busy | GravityAction::Hang => {},
        GravityAction::Crash => {
            lemma_blast_fair(g, claimed, c, c, d);
        },
        GravityAction::Settle => {},
        GravityAction::Fall => {
            let arriving = tile.mov_state(upd, TileMove::Down, TileState::Dangerous);
            lemma_move_fair(g, claimed, c, TileMove::Down, arriving, left, d);
        },
        GravityAction::SlideLeft => {
            let arriving = tile.mov_state(upd, TileMove::Left, TileState::Dangerous);
            lemma_move_fair(g, claimed, c, TileMove::Left, arriving, left, d);
        },
        GravityAction::SlideRight => {
            let arriving = tile.mov_state(upd, TileMove::Right, TileState::Dangerous);
            lemma_move_fair(g, claimed, c, TileMove::Right, arriving, left, d);
        },
    }
}

/// The orange-disk system is fair to every cell.
pub proof fn lemma_orange_disk_fair(w: World, claimed: Set<Coord>, c: Coord, d: Coord)
    requires
        w.grid.wf(),
        w.grid.has(c),
        is_tended(w.grid),
        all_locked(w.grid, claimed),
        w.grid.at(c).typ == TileType::OrangeUtilityDisk,
    ensures
        is_fair(w.grid, orange_disk_step(w, c).grid, claimed, c, d),
{
    let g = w.grid;
    let tile = g.at(c);
    let below = g.at(c.step(TileMove::Down));
    let upd = timer_plus(tile.upd, MOVE_TIME);
    assert(is_fresh(tile));
    if claimed.contains(c) {
        assert(is_locked(g, claimed, c));
    }
    if tile.upd > 0 {
    } else if below.typ == TileType::Empty {
        let arriving = tile.mov_state(upd, TileMove::Down, TileState::Dangerous);
        lemma_move_fair(
            g,
            claimed,
            c,
            TileMove::Down,
            arriving,
            Tile::transitory(upd, TileType::Empty),
            d,
        );
    } else {
        lemma_blast_fair(g, claimed, c, c, d);
    }
}

/// The placeholder system is fair to every cell.
pub proof fn lemma_transitory_fair(w: World, claimed: Set<Coord>, c: Coord, d: Coord)
    requires
        is_tended(w.grid),
        all_locked(w.grid, claimed),
        w.grid.at(c).typ == TileType::Transitory,
    ensures
        is_fair(w.grid, transitory_step(w, c).grid, claimed, c, d),
{
    if claimed.contains(c) {
        assert(is_locked(w.grid, claimed, c));
    }
}

/// The blast system is fair to every cell.
pub proof fn lemma_explode_fair(w: World, claimed: Set<Coord>, c: Coord, d: Coord)
    requires
        is_tended(w.grid),
        all_locked(w.grid, claimed),
        w.grid.at(c).typ == TileType::Explosion || w.grid.at(c).typ == TileType::Explosion2,
    ensures
        is_fair(w.grid, explode_step(w, c).grid, claimed, c, d),
{
    let g = w.grid;
    assert(is_fresh(g.at(c)));
    if claimed.contains(c) {
        assert(is_locked(g, claimed, c));
    }
    if g.at(c).upd <= 0 && g.at(c).typ == TileType::Explosion2 {
        lemma_blast_fair(g, claimed, c, c, d);
    }
}

/// The enemy system is fair to every cell.
pub proof fn lemma_ai_fair(w: World, claimed: Set<Coord>, c: Coord, d: Coord)
    requires
        w.grid.wf(),
        w.grid.has(c),
        is_tended(w.grid),
        all_locked(w.grid, claimed),
        w.grid.at(c).typ == TileType::SnikSnak,
    ensures
        is_fair(w.grid, ai_step(w, c).grid, claimed, c, d),
{
    let g = w.grid;
    let ai = g.at(c);
    let upd = timer_plus(ai.upd, MOVE_TIME);
    assert(is_fresh(ai) && is_coherent(ai));
    if claimed.contains(c) {
        assert(is_locked(g, claimed, c));
    }
    match ai_action(g, c) {
        AiAction::Advance => {
            let arriving = ai.ai(upd, ai.mov, ai.mov, TileInteraction::Moving);
            lemma_move_fair(
                g,
                claimed,
                c,
                ai.mov,
                arriving,
                Tile::transitory(upd, TileType::Empty),
                d,
            );
        },
        AiAction::Attack => {
            lemma_blast_fair(g, claimed, c, c, d);
        },
        _ => {},
    }
}

/// Operating a terminal leaves every cell alone or turns it into a blast
/// whose timer runs.
pub proof fn lemma_detonated_cells(w: World, d: Coord)
    requires
        w.grid.wf(),
        disks_fresh(w.grid),
    ensures
        detonated(w).grid.at(d) == w.grid.at(d) || is_live_blast(detonated(w).grid.at(d)),
{
    let g = w.grid;
    let f = |v: World, c: Coord| detonate_cell(v, c);
    let inv = |v: World|
        forall|e: Coord| #[trigger] v.grid.at(e) == g.at(e) || is_live_blast(v.grid.at(e));
    assert forall|v: World, c: Coord| inv(v) implies inv(#[trigger] f(v, c)) by {
        if v.grid.at(c).typ == TileType::YellowUtilityDisk {
            assert(v.grid.at(c) == g.at(c));
            assert forall|e: Coord| #[trigger]
                f(v, c).grid.at(e) == g.at(e) || is_live_blast(f(v, c).grid.at(e)) by {
                lemma_blast_fair(v.grid, Set::empty(), c, c, e);
                assert(v.grid.at(e) == g.at(e) || is_live_blast(v.grid.at(e)));
            }
        }
    }
    lemma_sweep_keeps(f, inv, w, g.width, g.height);
    assert(inv(detonated(w)));
}

/// What the player does towards `dir` is fair to every cell.
proof fn lemma_murphy_act_fair(w: World, claimed: Set<Coord>, c: Coord, dir: TileMove, d: Coord)
    requires
        w.grid.wf(),
        w.grid.has(c),
        is_tended(w.grid),
        all_locked(w.grid, claimed),
        w.grid.at(c).typ == TileType::Murphy,
        w.grid.at(c).upd <= 0,
        murphy_action(w, c, dir) == MurphyAction::Detonate ==> disks_fresh(w.grid),
    ensures
        is_fair(w.grid, murphy_act(w, c, dir).world.grid, claimed, c, d),
{
    let g = w.grid;
    let murphy = g.at(c);
    let c2 = c.step(dir);
    let c3 = c2.step(dir);
    let target = g.at(c2);
    let after = murphy_act(w, c, dir).world.grid;
    let all = claimed.union(entered(g, after, c));
    assert(is_fresh(murphy) && is_coherent(murphy));
    assert(is_fresh(target) && is_coherent(target));
    if claimed.contains(c) {
        assert(is_locked(g, claimed, c));
    }
    if claimed.contains(c2) {
        assert(is_locked(g, claimed, c2));
    }
    if claimed.contains(c3) {
        assert(is_locked(g, claimed, c3));
    }
    match murphy_action(w, c, dir) {
        MurphyAction::Blocked | MurphyAction::Finish => {},
        MurphyAction::Detonate => {
            lemma_detonated_cells(w, d);
        },
        MurphyAction::Die => {
            lemma_blast_fair(g, claimed, c, c, d);
        },
        MurphyAction::Eat => {
            assert(!claimed.contains(c2));
            if d == c2 && d != c {
                assert(is_shut(after.at(d)));
            }
        },
        MurphyAction::Slurp => {
            assert(!claimed.contains(c2));
        },
        MurphyAction::Lean => {},
        MurphyAction::Push => {
            assert(g.has(c2));
            assert(dir.is_lateral());
            assert(c2 != c && c3 != c && c3 != c2);
            assert(!claimed.contains(c3));
            if claimed.contains(c2) {
                let b = behind(c2, target);
                assert(b == c || b == c3);
            }
            assert(!claimed.contains(c2));
            let upd = timer_plus(murphy.upd, PUSH_TIME);
            assert(upd > 0);
            assert(after.at(c3) == target.moving(upd, dir));
            assert(after.at(c2).typ == TileType::Murphy);
            assert(after.at(c2).state == TileState::Destructible);
            assert(entered(g, after, c).contains(c2));
            assert(all.contains(c2));
            assert(behind(c3, after.at(c3)) == c2);
            if d == c3 {
                assert(is_locked(after, all, d));
            }
            if d == c2 {
                assert(is_shut(after.at(d)));
            }
        },
        MurphyAction::Tunnel => {
            assert(g.has(c2));
            assert(!claimed.contains(c3));
            if d == c3 && d != c {
                assert(is_shut(after.at(d)));
            }
        },
    }
}

/// The player system is fair to every cell.
pub proof fn lemma_murphy_fair(w: World, claimed: Set<Coord>, c: Coord, d: Coord)
    requires
        w.grid.wf(),
        w.grid.has(c),
        is_tended(w.grid),
        all_locked(w.grid, claimed),
        w.grid.at(c).typ == TileType::Murphy,
        operates(w, c) ==> disks_fresh(w.grid),
    ensures
        is_fair(w.grid, murphy_step(w, c).world.grid, claimed, c, d),
{
    let g = w.grid;
    if g.at(c).upd <= 0 {
        assert(is_fresh(g.at(c)));
        if claimed.contains(c) {
            assert(is_locked(g, claimed, c));
        }
        match first_legal(w, c, w.data.move_priority) {
            Some(dir) => {
                lemma_murphy_act_fair(w, claimed, c, dir, d);
            },
            None => {},
        }
    }
}

/// Every visit of a scan is fair to every cell, and leaves the grid the
/// size it was.
pub proof fn lemma_visit_fair(playing: bool, w: World, claimed: Set<Coord>, c: Coord, d: Coord)
    requires
        w.grid.wf(),
        w.grid.has(c),
        is_tended(w.grid),
        all_locked(w.grid, claimed),
        playing && operates(w, c) ==> disks_fresh(w.grid),
    ensures
        is_fair(w.grid, dispatch(playing, w, c).grid, claimed, c, d),
{
    reveal(dispatch);
    match w.grid.at(c).typ {
        TileType::Infotron | TileType::Zonk => {
            if playing {
                lemma_gravity_fair(w, claimed, c, d);
            }
        },
        TileType::Murphy => {
            if playing {
                lemma_murphy_fair(w, claimed, c, d);
            }
        },
        TileType::OrangeUtilityDisk => {
            if playing {
                lemma_orange_disk_fair(w, claimed, c, d);
            }
        },
        TileType::Transitory => lemma_transitory_fair(w, claimed, c, d),
        TileType::SnikSnak => {
            if playing {
                lemma_ai_fair(w, claimed, c, d);
            }
        },
        TileType::Explosion | TileType::Explosion2 => lemma_explode_fair(w, claimed, c, d),
        _ => {},
    }
}

/// A tile that moves leaves a placeholder: whenever a visit to `c` moves a
/// tile into another cell, `c` itself holds a placeholder afterwards, and
/// the timer of the placeholder runs unless the tile that moved was a whole
/// move behind.
pub proof fn lemma_placeholder(playing: bool, w: World, c: Coord, d: Coord)
    requires
        w.grid.wf(),
        w.grid.has(c),
        entered(w.grid, dispatch(playing, w, c).grid, c).contains(d),
    ensures
        dispatch(playing, w, c).grid.at(c).typ == TileType::Transitory,
        w.grid.at(c).upd > -MOVE_TIME ==> dispatch(playing, w, c).grid.at(c).upd > 0,
{
    reveal(dispatch);
    let g = w.grid;
    match g.at(c).typ {
        TileType::Infotron | TileType::Zonk => {
            if gravity_action(g, c) == GravityAction::Crash {
                lemma_blast_fair(g, Set::empty(), c, c, d);
                crate::tile_data::systems::explode_system::lemma_explosion(g, c, d);
            }
        },
        TileType::OrangeUtilityDisk => {
            crate::tile_data::systems::explode_system::lemma_explosion(g, c, d);
        },
        TileType::SnikSnak => {
            crate::tile_data::systems::explode_system::lemma_explosion(g, c, d);
        },
        TileType::Explosion | TileType::Explosion2 => {
            crate::tile_data::systems::explode_system::lemma_explosion(g, c, d);
        },
        TileType::Murphy => {
            if playing && g.at(c).upd <= 0 {
                match first_legal(w, c, w.data.move_priority) {
                    Some(dir) => {
                        match murphy_action(w, c, dir) {
                            MurphyAction::Detonate => {
                                lemma_detonated_unmoved(w, d);
                            },
                            MurphyAction::Die => {
                                crate::tile_data::systems::explode_system::lemma_explosion(g, c, d);
                            },
                            _ => {},
                        }
                    },
                    None => {},
                }
            }
        },
        _ => {},
    }
}

/// Whether a step from `before` to `after`, made by a visit to `c`, has
/// moved a tile into `d` only if `d` was empty.
pub open spec fn enters_empty(before: GridView, after: GridView, c: Coord, d: Coord) -> bool {
    entered(before, after, c).contains(d) ==> before.at(d).typ == TileType::Empty
}

/// An explosion moves nothing.
proof fn lemma_blast_enters(w: World, c: Coord, d: Coord)
    ensures
        enters_empty(w.grid, explode_at(w, c).grid, c, d),
        enters_empty(w.grid, explode_step(w, c).grid, c, d),
{
    crate::tile_data::systems::explode_system::lemma_explosion(w.grid, c, d);
}

/// What falls moves into empty cells only.
proof fn lemma_gravity_enters(w: World, c: Coord, d: Coord)
    requires
        w.grid.wf(),
        w.grid.has(c),
    ensures
        enters_empty(w.grid, gravity_step(w, c).grid, c, d),
        enters_empty(w.grid, orange_disk_step(w, c).grid, c, d),
{
    lemma_blast_enters(w, c, d);
}

/// An enemy moves into empty cells only.
proof fn lemma_ai_enters(w: World, c: Coord, d: Coord)
    requires
        w.grid.wf(),
        w.grid.has(c),
    ensures
        enters_empty(w.grid, ai_step(w, c).grid, c, d),
{
    lemma_blast_enters(w, c, d);
}

/// The player moves into cells that are empty or hold something to eat or
/// to push, and pushes into empty cells.
proof fn lemma_murphy_enters(w: World, c: Coord, d: Coord)
    requires
        w.grid.wf(),
        w.grid.has(c),
        entered(w.grid, murphy_step(w, c).world.grid, c).contains(d),
    ensures
        w.grid.at(d).typ == TileType::Empty || w.grid.at(d).state == TileState::Eatable
            || w.grid.at(d).state == TileState::Moveable,
{
    if w.grid.at(c).upd <= 0 {
        match first_legal(w, c, w.data.move_priority) {
            Some(dir) => {
                let c2 = c.step(dir);
                match murphy_action(w, c, dir) {
                    MurphyAction::Detonate => {
                        lemma_detonated_unmoved(w, d);
                    },
                    MurphyAction::Die => {
                        lemma_blast_enters(w, c, d);
                    },
                    MurphyAction::Push => {
                        assert(w.grid.has(c2));
                    },
                    MurphyAction::Tunnel => {
                        assert(w.grid.has(c2));
                    },
                    _ => {},
                }
            },
            None => {},
        }
    }
}

/// A tile moves only into a cell that is open to it, on any grid: whenever
/// a visit to `c` moves a tile into a cell, that cell was empty, or the
/// visit is the player's and the cell held something to eat or something
/// to push.
pub proof fn lemma_entered_was_open(playing: bool, w: World, c: Coord, d: Coord)
    requires
        w.grid.wf(),
        w.grid.has(c),
        entered(w.grid, dispatch(playing, w, c).grid, c).contains(d),
    ensures
        w.grid.at(d).typ == TileType::Empty || (w.grid.at(c).typ == TileType::Murphy && (w.grid.at(
            d,
        ).state == TileState::Eatable || w.grid.at(d).state == TileState::Moveable)),
{
    reveal(dispatch);
    match w.grid.at(c).typ {
        TileType::Infotron | TileType::Zonk | TileType::OrangeUtilityDisk => {
            lemma_gravity_enters(w, c, d);
        },
        TileType::SnikSnak => lemma_ai_enters(w, c, d),
        TileType::Explosion | TileType::Explosion2 => lemma_blast_enters(w, c, d),
        TileType::Murphy => {
            if playing {
                lemma_murphy_enters(w, c, d);
            }
        },
        _ => {},
    }
}

/// Operating a terminal moves nothing: it leaves every cell alone or turns
/// it into a blast.
pub proof fn lemma_detonated_unmoved(w: World, d: Coord)
    requires
        w.grid.wf(),
    ensures
        detonated(w).grid.at(d) == w.grid.at(d) || is_stand_in(detonated(w).grid.at(d)),
{
    let g = w.grid;
    let f = |v: World, c: Coord| detonate_cell(v, c);
    let inv = |v: World| forall|e: Coord| #[trigger] v.grid.at(e) == g.at(e) || is_stand_in(v.grid.at(e));
    assert forall|v: World, c: Coord| inv(v) implies inv(#[trigger] f(v, c)) by {
        if v.grid.at(c).typ == TileType::YellowUtilityDisk {
            assert forall|e: Coord| #[trigger]
                f(v, c).grid.at(e) == g.at(e) || is_stand_in(f(v, c).grid.at(e)) by {
                crate::tile_data::systems::explode_system::lemma_explosion(v.grid, c, e);
                assert(v.grid.at(e) == g.at(e) || is_stand_in(v.grid.at(e)));
            }
        }
    }
    lemma_sweep_keeps(f, inv, w, g.width, g.height);
    assert(inv(detonated(w)));
}

/// Whether the step from `w` to `after`, made by a visit to `c`, leaves
/// cell `d` rested: if it is another cell, whatever is new there is
/// rested; if it is `c` itself, what is there is rested as long as the game
/// goes on. And the step does not take up a game that is over.
pub open spec fn rests(w: World, after: World, c: Coord, d: Coord) -> bool {
    &&& d != c && after.grid.at(d) != w.grid.at(d) ==> is_rested(after.grid.at(d))
    &&& d == c && after.data.game_state == GameState::Active ==> is_rested(after.grid.at(d))
    &&& w.data.game_state != GameState::Active ==> after.data.game_state != GameState::Active
}

/// An explosion set off by something fresh leaves every cell rested.
proof fn lemma_blast_rests(w: World, c: Coord, d: Coord)
    requires
        w.grid.at(c).upd > -EXPLOSION_TIME,
    ensures
        rests(w, explode_at(w, c), c, d),
{
    crate::tile_data::systems::explode_system::lemma_explosion(w.grid, c, d);
}

/// Gravity leaves every cell rested, unless it lets a timer lapse.
proof fn lemma_gravity_rests(w: World, c: Coord, d: Coord)
    requires
        w.grid.wf(),
        w.grid.has(c),
        is_fresh(w.grid.at(c)),
        w.grid.at(c).typ == TileType::Infotron || w.grid.at(c).typ == TileType::Zonk,
        !lapses(w, c),
    ensures
        rests(w, gravity_step(w, c), c, d),
{
    if gravity_action(w.grid, c) == GravityAction::Crash {
        lemma_blast_rests(w, c, d);
    }
}

/// The orange-disk system leaves every cell rested.
proof fn lemma_orange_disk_rests(w: World, c: Coord, d: Coord)
    requires
        w.grid.wf(),
        w.grid.has(c),
        is_fresh(w.grid.at(c)),
        w.grid.at(c).typ == TileType::OrangeUtilityDisk,
    ensures
        rests(w, orange_disk_step(w, c), c, d),
{
    lemma_blast_rests(w, c, d);
}

/// The enemy system leaves every cell rested.
proof fn lemma_ai_rests(w: World, c: Coord, d: Coord)
    requires
        w.grid.wf(),
        w.grid.has(c),
        is_fresh(w.grid.at(c)),
        w.grid.at(c).typ == TileType::SnikSnak,
    ensures
        rests(w, ai_step(w, c), c, d),
{
    if ai_action(w.grid, c) == AiAction::Attack {
        lemma_blast_rests(w, c, d);
    }
}

/// The blast system leaves every cell rested.
proof fn lemma_explode_rests(w: World, c: Coord, d: Coord)
    requires
        is_fresh(w.grid.at(c)),
        w.grid.at(c).typ == TileType::Explosion || w.grid.at(c).typ == TileType::Explosion2,
    ensures
        rests(w, explode_step(w, c), c, d),
{
    if w.grid.at(c).typ == TileType::Explosion2 && w.grid.at(c).upd <= 0 {
        lemma_blast_rests(w, c, d);
    }
}

/// What the player does towards `dir` leaves every cell rested, unless it
/// is to operate a terminal with a timer that has lapsed or with yellow
/// disks that are not fresh.
proof fn lemma_murphy_act_rests(w: World, c: Coord, dir: TileMove, d: Coord)
    requires
        w.grid.wf(),
        w.grid.has(c),
        is_fresh(w.grid.at(c)),
        w.grid.at(c).typ == TileType::Murphy,
        w.grid.at(c).upd <= 0,
        murphy_action(w, c, dir) != MurphyAction::Blocked,
        murphy_action(w, c, dir) == MurphyAction::Detonate ==> disks_fresh(w.grid) && is_rested(
            w.grid.at(c),
        ),
    ensures
        rests(w, murphy_act(w, c, dir).world, c, d),
{
    let g = w.grid;
    let c2 = c.step(dir);
    let c3 = c2.step(dir);
    match murphy_action(w, c, dir) {
        MurphyAction::Detonate => {
            lemma_detonated_cells(w, d);
            crate::tile_data::systems::murphy_system::lemma_detonated_data(w);
        },
        MurphyAction::Die => {
            lemma_blast_rests(w, c, d);
        },
        MurphyAction::Push => {
            assert(g.has(c2));
            assert(timer_plus(g.at(c).upd, PUSH_TIME) > 0);
        },
        MurphyAction::Tunnel => {
            assert(g.has(c2));
        },
        _ => {},
    }
}

/// The player system leaves every cell rested, unless the player operates
/// a terminal with a timer that has lapsed or with yellow disks that are
/// not fresh.
proof fn lemma_murphy_rests(w: World, c: Coord, d: Coord)
    requires
        w.grid.wf(),
        w.grid.has(c),
        is_fresh(w.grid.at(c)),
        w.grid.at(c).typ == TileType::Murphy,
        !lapses(w, c),
        operates(w, c) ==> disks_fresh(w.grid),
    ensures
        rests(w, murphy_step(w, c).world, c, d),
{
    if w.grid.at(c).upd <= 0 {
        crate::tile_data::systems::murphy_system::lemma_legal(w, c, w.data.move_priority);
        match first_legal(w, c, w.data.move_priority) {
            Some(dir) => {
                lemma_murphy_act_rests(w, c, dir, d);
            },
            None => {},
        }
    }
}

/// What a visit leaves behind is rested. Whatever a visit to `c` writes
/// into another cell can be left to itself for the time of a quarter turn;
/// so can what it leaves in `c` itself, as long as the game goes on and the
/// visit lets no timer lapse. And a game that is over is not taken up
/// again.
pub proof fn lemma_visit_rests(w: World, c: Coord, d: Coord)
    requires
        w.grid.wf(),
        w.grid.has(c),
        is_tended(w.grid),
        !lapses(w, c),
        operates(w, c) ==> disks_fresh(w.grid),
    ensures
        rests(w, dispatch(true, w, c), c, d),
{
    reveal(dispatch);
    let g = w.grid;
    assert(is_fresh(g.at(c)) && is_coherent(g.at(c)));
    match g.at(c).typ {
        TileType::Infotron | TileType::Zonk => lemma_gravity_rests(w, c, d),
        TileType::Murphy => lemma_murphy_rests(w, c, d),
        TileType::OrangeUtilityDisk => lemma_orange_disk_rests(w, c, d),
        TileType::SnikSnak => lemma_ai_rests(w, c, d),
        TileType::Explosion | TileType::Explosion2 => lemma_explode_rests(w, c, d),
        _ => {},
    }
}

/// Once the game is over a visit moves nothing.
pub proof fn lemma_visit_still(w: World, c: Coord, d: Coord)
    ensures
        !entered(w.grid, dispatch(false, w, c).grid, c).contains(d),
{
    reveal(dispatch);
    crate::tile_data::systems::explode_system::lemma_explosion(w.grid, c, d);
}

/// A scan under watch: the world; the cells visited and the cells claimed
/// since the scan began; whether every claim so far was the first on its
/// cell; whether the player has operated a terminal; and whether a timer
/// has been let lapse.
pub struct Watch {
    pub world: World,
    pub visited: Set<Coord>,
    pub claimed: Set<Coord>,
    pub clean: bool,
    pub operated: bool,
    pub lapsed: bool,
}

/// A visit under watch: the cells that the visit moves a tile into are
/// added to the claims, after it has been noted whether one of them was
/// claimed before.
pub open spec fn watched_visit(playing: bool, a: Watch, c: Coord) -> Watch {
    let next = dispatch(playing, a.world, c);
    let fresh = entered(a.world.grid, next.grid, c);
    Watch {
        world: next,
        visited: a.visited.insert(c),
        claimed: a.claimed.union(fresh),
        clean: a.clean && fresh.disjoint(a.claimed),
        operated: a.operated || (playing && operates(a.world, c)),
        lapsed: a.lapsed || (playing && lapses(a.world, c)),
    }
}

/// The scan of a tick under watch.
pub open spec fn watched_scan(w: World) -> Watch {
    let playing = w.data.game_state == GameState::Active;
    sweep(
        |a: Watch, c: Coord| watched_visit(playing, a, c),
        Watch {
            world: w,
            visited: Set::empty(),
            claimed: Set::empty(),
            clean: true,
            operated: false,
            lapsed: false,
        },
        w.grid.width,
        w.grid.height,
    )
}

/// Watching a row changes nothing about what happens in it, and every cell
/// of the row is visited.
proof fn lemma_watched_row(playing: bool, a: Watch, width: int, y: int, x: int, d: Coord)
    requires
        0 <= x,
        width <= i16::MAX,
        0 <= y <= i16::MAX,
    ensures
        sweep_row(|b: Watch, c: Coord| watched_visit(playing, b, c), a, width, y, x).world
            == sweep_row(|v: World, c: Coord| dispatch(playing, v, c), a.world, width, y, x),
        a.visited.contains(d) || (d.y == y && x <= d.x < width) ==> sweep_row(
            |b: Watch, c: Coord| watched_visit(playing, b, c),
            a,
            width,
            y,
            x,
        ).visited.contains(d),
    decreases width - x,
{
    if 0 <= x < width {
        let c = Coord { x: x as i16, y: y as i16 };
        lemma_watched_row(playing, watched_visit(playing, a, c), width, y, x + 1, d);
    }
}

/// Watching the rows of a scan changes nothing about what happens in them,
/// and every cell of these rows is visited.
proof fn lemma_watched_rows(playing: bool, a: Watch, width: int, height: int, y: int, d: Coord)
    requires
        0 <= y,
        width <= i16::MAX,
        height <= i16::MAX,
    ensures
        sweep_rows(|b: Watch, c: Coord| watched_visit(playing, b, c), a, width, height, y).world
            == sweep_rows(|v: World, c: Coord| dispatch(playing, v, c), a.world, width, height, y),
        a.visited.contains(d) || (y <= d.y < height && 0 <= d.x < width) ==> sweep_rows(
            |b: Watch, c: Coord| watched_visit(playing, b, c),
            a,
            width,
            height,
            y,
        ).visited.contains(d),
    decreases height - y,
{
    if 0 <= y < height {
        let fa = |b: Watch, c: Coord| watched_visit(playing, b, c);
        lemma_watched_row(playing, a, width, y, 0, d);
        lemma_watched_rows(playing, sweep_row(fa, a, width, y, 0), width, height, y + 1, d);
    }
}

/// What holds of a watched scan of a game that goes on, as long as the
/// yellow disks were fresh or no terminal has been operated: no cell has
/// been claimed twice, the grid is tended, the claims are locked, and the
/// yellow disks are as fresh as they were. And if moreover no timer has
/// lapsed and the game still goes on, every cell visited so far is rested.
pub open spec fn is_sound(start: GridView, a: Watch) -> bool {
    disks_fresh(start) || !a.operated ==> {
        &&& a.clean
        &&& is_tended(a.world.grid)
        &&& all_locked(a.world.grid, a.claimed)
        &&& disks_fresh(start) ==> disks_fresh(a.world.grid)
        &&& !a.lapsed && a.world.data.game_state == GameState::Active ==> forall|
            d: Coord,
        | #[trigger] a.visited.contains(d) ==> is_rested(a.world.grid.at(d))
    }
}

/// A watched scan of a tended grid is sound from beginning to end.
proof fn lemma_watch(w: World)
    requires
        w.grid.wf(),
        w.data.game_state == GameState::Active,
        is_tended(w.grid),
    ensures
        is_sound(w.grid, watched_scan(w)),
        watched_scan(w).world == scanned(w),
        scanned(w).grid.wf(),
        forall|d: Coord| w.grid.has(d) ==> #[trigger] watched_scan(w).visited.contains(d),
        forall|d: Coord| scanned(w).grid.has(d) == w.grid.has(d),
{
    let g = w.grid;
    let f = |a: Watch, c: Coord| watched_visit(true, a, c);
    let start = Watch {
        world: w,
        visited: Set::empty(),
        claimed: Set::empty(),
        clean: true,
        operated: false,
        lapsed: false,
    };
    let inv = |a: Watch|
        {
            &&& a.world.grid.wf()
            &&& a.world.grid.width == g.width
            &&& a.world.grid.height == g.height
            &&& is_sound(g, a)
        };
    assert forall|a: Watch, c: Coord|
        0 <= c.x < g.width && 0 <= c.y < g.height && inv(a) implies inv(#[trigger] f(a, c)) by {
        let v = a.world;
        let next = dispatch(true, v, c);
        let b = f(a, c);
        crate::level::lemma_visit_shape(true, v, c);
        if disks_fresh(g) || !b.operated {
            assert forall|d: Coord| is_fair(v.grid, next.grid, a.claimed, c, d) by {
                lemma_visit_fair(true, v, a.claimed, c, d);
            }
            lemma_fair_respects(v.grid, next.grid, a.claimed, c);
            if !b.lapsed && next.data.game_state == GameState::Active {
                lemma_visit_rests(v, c, c);
                assert forall|d: Coord| #[trigger] b.visited.contains(d) implies is_rested(
                    next.grid.at(d),
                ) by {
                    lemma_visit_rests(v, c, d);
                    if d != c {
                        assert(a.visited.contains(d));
                    }
                }
            }
        }
    }
    lemma_sweep_keeps(f, inv, start, g.width, g.height);
    assert forall|d: Coord| g.has(d) implies #[trigger] watched_scan(w).visited.contains(d) by {
        lemma_watched_rows(true, start, g.width, g.height, 0, d);
    }
    lemma_watched_rows(true, start, g.width, g.height, 0, Coord { x: 0, y: 0 });
}

/// Within one scan no cell is claimed twice: whenever a visit moves a tile
/// into a cell, no earlier visit of the same scan has moved a tile into
/// that cell. This holds of every scan of a game that is over, in which
/// nothing moves at all. And it holds of every scan that starts from a
/// tended grid, if only the yellow disks are fresh or the player does not
/// operate a terminal in the course of it; such a scan leaves the grid
/// tended and its claims locked. Watching the scan does not change it.
pub proof fn lemma_single_claim(w: World)
    requires
        w.grid.wf(),
        w.data.game_state == GameState::Active ==> is_tended(w.grid),
    ensures
        watched_scan(w).world == scanned(w),
        disks_fresh(w.grid) || !watched_scan(w).operated ==> watched_scan(w).clean,
        w.data.game_state == GameState::Active && (disks_fresh(w.grid) || !watched_scan(
            w,
        ).operated) ==> is_tended(scanned(w).grid) && all_locked(
            scanned(w).grid,
            watched_scan(w).claimed,
        ),
{
    if w.data.game_state == GameState::Active {
        lemma_watch(w);
    } else {
        let g = w.grid;
        let f = |a: Watch, c: Coord| watched_visit(false, a, c);
        let start = Watch {
            world: w,
            visited: Set::empty(),
            claimed: Set::empty(),
            clean: true,
            operated: false,
            lapsed: false,
        };
        let inv = |a: Watch| a.clean && !a.operated && a.claimed =~= Set::empty();
        assert forall|a: Watch, c: Coord| inv(a) implies inv(#[trigger] f(a, c)) by {
            let fresh = entered(a.world.grid, dispatch(false, a.world, c).grid, c);
            assert forall|d: Coord| !fresh.contains(d) by {
                lemma_visit_still(a.world, c, d);
            }
            assert(fresh =~= Set::empty());
        }
        lemma_sweep_keeps(f, inv, start, g.width, g.height);
        lemma_watched_rows(false, start, g.width, g.height, 0, Coord { x: 0, y: 0 });
    }
}

/// A tick keeps a grid tended. If a scan starts from a tended grid and
/// lets no timer lapse, and if the player operates no terminal in the
/// course of it or the yellow disks are fresh, then the grid is tended
/// again once no more than the time of a quarter turn has passed after the
/// scan. A game that has ended meanwhile needs no tending: nothing moves in
/// it any more.
pub proof fn lemma_tick_keeps_tended(w: World, time: i32)
    requires
        w.grid.wf(),
        w.data.game_state == GameState::Active,
        is_tended(w.grid),
        0 <= time <= TURN_TIME,
    ensures
        (disks_fresh(w.grid) || !watched_scan(w).operated) && !watched_scan(w).lapsed && scanned(
            w,
        ).data.game_state == GameState::Active ==> is_tended(aged(scanned(w).grid, time)),
{
    lemma_watch(w);
    let a = watched_scan(w);
    let after = scanned(w).grid;
    if (disks_fresh(w.grid) || !a.operated) && !a.lapsed && scanned(w).data.game_state
        == GameState::Active {
        crate::level::lemma_aged(after, time);
        assert forall|d: Coord|
            is_fresh(#[trigger] aged(after, time).at(d)) && is_coherent(aged(after, time).at(d)) by {
            let tile = after.at(d);
            assert(is_fresh(tile) && is_coherent(tile));
            if w.grid.has(d) {
                assert(a.visited.contains(d));
                assert(is_rested(tile));
            }
        }
    }
}

/// From one tick to the next. If the scan of a tick starts from a tended
/// grid and lets no timer lapse, if the player operates no terminal in it
/// or the yellow disks are fresh, and if the game still goes on after it,
/// then the scan of the next tick starts from a tended grid again, provided
/// that no more than the time of a quarter turn passes between the two;
/// and so no cell is claimed twice in that scan either, as long as the
/// player operates no terminal in it or the yellow disks are fresh.
pub proof fn lemma_next_tick(w: World, input: TickInput)
    requires
        w.grid.wf(),
        w.data.game_state == GameState::Active,
        is_tended(w.grid),
        0 <= scaled_time(input.frame_time, scanned(w).data.speed) <= TURN_TIME,
        disks_fresh(w.grid) || !watched_scan(w).operated,
        !watched_scan(w).lapsed,
        scanned(w).data.game_state == GameState::Active,
    ensures
        is_tended(readied(scanned(w), input).grid),
        readied(scanned(w), input).grid.wf(),
        disks_fresh(readied(scanned(w), input).grid) || !watched_scan(
            readied(scanned(w), input),
        ).operated ==> watched_scan(readied(scanned(w), input)).clean,
        watched_scan(readied(scanned(w), input)).world == ticked(scanned(w), input),
{
    let time = scaled_time(input.frame_time, scanned(w).data.speed);
    lemma_watch(w);
    lemma_tick_keeps_tended(w, time);
    crate::level::lemma_aged(scanned(w).grid, time);
    lemma_single_claim(readied(scanned(w), input));
}

} // verus!
