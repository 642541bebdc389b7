//! The level: the grid, the state shared by every system in a tick, and the
//! tick itself.

pub mod claims;
pub mod components;
pub mod systems;

use vstd::prelude::*;
use crate::grid::{Coord, FCoord, Grid, GridView};
use crate::tile_data::systems::ai_system::{
    ai_action, ai_step, ai_system, looks_ahead, AiAction,
};
use crate::tile_data::systems::explode_system::{
    area_exploded, blasted, explode_at, explode_step, explode_system,
};
use crate::tile_data::systems::gravity_system::{
    gravity_action, gravity_step, gravity_system, GravityAction,
};
use crate::tile_data::systems::murphy_system::{
    camera_focus, detonate_cell, detonated, first_legal, murphy_action, murphy_step,
    murphy_system, set_cam_pos, MurphyAction,
};
use crate::tile_data::systems::orange_disk_system::{orange_disk_step, orange_disk_system};
use crate::tile_data::systems::transitory_system::{transitory_step, transitory_system};
use crate::tile_data::tile::Tile;
use crate::tile_data::tile_move::TileMove;
use crate::tile_data::tile_state::TileState;
use crate::tile_data::tile_type::TileType;
use crate::tile_data::tile_update::{clamp_timer, timer_plus, EXPLOSION_TIME};

verus! {

/// Whether the game is still on.
#[derive(Clone, Copy, PartialEq, Eq, Structural, Debug)]
pub enum GameState {
    Active,
    Died,
    Finished,
}

/// State shared by all systems during one tick.
pub struct LevelData {
    /// The movement directions that are held down, the one pressed last
    /// first.
    pub move_priority: Vec<TileMove>,
    pub name: String,
    /// Time scale: timer units per second of real time.
    pub speed: i32,
    /// Timer units that pass in the current tick.
    pub delta_time: i32,
    /// How long the last scan of the grid took, in nanoseconds. Whoever runs
    /// the tick measures and stores it; nothing here reads it.
    pub update_duration: u128,
    /// Where the camera should look: the player's position in thousandths
    /// of a pixel.
    pub camera_target: Option<FCoord>,
    pub game_state: GameState,
    /// Infotrons still to collect before the exit opens.
    pub infotrons_required: i32,
    /// Red disks collected.
    pub red_utility_disks: u32,
    pub gravity_enabled: bool,
    pub zonks_frozen: bool,
    /// Whether the key is held that makes the player consume from a
    /// distance instead of moving.
    pub alternate_action: bool,
}

/// The shared state as a mathematical object.
pub struct LevelDataView {
    pub move_priority: Seq<TileMove>,
    pub name: Seq<char>,
    pub speed: i32,
    pub delta_time: i32,
    pub update_duration: u128,
    pub camera_target: Option<FCoord>,
    pub game_state: GameState,
    pub infotrons_required: i32,
    pub red_utility_disks: u32,
    pub gravity_enabled: bool,
    pub zonks_frozen: bool,
    pub alternate_action: bool,
}

impl View for LevelData {
    type V = LevelDataView;

    open spec fn view(&self) -> LevelDataView {
        LevelDataView {
            move_priority: self.move_priority@,
            name: self.name@,
            speed: self.speed,
            delta_time: self.delta_time,
            update_duration: self.update_duration,
            camera_target: self.camera_target,
            game_state: self.game_state,
            infotrons_required: self.infotrons_required,
            red_utility_disks: self.red_utility_disks,
            gravity_enabled: self.gravity_enabled,
            zonks_frozen: self.zonks_frozen,
            alternate_action: self.alternate_action,
        }
    }
}

impl Clone for LevelData {
    /// A copy of the shared state.
    fn clone(&self) -> (d: Self)
        ensures
            d@ == self@,
    {
        let mut move_priority: Vec<TileMove> = Vec::new();
        let mut i: usize = 0;
        while i < self.move_priority.len()
            invariant
                i <= self.move_priority@.len(),
                move_priority@ == self.move_priority@.take(i as int),
            decreases self.move_priority@.len() - i,
        {
            move_priority.push(self.move_priority[i]);
            proof {
                assert(move_priority@ =~= self.move_priority@.take(i + 1));
            }
            i += 1;
        }
        proof {
            assert(self.move_priority@.take(i as int) =~= self.move_priority@);
        }
        LevelData {
            move_priority,
            name: self.name.clone(),
            speed: self.speed,
            delta_time: self.delta_time,
            update_duration: self.update_duration,
            camera_target: self.camera_target,
            game_state: self.game_state,
            infotrons_required: self.infotrons_required,
            red_utility_disks: self.red_utility_disks,
            gravity_enabled: self.gravity_enabled,
            zonks_frozen: self.zonks_frozen,
            alternate_action: self.alternate_action,
        }
    }
}

/// What the systems act on: the cells and the shared state.
pub struct World {
    pub grid: GridView,
    pub data: LevelDataView,
}

/// The state after `f` has visited the cells of row `y` from column `x` on,
/// left to right, in a grid `width` cells wide. Each visit sees what the
/// visits before it have left.
pub open spec fn sweep_row<S>(f: spec_fn(S, Coord) -> S, s: S, width: int, y: int, x: int) -> S
    decreases width - x,
{
    if 0 <= x < width {
        sweep_row(f, f(s, Coord { x: x as i16, y: y as i16 }), width, y, x + 1)
    } else {
        s
    }
}

/// The state after `f` has visited the rows from `y` on, top to bottom, in
/// a grid of `width` by `height` cells.
pub open spec fn sweep_rows<S>(
    f: spec_fn(S, Coord) -> S,
    s: S,
    width: int,
    height: int,
    y: int,
) -> S
    decreases height - y,
{
    if 0 <= y < height {
        sweep_rows(f, sweep_row(f, s, width, y, 0), width, height, y + 1)
    } else {
        s
    }
}

/// The state after `f` has visited every cell of a grid of `width` by
/// `height` cells once: the top row first, each row from left to right.
pub open spec fn sweep<S>(f: spec_fn(S, Coord) -> S, s: S, width: int, height: int) -> S {
    sweep_rows(f, s, width, height, 0)
}

/// Whether visiting a cell of a grid of `width` by `height` cells keeps
/// `inv`.
pub open spec fn keeps<S>(
    f: spec_fn(S, Coord) -> S,
    inv: spec_fn(S) -> bool,
    width: int,
    height: int,
) -> bool {
    forall|v: S, c: Coord|
        0 <= c.x < width && 0 <= c.y < height && inv(v) ==> inv(#[trigger] f(v, c))
}

/// What every visit keeps, a whole row keeps.
pub proof fn lemma_sweep_row_keeps<S>(
    f: spec_fn(S, Coord) -> S,
    inv: spec_fn(S) -> bool,
    s: S,
    width: int,
    height: int,
    y: int,
    x: int,
)
    requires
        inv(s),
        keeps(f, inv, width, height),
        width <= i16::MAX,
        0 <= y < height <= i16::MAX,
    ensures
        inv(sweep_row(f, s, width, y, x)),
    decreases width - x,
{
    if 0 <= x < width {
        let c = Coord { x: x as i16, y: y as i16 };
        assert(inv(f(s, c)));
        lemma_sweep_row_keeps(f, inv, f(s, c), width, height, y, x + 1);
    }
}

/// What every visit keeps, the rest of a scan keeps.
pub proof fn lemma_sweep_rows_keeps<S>(
    f: spec_fn(S, Coord) -> S,
    inv: spec_fn(S) -> bool,
    s: S,
    width: int,
    height: int,
    y: int,
)
    requires
        inv(s),
        keeps(f, inv, width, height),
        width <= i16::MAX,
        height <= i16::MAX,
    ensures
        inv(sweep_rows(f, s, width, height, y)),
    decreases height - y,
{
    if 0 <= y < height {
        lemma_sweep_row_keeps(f, inv, s, width, height, y, 0);
        lemma_sweep_rows_keeps(f, inv, sweep_row(f, s, width, y, 0), width, height, y + 1);
    }
}

/// What every visit keeps, a scan keeps.
pub proof fn lemma_sweep_keeps<S>(
    f: spec_fn(S, Coord) -> S,
    inv: spec_fn(S) -> bool,
    s: S,
    width: int,
    height: int,
)
    requires
        inv(s),
        keeps(f, inv, width, height),
        width <= i16::MAX,
        height <= i16::MAX,
    ensures
        inv(sweep(f, s, width, height)),
{
    lemma_sweep_rows_keeps(f, inv, s, width, height, 0);
}

/// Whether a visit to a cell of a grid of `width` by `height` cells takes
/// `inv` from the number of visits before it to the number after it, when
/// the cells are visited in the order of a scan.
pub open spec fn keeps_in_order<S>(
    f: spec_fn(S, Coord) -> S,
    inv: spec_fn(S, int) -> bool,
    width: int,
    height: int,
) -> bool {
    forall|v: S, c: Coord|
        0 <= c.x < width && 0 <= c.y < height && inv(v, c.y * width + c.x) ==> inv(
            #[trigger] f(v, c),
            c.y * width + c.x + 1,
        )
}

/// What holds before a row and is taken along by every visit holds after
/// the row.
pub proof fn lemma_sweep_row_in_order<S>(
    f: spec_fn(S, Coord) -> S,
    inv: spec_fn(S, int) -> bool,
    s: S,
    width: int,
    height: int,
    y: int,
    x: int,
)
    requires
        inv(s, y * width + x),
        keeps_in_order(f, inv, width, height),
        0 <= x <= width <= i16::MAX,
        0 <= y < height <= i16::MAX,
    ensures
        inv(sweep_row(f, s, width, y, x), y * width + width),
    decreases width - x,
{
    if x < width {
        let c = Coord { x: x as i16, y: y as i16 };
        assert(inv(f(s, c), c.y * width + c.x + 1));
        lemma_sweep_row_in_order(f, inv, f(s, c), width, height, y, x + 1);
    }
}

/// What holds before the rows from `y` on and is taken along by every
/// visit holds after the scan.
pub proof fn lemma_sweep_rows_in_order<S>(
    f: spec_fn(S, Coord) -> S,
    inv: spec_fn(S, int) -> bool,
    s: S,
    width: int,
    height: int,
    y: int,
)
    requires
        inv(s, y * width),
        keeps_in_order(f, inv, width, height),
        0 <= width <= i16::MAX,
        0 <= y <= height <= i16::MAX,
    ensures
        inv(sweep_rows(f, s, width, height, y), height * width),
    decreases height - y,
{
    if y < height {
        lemma_sweep_row_in_order(f, inv, s, width, height, y, 0);
        assert(y * width + width == (y + 1) * width) by (nonlinear_arith);
        lemma_sweep_rows_in_order(f, inv, sweep_row(f, s, width, y, 0), width, height, y + 1);
    }
}

/// The world made of `grid` and `data`.
pub open spec fn world_of(grid: Grid, data: LevelData) -> World {
    World { grid: grid@, data: data@ }
}

/// What has happened to one key since the previous tick.
#[derive(Clone, Copy, PartialEq, Eq, Structural, Debug)]
pub struct KeyEdge {
    pub pressed: bool,
    pub released: bool,
}

/// What the outside world reports for one tick.
#[derive(Clone, Copy, PartialEq, Eq, Structural, Debug)]
pub struct TickInput {
    /// Real time since the previous tick, in microseconds.
    pub frame_time: u32,
    pub up: KeyEdge,
    pub down: KeyEdge,
    pub left: KeyEdge,
    pub right: KeyEdge,
    /// Whether the key for consuming from a distance is held.
    pub alternate_action: bool,
}

/// Microseconds in a second.
pub const SECOND: u64 = 1_000_000;

/// The timer units that pass in `frame_time` microseconds at a time scale
/// of `speed` units per second: the product, with the fraction dropped. A
/// negative time scale makes time run backwards.
pub open spec fn scaled_time(frame_time: u32, speed: i32) -> i32 {
    if speed >= 0 {
        clamp_timer(frame_time * speed / (SECOND as int)) as i32
    } else {
        clamp_timer(-(frame_time * (-speed) / (SECOND as int))) as i32
    }
}

/// Computes `scaled_time`.
pub fn scale_time(frame_time: u32, speed: i32) -> (time: i32)
    ensures
        time == scaled_time(frame_time, speed),
{
    let rate: u64 = if speed >= 0 {
        speed as u64
    } else {
        (-(speed as i64)) as u64
    };
    assert(frame_time * rate <= 0xffff_ffff * 0x8000_0000) by (nonlinear_arith)
        requires
            0 <= frame_time <= 0xffff_ffff,
            0 <= rate <= 0x8000_0000,
    ;
    let units: u64 = frame_time as u64 * rate / SECOND;
    if speed >= 0 {
        if units > i32::MAX as u64 {
            i32::MAX
        } else {
            units as i32
        }
    } else {
        if units > i32::MAX as u64 {
            i32::MIN
        } else {
            -(units as i32)
        }
    }
}

/// The held directions `dirs` without `dir`.
pub open spec fn without(dirs: Seq<TileMove>, dir: TileMove) -> Seq<TileMove> {
    dirs.filter(|m: TileMove| m != dir)
}

/// The held directions after the key of `dir` has done what `edge` says: a
/// released key takes its direction off the list.
pub open spec fn let_go(dirs: Seq<TileMove>, edge: KeyEdge, dir: TileMove) -> Seq<TileMove> {
    if edge.released {
        without(dirs, dir)
    } else {
        dirs
    }
}

/// The held directions after the key of `dir` has done what `edge` says: a
/// pressed key puts its direction in front of all others.
pub open spec fn held_down(dirs: Seq<TileMove>, edge: KeyEdge, dir: TileMove) -> Seq<TileMove> {
    if edge.pressed {
        seq![dir] + dirs
    } else {
        dirs
    }
}

/// The held directions after the keys have been read. Releases come before
/// presses, and among themselves both are taken in the order up, down,
/// left, right: of several keys pressed at once the one taken last has
/// priority.
pub open spec fn ingested(dirs: Seq<TileMove>, input: TickInput) -> Seq<TileMove> {
    let a = let_go(dirs, input.up, TileMove::Up);
    let b = let_go(a, input.down, TileMove::Down);
    let c = let_go(b, input.left, TileMove::Left);
    let d = let_go(c, input.right, TileMove::Right);
    let e = held_down(d, input.up, TileMove::Up);
    let f = held_down(e, input.down, TileMove::Down);
    let g = held_down(f, input.left, TileMove::Left);
    held_down(g, input.right, TileMove::Right)
}

impl LevelData {
    /// Takes `dir` off the list of held directions.
    pub fn release(&mut self, dir: TileMove)
        ensures
            final(self)@ == (LevelDataView {
                move_priority: without(old(self)@.move_priority, dir),
                ..old(self)@
            }),
    {
        let mut kept: Vec<TileMove> = Vec::new();
        let mut i: usize = 0;
        proof {
            reveal(Seq::filter);
            assert(without(self.move_priority@.take(0), dir) =~= kept@);
        }
        while i < self.move_priority.len()
            invariant
                0 <= i <= self.move_priority@.len(),
                kept@ == without(self.move_priority@.take(i as int), dir),
            decreases self.move_priority@.len() - i,
        {
            let m = self.move_priority[i];
            proof {
                reveal(Seq::filter);
                let next = self.move_priority@.take(i + 1);
                assert(next.drop_last() =~= self.move_priority@.take(i as int));
                assert(next.last() == m);
            }
            if m != dir {
                kept.push(m);
            }
            i += 1;
        }
        proof {
            assert(self.move_priority@.take(i as int) =~= self.move_priority@);
        }
        self.move_priority = kept;
    }

    /// Puts `dir` in front of the list of held directions.
    pub fn press(&mut self, dir: TileMove)
        ensures
            final(self)@ == (LevelDataView {
                move_priority: seq![dir] + old(self)@.move_priority,
                ..old(self)@
            }),
    {
        self.move_priority.insert(0, dir);
        proof {
            assert(self.move_priority@ =~= seq![dir] + old(self).move_priority@);
        }
    }

    /// Applies what `edge` says of the key of `dir` being released.
    fn let_go(&mut self, edge: KeyEdge, dir: TileMove)
        ensures
            final(self)@ == (LevelDataView {
                move_priority: let_go(old(self)@.move_priority, edge, dir),
                ..old(self)@
            }),
    {
        if edge.released {
            self.release(dir);
        }
    }

    /// Applies what `edge` says of the key of `dir` being pressed.
    fn hold_down(&mut self, edge: KeyEdge, dir: TileMove)
        ensures
            final(self)@ == (LevelDataView {
                move_priority: held_down(old(self)@.move_priority, edge, dir),
                ..old(self)@
            }),
    {
        if edge.pressed {
            self.press(dir);
        }
    }

    /// Reads the keys.
    pub fn ingest(&mut self, input: &TickInput)
        ensures
            final(self)@ == (LevelDataView {
                move_priority: ingested(old(self)@.move_priority, *input),
                alternate_action: input.alternate_action,
                ..old(self)@
            }),
    {
        self.let_go(input.up, TileMove::Up);
        self.let_go(input.down, TileMove::Down);
        self.let_go(input.left, TileMove::Left);
        self.let_go(input.right, TileMove::Right);
        self.hold_down(input.up, TileMove::Up);
        self.hold_down(input.down, TileMove::Down);
        self.hold_down(input.left, TileMove::Left);
        self.hold_down(input.right, TileMove::Right);
        self.alternate_action = input.alternate_action;
    }
}

/// The grid after `time` has passed and before any system has acted: the
/// timer of every tile of an active category has run down by `time`.
pub open spec fn aged(g: GridView, time: i32) -> GridView {
    GridView { cells: Map::new(|c: Coord| g.has(c), |c: Coord| g.cells[c].after(time)), ..g }
}

/// What the system that owns the category found at `c` makes of the world.
/// While `playing`, every system acts. Once the game is over nothing moves
/// and nothing is collected any more: only placeholders and blasts still
/// run their course.
pub open spec fn acted(playing: bool, w: World, c: Coord) -> World {
    match w.grid.at(c).typ {
        TileType::Infotron | TileType::Zonk => if playing {
            gravity_step(w, c)
        } else {
            w
        },
        TileType::Murphy => {
            let out = if playing {
                murphy_step(w, c)
            } else {
                crate::tile_data::systems::murphy_system::MurphyOutcome { world: w, at: c }
            };
            World {
                data: LevelDataView {
                    camera_target: Some(camera_focus(out.world.grid.at(out.at), out.at)),
                    ..out.world.data
                },
                ..out.world
            }
        },
        TileType::OrangeUtilityDisk => if playing {
            orange_disk_step(w, c)
        } else {
            w
        },
        TileType::Transitory => transitory_step(w, c),
        TileType::SnikSnak => if playing {
            ai_step(w, c)
        } else {
            w
        },
        TileType::Explosion | TileType::Explosion2 => explode_step(w, c),
        _ => w,
    }
}

/// What visiting `c` makes of the world during the scan of a tick: the
/// system that owns the category found there acts, as `acted` says. In a
/// scan that starts with the game over, the state of the game is put back
/// after the visit: a blast that goes off beside the player then takes the
/// player's tile along, but changes nothing about how the game ended.
#[verifier::opaque]
pub open spec fn dispatch(playing: bool, w: World, c: Coord) -> World {
    let after = acted(playing, w, c);
    if playing {
        after
    } else {
        World { data: LevelDataView { game_state: w.data.game_state, ..after.data }, ..after }
    }
}

/// In a scan that starts with the game over, no visit changes the state of
/// the game.
pub proof fn lemma_visit_final(w: World, c: Coord)
    ensures
        dispatch(false, w, c).data.game_state == w.data.game_state,
{
    reveal(dispatch);
}

/// The world after the scan of a tick. A scan that starts with the game
/// over leaves the state of the game and the counters as they are, and
/// moves nothing.
pub open spec fn scanned(w: World) -> World {
    let playing = w.data.game_state == GameState::Active;
    sweep(|v: World, c: Coord| dispatch(playing, v, c), w, w.grid.width, w.grid.height)
}

/// Whether nothing has moved from `before` to `after`: every cell holds
/// what it held, or a blast, or empty space.
pub open spec fn is_still(before: GridView, after: GridView) -> bool {
    forall|d: Coord|
        #![trigger after.at(d)]
        after.at(d) == before.at(d) || after.at(d).typ == TileType::Explosion || after.at(d).typ
            == TileType::Explosion2 || after.at(d) == TileType::Empty.to_tile()
}

/// A game that is over stays over. A scan that starts with the game lost
/// or won leaves the state of the game, the counters and everything else
/// of the shared state as they are, but for where the camera looks; and it
/// moves nothing: only placeholders and blasts run their course.
pub proof fn lemma_game_over(w: World)
    requires
        w.grid.wf(),
        w.data.game_state != GameState::Active,
    ensures
        scanned(w).data.game_state == w.data.game_state,
        scanned(w).data == (LevelDataView {
            camera_target: scanned(w).data.camera_target,
            ..w.data
        }),
        is_still(w.grid, scanned(w).grid),
{
    let f = |v: World, c: Coord| dispatch(false, v, c);
    let inv = |v: World|
        {
            &&& v.grid.wf()
            &&& v.data == (LevelDataView { camera_target: v.data.camera_target, ..w.data })
            &&& is_still(w.grid, v.grid)
        };
    assert forall|v: World, c: Coord| inv(v) implies inv(#[trigger] f(v, c)) by {
        reveal(dispatch);
        lemma_visit_shape(false, v, c);
        let after = f(v, c);
        assert forall|d: Coord|
            #![trigger after.grid.at(d)]
            after.grid.at(d) == w.grid.at(d) || after.grid.at(d).typ == TileType::Explosion
                || after.grid.at(d).typ == TileType::Explosion2 || after.grid.at(d)
                == TileType::Empty.to_tile() by {
            crate::tile_data::systems::explode_system::lemma_explosion(v.grid, c, d);
            crate::grid::lemma_put(v.grid, c, TileType::Empty.to_tile(), d);
            assert(v.grid.at(d) == w.grid.at(d) || v.grid.at(d).typ == TileType::Explosion
                || v.grid.at(d).typ == TileType::Explosion2 || v.grid.at(d)
                == TileType::Empty.to_tile());
        }
    }
    lemma_sweep_keeps(f, inv, w, w.grid.width, w.grid.height);
}

/// Letting time pass leaves a grid well-formed.
pub proof fn lemma_aged(g: GridView, time: i32)
    requires
        g.wf(),
    ensures
        aged(g, time).wf(),
        forall|d: Coord| #[trigger] aged(g, time).at(d) == g.at(d).after(time),
{
    assert(aged(g, time).cells.dom() =~= g.cells.dom());
}

/// A tick of a game that is over leaves the state of the game and the
/// counters as they are, and moves nothing.
pub proof fn lemma_tick_game_over(w: World, input: TickInput)
    requires
        w.grid.wf(),
        w.data.game_state != GameState::Active,
    ensures
        ticked(w, input).data.game_state == w.data.game_state,
        ticked(w, input).data.infotrons_required == w.data.infotrons_required,
        ticked(w, input).data.red_utility_disks == w.data.red_utility_disks,
        is_still(aged(w.grid, scaled_time(input.frame_time, w.data.speed)), ticked(w, input).grid),
{
    let time = scaled_time(input.frame_time, w.data.speed);
    lemma_aged(w.grid, time);
    lemma_game_over(readied(w, input));
}

/// The world as the scan of a tick finds it: the keys are read, and time
/// has passed for every active tile.
pub open spec fn readied(w: World, input: TickInput) -> World {
    let time = scaled_time(input.frame_time, w.data.speed);
    World {
        grid: aged(w.grid, time),
        data: LevelDataView {
            move_priority: ingested(w.data.move_priority, input),
            alternate_action: input.alternate_action,
            delta_time: time,
            ..w.data
        },
    }
}

/// The world after a tick: the keys are read, time passes for every active
/// tile, and then each cell is visited once, in the order of a scan.
pub open spec fn ticked(w: World, input: TickInput) -> World {
    scanned(readied(w, input))
}

impl Grid {
    /// Lets `time` pass for every tile.
    pub fn update_time(&mut self, time: i32)
        requires
            old(self).wf(),
        ensures
            final(self).wf(),
            final(self)@ == aged(old(self)@, time),
    {
        let mut i: usize = 0;
        while i < self.array.len()
            invariant
                0 <= i <= self.array@.len(),
                self.width == old(self).width,
                self.height == old(self).height,
                self.array@.len() == old(self).array@.len(),
                forall|j: int| 0 <= j < i ==> #[trigger] self.array@[j] == old(self).array@[j].after(time),
                forall|j: int|
                    i <= j < self.array@.len() ==> #[trigger] self.array@[j] == old(self).array@[j],
            decreases self.array@.len() - i,
        {
            let mut tile = self.array[i];
            tile.update_time(time);
            self.array.set(i, tile);
            i += 1;
        }
        proof {
            old(self).lemma_view();
            self.lemma_view();
            assert(self@.cells =~= aged(old(self)@, time).cells);
        }
    }
}

/// A level in play.
pub struct Level {
    pub data: LevelData,
    pub grid: Grid,
}

impl Clone for Level {
    /// A copy of the level: the same world, and well-formed if the level
    /// is.
    fn clone(&self) -> (level: Self)
        ensures
            level.world() == self.world(),
            level.wf() == self.wf(),
    {
        Level { data: self.data.clone(), grid: self.grid.clone() }
    }
}

impl Level {
    /// The grid holds one tile per cell.
    pub open spec fn wf(&self) -> bool {
        self.grid.wf()
    }

    /// The level as the systems see it.
    pub open spec fn world(&self) -> World {
        world_of(self.grid, self.data)
    }

    /// A level of `width` by `height` cells, of which `array` gives the
    /// level-file codes row by row, played at a time scale of `speed`.
    pub fn new(speed: i32, width: i16, height: i16, array: Vec<u8>) -> (level: Self)
        requires
            0 <= width,
            0 <= height,
            array@.len() == width * height,
        ensures
            level.wf(),
            level.grid.width == width,
            level.grid.height == height,
            forall|c: Coord| #[trigger]
                level.grid@.has(c) ==> 0 <= c.x + c.y * width < array@.len() && level.grid@.at(c)
                    == TileType::from_u8(array@[c.x + c.y * width]).to_tile(),
            blasts_proper(level.grid@),
            level.data@ == (LevelDataView {
                move_priority: Seq::empty(),
                name: "N/A"@,
                speed,
                delta_time: 0,
                update_duration: 0,
                camera_target: None,
                game_state: GameState::Active,
                infotrons_required: 51,
                red_utility_disks: 7,
                gravity_enabled: false,
                zonks_frozen: false,
                alternate_action: false,
            }),
    {
        let grid = Grid::new(width, height, array);
        proof {
            assert forall|c: Coord| (#[trigger] grid@.at(c)).typ != TileType::Explosion2 by {
                if grid@.has(c) {
                    let code = array@[c.x + c.y * width];
                    assert(grid@.at(c) == TileType::from_u8(code).to_tile());
                }
            }
        }
        Self {
            data: LevelData {
                move_priority: Vec::new(),
                name: "N/A".to_string(),
                speed,
                delta_time: 0,
                update_duration: 0,
                camera_target: None,
                game_state: GameState::Active,
                infotrons_required: 51,
                red_utility_disks: 7,
                gravity_enabled: false,
                zonks_frozen: false,
                alternate_action: false,
            },
            grid,
        }
    }

    /// Visits the cell at `coord` during the scan of a tick.
    fn visit(&mut self, coord: &Coord, playing: bool)
        requires
            old(self).wf(),
            old(self).grid@.has(*coord),
        ensures
            final(self).wf(),
            final(self).grid.width == old(self).grid.width,
            final(self).grid.height == old(self).grid.height,
            final(self).world() == dispatch(playing, old(self).world(), *coord),
    {
        proof {
            self.grid.lemma_view();
        }
        let ghost before = self.world();
        let state = self.data.game_state;
        match self.grid.get(coord).typ {
            TileType::Infotron | TileType::Zonk => {
                if playing {
                    gravity_system(coord, &mut self.grid, &mut self.data);
                }
            },
            TileType::Murphy => {
                let at = if playing {
                    murphy_system(coord, &mut self.grid, &mut self.data)
                } else {
                    *coord
                };
                let murphy = self.grid.get(&at);
                set_cam_pos(&murphy, &at, &mut self.data);
            },
            TileType::OrangeUtilityDisk => {
                if playing {
                    orange_disk_system(coord, &mut self.grid, &mut self.data);
                }
            },
            TileType::Transitory => {
                transitory_system(coord, &mut self.grid, &mut self.data);
            },
            TileType::SnikSnak => {
                if playing {
                    ai_system(coord, &mut self.grid, &mut self.data);
                }
            },
            TileType::Explosion | TileType::Explosion2 => {
                explode_system(coord, &mut self.grid, &mut self.data);
            },
            _ => {},
        }
        assert(self.world() == acted(playing, before, *coord));
        if !playing {
            self.data.game_state = state;
        }
        assert(self.world() == dispatch(playing, before, *coord)) by {
            reveal(dispatch);
        }
    }

    /// Visits every cell once, the top row first and each row from left to
    /// right, and lets the system that owns what it finds there act.
    #[verifier::loop_isolation(false)]
    pub fn scan(&mut self)
        requires
            old(self).wf(),
        ensures
            final(self).wf(),
            final(self).world() == scanned(old(self).world()),
            old(self).data.game_state != GameState::Active ==> final(self).data.game_state == old(
                self,
            ).data.game_state,
    {
        proof {
            self.grid.lemma_view();
            if self.data.game_state != GameState::Active {
                lemma_game_over(self.world());
            }
        }
        let playing = self.data.game_state == GameState::Active;
        let ghost f = |v: World, c: Coord| dispatch(playing, v, c);
        let ghost goal = scanned(self.world());
        let height = self.grid.height;
        let width = self.grid.width;
        let mut y: i16 = 0;
        while y < height
            invariant
                0 <= y <= height,
                self.wf(),
                self.grid.width == width,
                self.grid.height == height,
                sweep_rows(f, self.world(), width as int, height as int, y as int) == goal,
            decreases height - y,
        {
            let mut x: i16 = 0;
            while x < width
                invariant
                    0 <= x <= width,
                    0 <= y < height,
                    self.wf(),
                    self.grid.width == width,
                    self.grid.height == height,
                    sweep_rows(
                        f,
                        sweep_row(f, self.world(), width as int, y as int, x as int),
                        width as int,
                        height as int,
                        y + 1,
                    ) == goal,
                decreases width - x,
            {
                let coord = Coord::new(x, y);
                let ghost before = self.world();
                self.visit(&coord, playing);
                proof {
                    assert(self.world() == f(before, coord));
                    assert(sweep_row(f, before, width as int, y as int, x as int) == sweep_row(
                        f,
                        f(before, coord),
                        width as int,
                        y as int,
                        x + 1,
                    ));
                }
                x += 1;
            }
            y += 1;
        }
    }

    /// Advances the level by one tick.
    pub fn update(&mut self, input: &TickInput)
        requires
            old(self).wf(),
        ensures
            final(self).wf(),
            final(self).world() == ticked(old(self).world(), *input),
            old(self).data.game_state != GameState::Active ==> {
                &&& final(self).data.game_state == old(self).data.game_state
                &&& final(self).data.infotrons_required == old(self).data.infotrons_required
                &&& final(self).data.red_utility_disks == old(self).data.red_utility_disks
            },
    {
        proof {
            self.grid.lemma_view();
            if self.data.game_state != GameState::Active {
                lemma_tick_game_over(self.world(), *input);
            }
        }
        self.data.delta_time = scale_time(input.frame_time, self.data.speed);
        self.data.ingest(input);
        self.grid.update_time(self.data.delta_time);
        self.scan();
    }
}

/// A tile whose timer runs is left alone by the system that owns it: none
/// of the systems changes anything when it visits such a tile. The one
/// exception is an enemy at the end of a move, which may already turn.
pub proof fn lemma_busy(w: World, c: Coord)
    requires
        w.grid.at(c).upd > 0,
    ensures
        gravity_step(w, c) == w,
        orange_disk_step(w, c) == w,
        transitory_step(w, c) == w,
        explode_step(w, c) == w,
        murphy_step(w, c).world == w,
        murphy_step(w, c).at == c,
        !looks_ahead(w.grid.at(c)) ==> ai_step(w, c) == w,
{
}

/// During the scan of a tick, visiting a tile whose timer runs changes no
/// cell, and nothing of the shared state but where the camera looks. The
/// one exception is an enemy at the end of a move.
pub proof fn lemma_busy_visit(playing: bool, w: World, c: Coord)
    requires
        w.grid.at(c).upd > 0,
        !(w.grid.at(c).typ == TileType::SnikSnak && looks_ahead(w.grid.at(c))),
    ensures
        dispatch(playing, w, c).grid == w.grid,
        dispatch(playing, w, c).data == (LevelDataView {
            camera_target: dispatch(playing, w, c).data.camera_target,
            ..w.data
        }),
{
    reveal(dispatch);
    lemma_busy(w, c);
}

/// Nothing happens across the edge of the grid: what lies beyond it acts
/// like a wall. An object above the edge neither falls nor rolls nor
/// crashes; the player can do nothing towards a cell beyond the edge; an
/// enemy does not advance across it; and an explosion does not reach beyond
/// it.
pub proof fn lemma_edge(w: World, c: Coord, dir: TileMove, center: Coord)
    requires
        c.is_inner(),
        !w.grid.has(c.step(dir)),
    ensures
        dir == TileMove::Down ==> gravity_action(w.grid, c) == GravityAction::Busy
            || gravity_action(w.grid, c) == GravityAction::Settle,
        murphy_action(w, c, dir) == MurphyAction::Blocked,
        w.grid.at(c).mov == dir ==> ai_action(w.grid, c) != AiAction::Advance,
        area_exploded(w.grid, center).at(c.step(dir)) == Tile::border(),
{
}

/// Whether `tile` is a blast in its proper state.
pub open spec fn is_blast(tile: Tile) -> bool {
    &&& tile.typ == TileType::Explosion || tile.typ == TileType::Explosion2
    &&& tile.state == TileState::Dangerous
}

/// Operating a terminal leaves a blast a blast, and a delayed blast as it
/// is.
proof fn lemma_detonated_blast(w: World, a: Coord)
    requires
        w.grid.wf(),
        is_blast(w.grid.at(a)),
    ensures
        is_blast(detonated(w).grid.at(a)),
        w.grid.at(a).typ == TileType::Explosion2 ==> detonated(w).grid.at(a) == w.grid.at(a),
        w.grid.at(a).typ == TileType::Explosion ==> detonated(w).grid.at(a).typ
            == TileType::Explosion,
{
    let t = w.grid.at(a);
    let f = |v: World, c: Coord| detonate_cell(v, c);
    let inv = |v: World|
        {
            &&& is_blast(v.grid.at(a))
            &&& t.typ == TileType::Explosion2 ==> v.grid.at(a) == t
            &&& t.typ == TileType::Explosion ==> v.grid.at(a).typ == TileType::Explosion
        };
    assert forall|v: World, c: Coord| inv(v) implies inv(#[trigger] f(v, c)) by {
        crate::tile_data::systems::explode_system::lemma_explosion(v.grid, c, a);
    }
    lemma_sweep_keeps(f, inv, w, w.grid.width, w.grid.height);
}

/// Whether the blast at `a` is still there in `after`: a delayed blast as
/// it was, and a plain blast as a plain blast.
pub open spec fn stays(before: GridView, after: GridView, a: Coord) -> bool {
    &&& is_blast(after.at(a))
    &&& before.at(a).typ == TileType::Explosion2 ==> after.at(a) == before.at(a)
    &&& before.at(a).typ == TileType::Explosion ==> after.at(a).typ == TileType::Explosion
}

/// An explosion elsewhere leaves a blast in place.
proof fn lemma_blast_stays_blast(w: World, c: Coord, a: Coord)
    requires
        c != a,
        is_blast(w.grid.at(a)),
    ensures
        stays(w.grid, explode_at(w, c).grid, a),
{
    crate::tile_data::systems::explode_system::lemma_explosion(w.grid, c, a);
}

/// Gravity elsewhere leaves a blast in place.
proof fn lemma_blast_stays_gravity(w: World, c: Coord, a: Coord)
    requires
        w.grid.has(c),
        w.grid.wf(),
        c != a,
        is_blast(w.grid.at(a)),
    ensures
        stays(w.grid, gravity_step(w, c).grid, a),
        stays(w.grid, orange_disk_step(w, c).grid, a),
{
    lemma_blast_stays_blast(w, c, a);
}

/// An enemy elsewhere leaves a blast in place.
proof fn lemma_blast_stays_ai(w: World, c: Coord, a: Coord)
    requires
        w.grid.has(c),
        w.grid.wf(),
        c != a,
        is_blast(w.grid.at(a)),
    ensures
        stays(w.grid, ai_step(w, c).grid, a),
{
    lemma_blast_stays_blast(w, c, a);
}

/// The player elsewhere leaves a blast in place.
proof fn lemma_blast_stays_murphy(w: World, c: Coord, a: Coord)
    requires
        w.grid.has(c),
        w.grid.wf(),
        c != a,
        is_blast(w.grid.at(a)),
    ensures
        stays(w.grid, murphy_step(w, c).world.grid, a),
{
    if w.grid.at(c).upd <= 0 {
        match first_legal(w, c, w.data.move_priority) {
            Some(dir) => {
                let c2 = c.step(dir);
                let c3 = c2.step(dir);
                match murphy_action(w, c, dir) {
                    MurphyAction::Detonate => {
                        lemma_detonated_blast(w, a);
                    },
                    MurphyAction::Die => {
                        lemma_blast_stays_blast(w, c, a);
                    },
                    MurphyAction::Push => {
                        assert(w.grid.has(c2));
                    },
                    MurphyAction::Tunnel => {
                        assert(w.grid.has(c2));
                    },
                    _ => {},
                }
            },
            None => {},
        }
    }
}

/// A visit to another cell leaves a blast a blast: a delayed blast as it
/// is, and a plain blast a plain blast. Nothing moves into its cell, and an
/// explosion that reaches it leaves a delayed blast to run and renews a
/// plain one.
pub proof fn lemma_blast_stays(playing: bool, w: World, c: Coord, a: Coord)
    requires
        w.grid.wf(),
        w.grid.has(c),
        c != a,
        is_blast(w.grid.at(a)),
    ensures
        stays(w.grid, dispatch(playing, w, c).grid, a),
{
    reveal(dispatch);
    match w.grid.at(c).typ {
        TileType::Infotron | TileType::Zonk | TileType::OrangeUtilityDisk => {
            lemma_blast_stays_gravity(w, c, a);
        },
        TileType::Murphy => lemma_blast_stays_murphy(w, c, a),
        TileType::SnikSnak => lemma_blast_stays_ai(w, c, a),
        TileType::Explosion | TileType::Explosion2 => lemma_blast_stays_blast(w, c, a),
        _ => {},
    }
}

/// A delayed blast whose time is up goes off in the next scan, whatever
/// else happens in it: when the scan is over, its cell holds a plain blast.
/// Until the scan reaches the cell nothing touches the delayed blast, and
/// from then on nothing takes the blast away.
pub proof fn lemma_blast_goes_off(w: World, a: Coord)
    requires
        w.grid.wf(),
        w.grid.has(a),
        w.grid.at(a).typ == TileType::Explosion2,
        w.grid.at(a).state == TileState::Dangerous,
        w.grid.at(a).upd <= 0,
    ensures
        scanned(w).grid.at(a).typ == TileType::Explosion,
        scanned(w).grid.at(a).state == TileState::Dangerous,
{
    let g = w.grid;
    let playing = w.data.game_state == GameState::Active;
    let f = |v: World, c: Coord| dispatch(playing, v, c);
    let at = a.y * g.width + a.x;
    let inv = |v: World, k: int|
        {
            &&& v.grid.wf()
            &&& v.grid.width == g.width
            &&& v.grid.height == g.height
            &&& k <= at ==> v.grid.at(a) == g.at(a)
            &&& k > at ==> v.grid.at(a).typ == TileType::Explosion && v.grid.at(a).state
                == TileState::Dangerous
        };
    assert forall|v: World, c: Coord|
        0 <= c.x < g.width && 0 <= c.y < g.height && inv(v, c.y * g.width + c.x) implies inv(
        #[trigger] f(v, c),
        c.y * g.width + c.x + 1,
    ) by {
        lemma_visit_shape(playing, v, c);
        if c == a {
            reveal(dispatch);
            crate::tile_data::systems::explode_system::lemma_explosion(v.grid, a, a);
        } else {
            if c.y * g.width + c.x == at {
                crate::grid::lemma_index_injective(
                    g.width,
                    c.x as int,
                    c.y as int,
                    a.x as int,
                    a.y as int,
                );
            }
            lemma_blast_stays(playing, v, c, a);
        }
    }
    crate::grid::lemma_index_injective(g.width, a.x as int, a.y as int, a.x as int, a.y as int);
    assert(0 * g.width == 0) by (nonlinear_arith);
    assert(0 <= a.y * g.width) by (nonlinear_arith)
        requires
            0 <= a.y,
            0 <= g.width,
    ;
    lemma_sweep_rows_in_order(f, inv, w, g.width, g.height, 0);
    assert(a.y * g.width + a.x < g.height * g.width) by (nonlinear_arith)
        requires
            0 <= a.x < g.width,
            0 <= a.y < g.height,
    ;
}

/// A scan leaves the grid the size it was, and well-formed if it was.
pub proof fn lemma_scanned_shape(w: World)
    requires
        w.grid.wf(),
    ensures
        scanned(w).grid.wf(),
        scanned(w).grid.width == w.grid.width,
        scanned(w).grid.height == w.grid.height,
{
    let playing = w.data.game_state == GameState::Active;
    let f = |v: World, c: Coord| dispatch(playing, v, c);
    let inv = |v: World|
        v.grid.wf() && v.grid.width == w.grid.width && v.grid.height == w.grid.height;
    assert forall|v: World, c: Coord| inv(v) implies inv(#[trigger] f(v, c)) by {
        lemma_visit_shape(playing, v, c);
    }
    lemma_sweep_keeps(f, inv, w, w.grid.width, w.grid.height);
}

/// A delayed blast whose timer runs is left alone by a scan, whatever else
/// happens in it.
pub proof fn lemma_blast_waits(w: World, a: Coord)
    requires
        w.grid.wf(),
        w.grid.at(a).typ == TileType::Explosion2,
        w.grid.at(a).state == TileState::Dangerous,
        w.grid.at(a).upd > 0,
    ensures
        scanned(w).grid.at(a) == w.grid.at(a),
{
    let g = w.grid;
    let playing = w.data.game_state == GameState::Active;
    let f = |v: World, c: Coord| dispatch(playing, v, c);
    let inv = |v: World|
        {
            &&& v.grid.wf()
            &&& v.grid.width == g.width
            &&& v.grid.height == g.height
            &&& v.grid.at(a) == g.at(a)
        };
    assert forall|v: World, c: Coord|
        0 <= c.x < g.width && 0 <= c.y < g.height && inv(v) implies inv(#[trigger] f(v, c)) by {
        lemma_visit_shape(playing, v, c);
        if c == a {
            reveal(dispatch);
        } else {
            lemma_blast_stays(playing, v, c, a);
        }
    }
    lemma_sweep_keeps(f, inv, w, g.width, g.height);
}

/// The world after the ticks `inputs`, one after the other.
pub open spec fn run(w: World, inputs: Seq<TickInput>) -> World
    decreases inputs.len(),
{
    if inputs.len() == 0 {
        w
    } else {
        run(ticked(w, inputs[0]), inputs.skip(1))
    }
}

/// The number of the first of the ticks `inputs` by whose scan the timer of
/// the tile at `a` has run out, counting from 0, if there is such a tick.
/// The timer runs down by the time of each tick as long as nothing else
/// happens to the tile.
pub open spec fn due_in(w: World, inputs: Seq<TickInput>, a: Coord) -> Option<int>
    decreases inputs.len(),
{
    if inputs.len() == 0 {
        None
    } else if readied(w, inputs[0]).grid.at(a).upd <= 0 {
        Some(0int)
    } else {
        match due_in(ticked(w, inputs[0]), inputs.skip(1), a) {
            Some(k) => Some(k + 1),
            None => None,
        }
    }
}

/// What a tick makes of a delayed blast: if its timer still runs after the
/// time of the tick has passed, nothing but that; if it has run out, the
/// delayed blast goes off and leaves a plain blast.
pub proof fn lemma_blast_tick(w: World, input: TickInput, a: Coord)
    requires
        w.grid.wf(),
        w.grid.at(a).typ == TileType::Explosion2,
        w.grid.at(a).state == TileState::Dangerous,
    ensures
        ticked(w, input).grid.wf(),
        readied(w, input).grid.at(a) == w.grid.at(a).after(
            scaled_time(input.frame_time, w.data.speed),
        ),
        readied(w, input).grid.at(a).upd > 0 ==> ticked(w, input).grid.at(a) == readied(
            w,
            input,
        ).grid.at(a),
        readied(w, input).grid.at(a).upd <= 0 ==> ticked(w, input).grid.at(a).typ
            == TileType::Explosion && ticked(w, input).grid.at(a).state == TileState::Dangerous,
{
    let time = scaled_time(input.frame_time, w.data.speed);
    let v = readied(w, input);
    lemma_aged(w.grid, time);
    lemma_scanned_shape(v);
    assert(v.grid.at(a) == w.grid.at(a).after(time));
    if v.grid.at(a).upd > 0 {
        lemma_blast_waits(v, a);
    } else {
        lemma_blast_goes_off(v, a);
    }
}

/// A delayed blast over a run of ticks. It waits, untouched but for its
/// timer, until the first tick by whose scan its timer has run out; in that
/// tick it goes off and leaves a plain blast. Nothing that happens around
/// it in the meantime takes it away or sets it off early.
pub proof fn lemma_blast_in_run(w: World, inputs: Seq<TickInput>, a: Coord)
    requires
        w.grid.wf(),
        w.grid.at(a).typ == TileType::Explosion2,
        w.grid.at(a).state == TileState::Dangerous,
    ensures
        due_in(w, inputs, a) is None ==> {
            &&& run(w, inputs).grid.at(a).typ == TileType::Explosion2
            &&& run(w, inputs).grid.at(a).state == TileState::Dangerous
            &&& inputs.len() > 0 ==> run(w, inputs).grid.at(a).upd > 0
        },
        due_in(w, inputs, a) matches Some(k) ==> {
            &&& 0 <= k < inputs.len()
            &&& run(w, inputs.take(k)).grid.wf()
            &&& run(w, inputs.take(k)).grid.at(a).typ == TileType::Explosion2
            &&& run(w, inputs.take(k)).grid.at(a).state == TileState::Dangerous
            &&& readied(run(w, inputs.take(k)), inputs[k]).grid.at(a).upd <= 0
            &&& run(w, inputs.take(k + 1)).grid.at(a).typ == TileType::Explosion
            &&& run(w, inputs.take(k + 1)).grid.at(a).state == TileState::Dangerous
        },
    decreases inputs.len(),
{
    if inputs.len() > 0 {
        let next = ticked(w, inputs[0]);
        let rest = inputs.skip(1);
        lemma_blast_tick(w, inputs[0], a);
        if readied(w, inputs[0]).grid.at(a).upd <= 0 {
            let first = inputs.take(1);
            assert(first.skip(1) =~= Seq::<TickInput>::empty());
            assert(first[0] == inputs[0]);
            assert(run(w, first) == run(next, first.skip(1)));
            assert(inputs.take(0) =~= Seq::<TickInput>::empty());
        } else {
            lemma_blast_in_run(next, rest, a);
            match due_in(next, rest, a) {
                Some(k) => {
                    let head = inputs.take(k + 2);
                    assert(head[0] == inputs[0]);
                    assert(head.skip(1) =~= rest.take(k + 1));
                    let before = inputs.take(k + 1);
                    assert(before[0] == inputs[0]);
                    assert(before.skip(1) =~= rest.take(k));
                    assert(rest[k] == inputs[k + 1]);
                },
                None => {},
            }
        }
    }
}

/// None of the systems changes the time scale.
proof fn lemma_systems_keep_speed(w: World, c: Coord)
    requires
        w.grid.wf(),
    ensures
        gravity_step(w, c).data.speed == w.data.speed,
        orange_disk_step(w, c).data.speed == w.data.speed,
        transitory_step(w, c).data.speed == w.data.speed,
        explode_step(w, c).data.speed == w.data.speed,
        ai_step(w, c).data.speed == w.data.speed,
        murphy_step(w, c).world.data.speed == w.data.speed,
{
    crate::tile_data::systems::murphy_system::lemma_detonated_data(w);
}

/// A scan leaves the time scale as it is.
pub proof fn lemma_scanned_speed(w: World)
    requires
        w.grid.wf(),
    ensures
        scanned(w).data.speed == w.data.speed,
{
    let playing = w.data.game_state == GameState::Active;
    let f = |v: World, c: Coord| dispatch(playing, v, c);
    let inv = |v: World| v.grid.wf() && v.data.speed == w.data.speed;
    assert forall|v: World, c: Coord| inv(v) implies inv(#[trigger] f(v, c)) by {
        lemma_visit_shape(playing, v, c);
        lemma_systems_keep_speed(v, c);
        assert(f(v, c).data.speed == v.data.speed) by {
            reveal(dispatch);
        }
    }
    lemma_sweep_keeps(f, inv, w, w.grid.width, w.grid.height);
}

/// The time that passes in the ticks `inputs`, in timer units.
pub open spec fn passed(w: World, inputs: Seq<TickInput>) -> int
    decreases inputs.len(),
{
    if inputs.len() == 0 {
        0
    } else {
        scaled_time(inputs[0].frame_time, w.data.speed) + passed(
            ticked(w, inputs[0]),
            inputs.skip(1),
        )
    }
}

/// When a delayed blast is due. With time running forwards, the timer of a
/// delayed blast has run out by the end of a run of ticks in which at least
/// as much time passes as the timer shows: the blast goes off in one of
/// these ticks, and in the first of them that brings the time passed up to
/// its timer.
pub proof fn lemma_due(w: World, inputs: Seq<TickInput>, a: Coord)
    requires
        w.grid.wf(),
        w.data.speed >= 0,
        w.grid.at(a).typ == TileType::Explosion2,
        w.grid.at(a).state == TileState::Dangerous,
        passed(w, inputs) >= w.grid.at(a).upd,
        inputs.len() > 0,
    ensures
        due_in(w, inputs, a) is Some,
        due_in(w, inputs, a) matches Some(k) ==> passed(w, inputs.take(k + 1)) >= w.grid.at(
            a,
        ).upd && (k > 0 ==> passed(w, inputs.take(k)) < w.grid.at(a).upd),
    decreases inputs.len(),
{
    let time = scaled_time(inputs[0].frame_time, w.data.speed);
    let next = ticked(w, inputs[0]);
    let rest = inputs.skip(1);
    lemma_blast_tick(w, inputs[0], a);
    lemma_aged(w.grid, time);
    lemma_scanned_speed(readied(w, inputs[0]));
    assert(time >= 0) by {
        assert(inputs[0].frame_time * w.data.speed >= 0) by (nonlinear_arith)
            requires
                inputs[0].frame_time >= 0,
                w.data.speed >= 0,
        ;
    }
    if readied(w, inputs[0]).grid.at(a).upd <= 0 {
        let first = inputs.take(1);
        assert(first.skip(1) =~= Seq::<TickInput>::empty());
        assert(first[0] == inputs[0]);
        assert(passed(w, first) == time + passed(next, first.skip(1)));
        assert(passed(next, first.skip(1)) == 0);
    } else {
        assert(rest.len() > 0) by {
            if rest.len() == 0 {
                assert(passed(next, rest) == 0);
            }
        }
        lemma_due(next, rest, a);
        let k = due_in(next, rest, a)->0;
        lemma_blast_in_run(next, rest, a);
        let head = inputs.take(k + 2);
        assert(head[0] == inputs[0]);
        assert(head.skip(1) =~= rest.take(k + 1));
        assert(passed(w, head) == time + passed(next, head.skip(1)));
        let before = inputs.take(k + 1);
        assert(before[0] == inputs[0]);
        assert(before.skip(1) =~= rest.take(k));
        assert(passed(w, before) == time + passed(next, before.skip(1)));
        if k == 0 {
            assert(passed(next, rest.take(0)) == 0);
        }
    }
}

/// A run of ticks is the run of all but the last, and then the last.
pub proof fn lemma_run_last(w: World, inputs: Seq<TickInput>)
    requires
        inputs.len() > 0,
    ensures
        run(w, inputs) == ticked(run(w, inputs.drop_last()), inputs.last()),
    decreases inputs.len(),
{
    let next = ticked(w, inputs[0]);
    let rest = inputs.skip(1);
    let front = inputs.drop_last();
    assert(run(w, inputs) == run(next, rest));
    if inputs.len() == 1 {
        assert(rest.len() == 0);
        assert(front.len() == 0);
        assert(run(next, rest) == next);
        assert(run(w, front) == w);
        assert(inputs.last() == inputs[0]);
    } else {
        lemma_run_last(next, rest);
        assert(rest.drop_last() =~= front.skip(1));
        assert(front[0] == inputs[0]);
        assert(rest.last() == inputs.last());
        assert(run(w, front) == run(next, front.skip(1)));
    }
}

/// A chain reaction over a run of ticks. A delayed blast at `a` waits until
/// its timer has run out and then goes off. If at that time one of the
/// cells around it holds a fused tile, the explosion catches that cell:
/// after that tick it holds a blast. This holds of a cell that the scan
/// visits after `a` in any grid, and of one that it visits before `a` in a
/// grid whose delayed blasts are in their proper state. A tile found there
/// by the explosion goes off in its turn as soon as its own timer has run
/// out, as `lemma_blast_in_run` says of it.
pub proof fn lemma_chain_in_run(w: World, inputs: Seq<TickInput>, a: Coord, b: Coord)
    requires
        w.grid.wf(),
        w.grid.at(a).typ == TileType::Explosion2,
        w.grid.at(a).state == TileState::Dangerous,
        crate::tile_data::systems::explode_system::is_neighbour(a, b),
        comes_after(b, a) || blasts_proper(w.grid),
        w.grid.has(b),
        due_in(w, inputs, a) matches Some(k) && is_fused(run(w, inputs.take(k)).grid.at(b)),
    ensures
        due_in(w, inputs, a) matches Some(k) && {
            &&& 0 <= k < inputs.len()
            &&& run(w, inputs.take(k + 1)).grid.at(a).typ == TileType::Explosion
            &&& is_blast(run(w, inputs.take(k + 1)).grid.at(b))
        },
{
    lemma_blast_in_run(w, inputs, a);
    let k = due_in(w, inputs, a)->0;
    let before = run(w, inputs.take(k));
    let head = inputs.take(k + 1);
    assert(head.drop_last() =~= inputs.take(k));
    assert(head.last() == inputs[k]);
    lemma_run_last(w, head);
    let v = readied(before, inputs[k]);
    let time = scaled_time(inputs[k].frame_time, before.data.speed);
    lemma_aged(before.grid, time);
    lemma_run_shape(w, inputs.take(k));
    if comes_after(b, a) {
        lemma_chain_in_scan(v, a, b);
    } else {
        lemma_run_proper(w, inputs.take(k));
        lemma_aged_proper(before.grid, time);
        lemma_chain_back_in_scan(v, a, b);
    }
}

/// A run of ticks leaves the grid the size it was, and well-formed if it
/// was.
pub proof fn lemma_run_shape(w: World, inputs: Seq<TickInput>)
    requires
        w.grid.wf(),
    ensures
        run(w, inputs).grid.wf(),
        run(w, inputs).grid.width == w.grid.width,
        run(w, inputs).grid.height == w.grid.height,
    decreases inputs.len(),
{
    if inputs.len() > 0 {
        let v = readied(w, inputs[0]);
        lemma_aged(w.grid, scaled_time(inputs[0].frame_time, w.data.speed));
        lemma_scanned_shape(v);
        lemma_run_shape(ticked(w, inputs[0]), inputs.skip(1));
    }
}

/// Whether an explosion next to `tile` leaves a delayed blast there, and
/// nothing takes the tile away before: it is an actor that cannot be eaten
/// and that no terminal sets off, or it is a delayed blast already.
pub open spec fn is_fused(tile: Tile) -> bool {
    ||| tile.typ.is_actor() && tile.typ != TileType::YellowUtilityDisk && tile.state
        != TileState::Eatable
    ||| tile.typ == TileType::Explosion2 && tile.state == TileState::Dangerous
}

/// An explosion elsewhere leaves a fused tile fused.
proof fn lemma_fused_stays_blast(w: World, c: Coord, b: Coord)
    requires
        c != b,
        is_fused(w.grid.at(b)),
    ensures
        is_fused(explode_at(w, c).grid.at(b)),
        is_fused(explode_step(w, c).grid.at(b)),
{
    crate::tile_data::systems::explode_system::lemma_explosion(w.grid, c, b);
}

/// Operating a terminal leaves a fused tile fused.
proof fn lemma_fused_stays_detonated(w: World, b: Coord)
    requires
        w.grid.wf(),
        is_fused(w.grid.at(b)),
    ensures
        is_fused(detonated(w).grid.at(b)),
{
    let f = |v: World, c: Coord| detonate_cell(v, c);
    let inv = |v: World| is_fused(v.grid.at(b));
    assert forall|v: World, c: Coord| inv(v) implies inv(#[trigger] f(v, c)) by {
        if v.grid.at(c).typ == TileType::YellowUtilityDisk {
            lemma_fused_stays_blast(v, c, b);
        }
    }
    lemma_sweep_keeps(f, inv, w, w.grid.width, w.grid.height);
}

/// What falls elsewhere leaves a fused tile fused.
proof fn lemma_fused_stays_gravity(w: World, c: Coord, b: Coord)
    requires
        w.grid.has(c),
        w.grid.wf(),
        c != b,
        is_fused(w.grid.at(b)),
    ensures
        is_fused(gravity_step(w, c).grid.at(b)),
        is_fused(orange_disk_step(w, c).grid.at(b)),
{
    lemma_fused_stays_blast(w, c, b);
}

/// An enemy elsewhere leaves a fused tile fused.
proof fn lemma_fused_stays_ai(w: World, c: Coord, b: Coord)
    requires
        w.grid.has(c),
        w.grid.wf(),
        c != b,
        is_fused(w.grid.at(b)),
    ensures
        is_fused(ai_step(w, c).grid.at(b)),
{
    lemma_fused_stays_blast(w, c, b);
}

/// The player elsewhere leaves a fused tile fused: pushing it away, the
/// player takes its place.
proof fn lemma_fused_stays_murphy(w: World, c: Coord, b: Coord)
    requires
        w.grid.has(c),
        w.grid.wf(),
        c != b,
        is_fused(w.grid.at(b)),
    ensures
        is_fused(murphy_step(w, c).world.grid.at(b)),
{
    if w.grid.at(c).upd <= 0 {
        match first_legal(w, c, w.data.move_priority) {
            Some(dir) => {
                let c2 = c.step(dir);
                match murphy_action(w, c, dir) {
                    MurphyAction::Detonate => {
                        lemma_fused_stays_detonated(w, b);
                    },
                    MurphyAction::Die => {
                        lemma_fused_stays_blast(w, c, b);
                    },
                    MurphyAction::Push => {
                        assert(w.grid.has(c2));
                    },
                    MurphyAction::Tunnel => {
                        assert(w.grid.has(c2));
                    },
                    _ => {},
                }
            },
            None => {},
        }
    }
}

/// A visit to another cell leaves a fused tile fused.
pub proof fn lemma_fused_stays(playing: bool, w: World, c: Coord, b: Coord)
    requires
        w.grid.wf(),
        w.grid.has(c),
        c != b,
        is_fused(w.grid.at(b)),
    ensures
        is_fused(dispatch(playing, w, c).grid.at(b)),
{
    reveal(dispatch);
    match w.grid.at(c).typ {
        TileType::Infotron | TileType::Zonk | TileType::OrangeUtilityDisk => {
            lemma_fused_stays_gravity(w, c, b);
        },
        TileType::Murphy => lemma_fused_stays_murphy(w, c, b),
        TileType::SnikSnak => lemma_fused_stays_ai(w, c, b),
        TileType::Explosion | TileType::Explosion2 => lemma_fused_stays_blast(w, c, b),
        _ => {},
    }
}

/// Whether a scan visits `b` after `a`.
pub open spec fn comes_after(b: Coord, a: Coord) -> bool {
    b.y > a.y || (b.y == a.y && b.x > a.x)
}

/// A chain reaction within a scan. When a delayed blast at `a` whose time
/// is up goes off, a fused tile in one of the cells around it that the scan
/// has yet to visit is caught: when the scan is over, that cell holds a
/// blast, delayed or plain, whatever else has happened in the scan.
pub proof fn lemma_chain_in_scan(w: World, a: Coord, b: Coord)
    requires
        w.grid.wf(),
        w.grid.has(a),
        w.grid.has(b),
        w.grid.at(a).typ == TileType::Explosion2,
        w.grid.at(a).state == TileState::Dangerous,
        w.grid.at(a).upd <= 0,
        crate::tile_data::systems::explode_system::is_neighbour(a, b),
        comes_after(b, a),
        is_fused(w.grid.at(b)),
    ensures
        is_blast(scanned(w).grid.at(b)),
        scanned(w).grid.at(a).typ == TileType::Explosion,
{
    lemma_blast_goes_off(w, a);
    let g = w.grid;
    let playing = w.data.game_state == GameState::Active;
    let f = |v: World, c: Coord| dispatch(playing, v, c);
    let ia = a.y * g.width + a.x;
    let ib = b.y * g.width + b.x;
    assert(ia < ib) by (nonlinear_arith)
        requires
            ia == a.y * g.width + a.x,
            ib == b.y * g.width + b.x,
            0 <= a.x < g.width,
            0 <= b.x < g.width,
            b.y > a.y || (b.y == a.y && b.x > a.x),
    ;
    let inv = |v: World, k: int|
        {
            &&& v.grid.wf()
            &&& v.grid.width == g.width
            &&& v.grid.height == g.height
            &&& k <= ia ==> v.grid.at(a) == g.at(a) && is_fused(v.grid.at(b))
            &&& ia < k <= ib ==> v.grid.at(b).typ == TileType::Explosion2 && v.grid.at(b).state
                == TileState::Dangerous
            &&& k > ib ==> is_blast(v.grid.at(b))
        };
    assert forall|v: World, c: Coord|
        0 <= c.x < g.width && 0 <= c.y < g.height && inv(v, c.y * g.width + c.x) implies inv(
        #[trigger] f(v, c),
        c.y * g.width + c.x + 1,
    ) by {
        let k = c.y * g.width + c.x;
        lemma_visit_shape(playing, v, c);
        if c != a && k == ia {
            crate::grid::lemma_index_injective(
                g.width,
                c.x as int,
                c.y as int,
                a.x as int,
                a.y as int,
            );
        }
        if c != b && k == ib {
            crate::grid::lemma_index_injective(
                g.width,
                c.x as int,
                c.y as int,
                b.x as int,
                b.y as int,
            );
        }
        if c == a {
            reveal(dispatch);
            crate::tile_data::systems::explode_system::lemma_explosion(v.grid, a, b);
        } else if c == b {
            reveal(dispatch);
            crate::tile_data::systems::explode_system::lemma_explosion(v.grid, b, b);
        } else if k < ia {
            lemma_blast_stays(playing, v, c, a);
            lemma_fused_stays(playing, v, c, b);
        } else {
            lemma_blast_stays(playing, v, c, b);
        }
    }
    assert(0 * g.width == 0) by (nonlinear_arith);
    assert(0 <= ia) by (nonlinear_arith)
        requires
            ia == a.y * g.width + a.x,
            0 <= a.y,
            0 <= a.x,
            0 <= g.width,
    ;
    lemma_sweep_rows_in_order(f, inv, w, g.width, g.height, 0);
    assert(ib < g.height * g.width) by (nonlinear_arith)
        requires
            ib == b.y * g.width + b.x,
            0 <= b.x < g.width,
            0 <= b.y < g.height,
    ;
}

/// Whether an explosion next to `tile` leaves a blast in its cell.
pub open spec fn gives_way(tile: Tile) -> bool {
    is_blast(blasted(tile, EXPLOSION_TIME))
}

/// Whether every delayed blast in `g` is in its proper state.
pub open spec fn blasts_proper(g: GridView) -> bool {
    forall|c: Coord| (#[trigger] g.at(c)).typ == TileType::Explosion2 ==> g.at(c).state
        == TileState::Dangerous
}

/// Whether `after` holds what `before` held, or something that gives way.
pub open spec fn yields(before: Tile, after: Tile) -> bool {
    after == before || gives_way(after)
}

/// What an explosion writes gives way.
proof fn lemma_yields_blast(w: World, c: Coord, d: Coord)
    ensures
        yields(w.grid.at(d), explode_at(w, c).grid.at(d)),
        yields(w.grid.at(d), explode_step(w, c).grid.at(d)),
{
    crate::tile_data::systems::explode_system::lemma_explosion(w.grid, c, d);
}

/// What is written when a terminal is operated gives way.
proof fn lemma_yields_detonated(w: World, d: Coord)
    requires
        w.grid.wf(),
    ensures
        yields(w.grid.at(d), detonated(w).grid.at(d)),
{
    let t = w.grid.at(d);
    let f = |v: World, c: Coord| detonate_cell(v, c);
    let inv = |v: World| yields(t, v.grid.at(d));
    assert forall|v: World, c: Coord| inv(v) implies inv(#[trigger] f(v, c)) by {
        lemma_yields_blast(v, c, d);
    }
    lemma_sweep_keeps(f, inv, w, w.grid.width, w.grid.height);
}

/// What gravity writes gives way: what falls is dangerous, and what has
/// come to rest can be pushed or eaten.
proof fn lemma_yields_gravity(w: World, c: Coord, d: Coord)
    requires
        w.grid.wf(),
        w.grid.has(c),
    ensures
        w.grid.at(c).typ == TileType::Zonk || w.grid.at(c).typ == TileType::Infotron ==> yields(
            w.grid.at(d),
            gravity_step(w, c).grid.at(d),
        ),
        w.grid.at(c).typ == TileType::OrangeUtilityDisk ==> yields(
            w.grid.at(d),
            orange_disk_step(w, c).grid.at(d),
        ),
{
    lemma_yields_blast(w, c, d);
}

/// What an enemy writes gives way.
proof fn lemma_yields_ai(w: World, c: Coord, d: Coord)
    requires
        w.grid.wf(),
        w.grid.has(c),
        w.grid.at(c).typ == TileType::SnikSnak,
    ensures
        yields(w.grid.at(d), ai_step(w, c).grid.at(d)),
{
    lemma_yields_blast(w, c, d);
}

/// What the player writes gives way: the player can push only what does.
proof fn lemma_yields_murphy(w: World, c: Coord, d: Coord)
    requires
        w.grid.wf(),
        w.grid.has(c),
        w.grid.at(c).typ == TileType::Murphy,
        blasts_proper(w.grid),
    ensures
        yields(w.grid.at(d), murphy_step(w, c).world.grid.at(d)),
{
    if w.grid.at(c).upd <= 0 {
        match first_legal(w, c, w.data.move_priority) {
            Some(dir) => {
                let c2 = c.step(dir);
                match murphy_action(w, c, dir) {
                    MurphyAction::Detonate => {
                        lemma_yields_detonated(w, d);
                    },
                    MurphyAction::Die => {
                        lemma_yields_blast(w, c, d);
                    },
                    MurphyAction::Push => {
                        assert(w.grid.has(c2));
                    },
                    MurphyAction::Tunnel => {
                        assert(w.grid.has(c2));
                    },
                    _ => {},
                }
            },
            None => {},
        }
    }
}

/// Whatever a visit writes into a cell gives way to an explosion: nothing
/// that withstands one moves or comes into being.
pub proof fn lemma_visit_yields(playing: bool, w: World, c: Coord, d: Coord)
    requires
        w.grid.wf(),
        w.grid.has(c),
        blasts_proper(w.grid),
    ensures
        yields(w.grid.at(d), dispatch(playing, w, c).grid.at(d)),
{
    reveal(dispatch);
    match w.grid.at(c).typ {
        TileType::Infotron | TileType::Zonk | TileType::OrangeUtilityDisk => {
            lemma_yields_gravity(w, c, d);
        },
        TileType::Murphy => lemma_yields_murphy(w, c, d),
        TileType::SnikSnak => lemma_yields_ai(w, c, d),
        TileType::Explosion | TileType::Explosion2 => lemma_yields_blast(w, c, d),
        _ => {},
    }
}

/// A visit leaves every delayed blast in its proper state.
pub proof fn lemma_visit_proper(playing: bool, w: World, c: Coord)
    requires
        w.grid.wf(),
        w.grid.has(c),
        blasts_proper(w.grid),
    ensures
        blasts_proper(dispatch(playing, w, c).grid),
{
    let after = dispatch(playing, w, c).grid;
    assert forall|d: Coord| (#[trigger] after.at(d)).typ == TileType::Explosion2 implies after.at(
        d,
    ).state == TileState::Dangerous by {
        lemma_visit_yields(playing, w, c, d);
        assert(w.grid.at(d).typ == TileType::Explosion2 ==> w.grid.at(d).state
            == TileState::Dangerous);
    }
}

/// A chain reaction within a scan, backwards. When a delayed blast at `a`
/// whose time is up goes off, it also catches the cells around it that the
/// scan has visited already. Whatever such a cell holds by then, if it gave
/// way at the start of the scan it gives way still: when the scan is over,
/// the cell holds a blast.
pub proof fn lemma_chain_back_in_scan(w: World, a: Coord, b: Coord)
    requires
        w.grid.wf(),
        w.grid.has(a),
        w.grid.has(b),
        w.grid.at(a).typ == TileType::Explosion2,
        w.grid.at(a).state == TileState::Dangerous,
        w.grid.at(a).upd <= 0,
        crate::tile_data::systems::explode_system::is_neighbour(a, b),
        comes_after(a, b),
        gives_way(w.grid.at(b)),
        blasts_proper(w.grid),
    ensures
        is_blast(scanned(w).grid.at(b)),
        scanned(w).grid.at(a).typ == TileType::Explosion,
{
    lemma_blast_goes_off(w, a);
    let g = w.grid;
    let playing = w.data.game_state == GameState::Active;
    let f = |v: World, c: Coord| dispatch(playing, v, c);
    let ia = a.y * g.width + a.x;
    let ib = b.y * g.width + b.x;
    assert(ib < ia) by (nonlinear_arith)
        requires
            ia == a.y * g.width + a.x,
            ib == b.y * g.width + b.x,
            0 <= a.x < g.width,
            0 <= b.x < g.width,
            a.y > b.y || (a.y == b.y && a.x > b.x),
    ;
    let inv = |v: World, k: int|
        {
            &&& v.grid.wf()
            &&& v.grid.width == g.width
            &&& v.grid.height == g.height
            &&& k <= ia ==> v.grid.at(a) == g.at(a) && gives_way(v.grid.at(b)) && blasts_proper(
                v.grid,
            )
            &&& k > ia ==> is_blast(v.grid.at(b))
        };
    assert forall|v: World, c: Coord|
        0 <= c.x < g.width && 0 <= c.y < g.height && inv(v, c.y * g.width + c.x) implies inv(
        #[trigger] f(v, c),
        c.y * g.width + c.x + 1,
    ) by {
        let k = c.y * g.width + c.x;
        lemma_visit_shape(playing, v, c);
        if c != a && k == ia {
            crate::grid::lemma_index_injective(
                g.width,
                c.x as int,
                c.y as int,
                a.x as int,
                a.y as int,
            );
        }
        if c != b && k == ib {
            crate::grid::lemma_index_injective(
                g.width,
                c.x as int,
                c.y as int,
                b.x as int,
                b.y as int,
            );
        }
        if c == a {
            reveal(dispatch);
            crate::tile_data::systems::explode_system::lemma_explosion(v.grid, a, b);
        } else if k < ia {
            lemma_blast_stays(playing, v, c, a);
            lemma_visit_yields(playing, v, c, b);
            lemma_visit_proper(playing, v, c);
        } else {
            lemma_blast_stays(playing, v, c, b);
        }
    }
    assert(0 * g.width == 0) by (nonlinear_arith);
    assert(0 <= ib) by (nonlinear_arith)
        requires
            ib == b.y * g.width + b.x,
            0 <= b.y,
            0 <= b.x,
            0 <= g.width,
    ;
    lemma_sweep_rows_in_order(f, inv, w, g.width, g.height, 0);
    assert(ia < g.height * g.width) by (nonlinear_arith)
        requires
            ia == a.y * g.width + a.x,
            0 <= a.x < g.width,
            0 <= a.y < g.height,
    ;
}

/// Letting time pass leaves every delayed blast in its proper state.
pub proof fn lemma_aged_proper(g: GridView, time: i32)
    requires
        g.wf(),
        blasts_proper(g),
    ensures
        blasts_proper(aged(g, time)),
{
    lemma_aged(g, time);
    assert forall|c: Coord| (#[trigger] aged(g, time).at(c)).typ == TileType::Explosion2 implies aged(
        g,
        time,
    ).at(c).state == TileState::Dangerous by {
        assert(g.at(c).typ == TileType::Explosion2 ==> g.at(c).state == TileState::Dangerous);
    }
}

/// A scan leaves every delayed blast in its proper state.
pub proof fn lemma_scanned_proper(w: World)
    requires
        w.grid.wf(),
        blasts_proper(w.grid),
    ensures
        blasts_proper(scanned(w).grid),
{
    let playing = w.data.game_state == GameState::Active;
    let f = |v: World, c: Coord| dispatch(playing, v, c);
    let inv = |v: World|
        {
            &&& v.grid.wf()
            &&& v.grid.width == w.grid.width
            &&& v.grid.height == w.grid.height
            &&& blasts_proper(v.grid)
        };
    assert forall|v: World, c: Coord|
        0 <= c.x < w.grid.width && 0 <= c.y < w.grid.height && inv(v) implies inv(
        #[trigger] f(v, c),
    ) by {
        lemma_visit_shape(playing, v, c);
        lemma_visit_proper(playing, v, c);
    }
    lemma_sweep_keeps(f, inv, w, w.grid.width, w.grid.height);
}

/// A run of ticks leaves every delayed blast in its proper state. A level
/// read from a file starts without any blast.
pub proof fn lemma_run_proper(w: World, inputs: Seq<TickInput>)
    requires
        w.grid.wf(),
        blasts_proper(w.grid),
    ensures
        blasts_proper(run(w, inputs).grid),
    decreases inputs.len(),
{
    if inputs.len() > 0 {
        let time = scaled_time(inputs[0].frame_time, w.data.speed);
        let v = readied(w, inputs[0]);
        lemma_aged(w.grid, time);
        lemma_aged_proper(w.grid, time);
        lemma_scanned_proper(v);
        lemma_scanned_shape(v);
        lemma_run_proper(ticked(w, inputs[0]), inputs.skip(1));
    }
}

/// A delayed blast that goes off takes the actors around it along: an
/// actor in one of the eight cells around it becomes a delayed blast in its
/// turn, with the timer of the explosion.
pub proof fn lemma_chain_reaches(w: World, a: Coord, b: Coord)
    requires
        w.grid.has(a),
        w.grid.has(b),
        w.grid.at(a).typ == TileType::Explosion2,
        w.grid.at(a).upd <= 0,
        crate::tile_data::systems::explode_system::is_neighbour(a, b),
        w.grid.at(b).typ.is_actor(),
    ensures
        explode_step(w, a).grid.at(a) == Tile::blast(
            TileType::Explosion,
            timer_plus(w.grid.at(a).upd, EXPLOSION_TIME),
        ),
        explode_step(w, a).grid.at(b) == Tile::blast(
            TileType::Explosion2,
            timer_plus(w.grid.at(a).upd, EXPLOSION_TIME),
        ),
{
}

/// A visit leaves the grid the size it was, and well-formed if it was.
pub proof fn lemma_visit_shape(playing: bool, w: World, c: Coord)
    requires
        w.grid.wf(),
    ensures
        dispatch(playing, w, c).grid.wf(),
        dispatch(playing, w, c).grid.width == w.grid.width,
        dispatch(playing, w, c).grid.height == w.grid.height,
{
    reveal(dispatch);
    crate::tile_data::systems::murphy_system::lemma_murphy_shape(w, c);
    crate::tile_data::systems::explode_system::lemma_explosion(w.grid, c, c);
    let g = w.grid;
    assert forall|d: Coord, e: Coord, t: Tile, u: Tile| #![trigger g.put(d, t).put(e, u)]
        g.put(d, t).put(e, u).wf() && g.put(d, t).wf() by {
        crate::grid::lemma_put(g, d, t, d);
        crate::grid::lemma_put(g.put(d, t), e, u, e);
    }
}

} // verus!
