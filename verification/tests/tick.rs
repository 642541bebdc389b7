// The tick: input, time, scan.

use supaplex::grid::{Coord, FCoord, Grid};
use supaplex::level::{scale_time, GameState, KeyEdge, Level, TickInput};
use supaplex::tile_data::systems::explode_system::set_area_explode;
use supaplex::tile_data::tile::Tile;
use supaplex::tile_data::tile_interaction::TileInteraction;
use supaplex::tile_data::tile_move::TileMove;
use supaplex::tile_data::tile_state::TileState;
use supaplex::tile_data::tile_type::TileType;

const E: u8 = 0;
const Z: u8 = 1;
const B: u8 = 2;
const M: u8 = 3;
const I: u8 = 4;
const W: u8 = 6;
const X: u8 = 7;
const S: u8 = 17;
const Y: u8 = 18;

const IDLE: KeyEdge = KeyEdge { pressed: false, released: false };
const PRESS: KeyEdge = KeyEdge { pressed: true, released: false };
const RELEASE: KeyEdge = KeyEdge { pressed: false, released: true };

fn quiet(frame_time: u32) -> TickInput {
    TickInput { frame_time, up: IDLE, down: IDLE, left: IDLE, right: IDLE, alternate_action: false }
}

fn level(width: i16, height: i16, codes: Vec<u8>) -> Level {
    let mut level = Level::new(8000, width, height, codes);
    level.data.infotrons_required = 0;
    level.data.red_utility_disks = 0;
    level
}

fn tile(l: &Level, x: i16, y: i16) -> Tile {
    l.grid.get(&Coord::new(x, y))
}

#[test]
fn new_level_starts_active_and_unnamed() {
    let l = Level::new(8000, 2, 1, vec![M, Z]);
    assert_eq!(l.data.name, "N/A");
    assert_eq!(l.data.speed, 8000);
    assert_eq!(l.data.delta_time, 0);
    assert_eq!(l.data.update_duration, 0);
    assert_eq!(l.data.camera_target, None);
    assert_eq!(l.data.game_state, GameState::Active);
    assert_eq!(l.data.infotrons_required, 51);
    assert_eq!(l.data.red_utility_disks, 7);
    assert!(!l.data.gravity_enabled);
    assert!(!l.data.zonks_frozen);
    assert!(!l.data.alternate_action);
    assert!(l.data.move_priority.is_empty());
    assert_eq!(l.grid.width, 2);
    assert_eq!(l.grid.height, 1);
    assert_eq!(tile(&l, 0, 0), TileType::Murphy.to_tile());
    assert_eq!(tile(&l, 1, 0), TileType::Zonk.to_tile());
}

#[test]
fn time_is_scaled_and_truncated() {
    assert_eq!(scale_time(16_667, 8000), 133);
    assert_eq!(scale_time(15_625, 8000), 125);
    assert_eq!(scale_time(1_000_000, 8000), 8000);
    assert_eq!(scale_time(0, 8000), 0);
    assert_eq!(scale_time(16_667, 0), 0);
    assert_eq!(scale_time(124, 8000), 0);
    assert_eq!(scale_time(125, 8000), 1);
    assert_eq!(scale_time(16_667, -8000), -133);
    assert_eq!(scale_time(124, -8000), 0);
    assert_eq!(scale_time(u32::MAX, i32::MAX), i32::MAX);
    assert_eq!(scale_time(u32::MAX, i32::MIN), i32::MIN);
    assert_eq!(scale_time(u32::MAX, 500), 2_147_483);
}

#[test]
fn pressed_keys_go_to_the_front_and_released_keys_leave() {
    let mut l = level(1, 1, vec![W]);
    l.data.press(TileMove::Up);
    l.data.press(TileMove::Left);
    assert_eq!(l.data.move_priority, vec![TileMove::Left, TileMove::Up]);
    l.data.press(TileMove::Up);
    assert_eq!(l.data.move_priority, vec![TileMove::Up, TileMove::Left, TileMove::Up]);
    l.data.release(TileMove::Up);
    assert_eq!(l.data.move_priority, vec![TileMove::Left]);
    l.data.release(TileMove::Down);
    assert_eq!(l.data.move_priority, vec![TileMove::Left]);
    l.data.release(TileMove::Left);
    assert!(l.data.move_priority.is_empty());
}

#[test]
fn keys_are_read_releases_first_then_presses_in_fixed_order() {
    let mut l = level(1, 1, vec![W]);
    l.data.move_priority = vec![TileMove::Down, TileMove::Left];
    let input = TickInput {
        frame_time: 0,
        up: PRESS,
        down: RELEASE,
        left: IDLE,
        right: PRESS,
        alternate_action: true,
    };
    l.data.ingest(&input);
    assert_eq!(l.data.move_priority, vec![TileMove::Right, TileMove::Up, TileMove::Left]);
    assert!(l.data.alternate_action);

    let all = TickInput {
        frame_time: 0,
        up: PRESS,
        down: PRESS,
        left: PRESS,
        right: PRESS,
        alternate_action: false,
    };
    let mut l = level(1, 1, vec![W]);
    l.data.ingest(&all);
    assert_eq!(
        l.data.move_priority,
        vec![TileMove::Right, TileMove::Left, TileMove::Down, TileMove::Up]
    );
    assert!(!l.data.alternate_action);

    let tap = KeyEdge { pressed: true, released: true };
    let input = TickInput { frame_time: 0, up: tap, down: IDLE, left: IDLE, right: IDLE, alternate_action: false };
    let mut l = level(1, 1, vec![W]);
    l.data.move_priority = vec![TileMove::Up, TileMove::Left];
    l.data.ingest(&input);
    assert_eq!(l.data.move_priority, vec![TileMove::Up, TileMove::Left]);
}

#[test]
fn a_tick_runs_timers_then_scans() {
    let mut l = level(3, 1, vec![M, B, W]);
    let mut input = quiet(16_667);
    input.right = PRESS;
    l.update(&input);
    assert_eq!(l.data.delta_time, 133);
    assert_eq!(l.data.move_priority, vec![TileMove::Right]);
    assert_eq!(tile(&l, 0, 0), Tile::transitory(867, TileType::Empty));
    assert_eq!(
        tile(&l, 1, 0),
        Tile::murphy(867, TileMove::Right, TileMove::Right, TileInteraction::Eating(TileType::Base))
    );
    assert_eq!(tile(&l, 2, 0), TileType::HardwareWall.to_tile());
    // the camera follows the sprite, which has 867 of 1000 still to go
    assert_eq!(l.data.camera_target, Some(FCoord::new((1000 - 867) * 16 + 8000, 8000)));
    // next tick: both are busy, only the timers run
    l.update(&quiet(16_667));
    assert_eq!(tile(&l, 0, 0), Tile::transitory(734, TileType::Empty));
    assert_eq!(tile(&l, 1, 0).upd, 734);
    assert_eq!(tile(&l, 2, 0).upd, 0);
}

#[test]
fn scan_goes_row_by_row_and_sees_its_own_writes() {
    // The zonk in the top row falls first; by the time the scan reaches
    // the row below, the cell there is taken and locked.
    let mut l = level(1, 3, vec![Z, E, E]);
    l.update(&quiet(16_667));
    assert_eq!(tile(&l, 0, 0).typ, TileType::Transitory);
    assert_eq!(tile(&l, 0, 1).typ, TileType::Zonk);
    assert_eq!(tile(&l, 0, 1).upd, 867);
    assert_eq!(tile(&l, 0, 2).typ, TileType::Empty);
    // Two zonks above each other: the upper one finds the lower one still
    // in place and stays; then the lower one falls.
    let mut l = level(1, 3, vec![Z, Z, E]);
    l.update(&quiet(16_667));
    assert_eq!(tile(&l, 0, 0).typ, TileType::Zonk);
    assert_eq!(tile(&l, 0, 0).upd, 0);
    assert_eq!(tile(&l, 0, 1).typ, TileType::Transitory);
    assert_eq!(tile(&l, 0, 2).typ, TileType::Zonk);
}

#[test]
fn a_vacated_cell_is_not_free_within_the_same_scan() {
    // The enemy in the lower row wants to go up into the cell that the
    // player has just left: it finds the placeholder and stays.
    let mut l = level(2, 2, vec![M, B, S, W]);
    l.data.move_priority = vec![TileMove::Right];
    l.grid.get_mut(&Coord::new(0, 1)).unwrap().mov = TileMove::Right;
    l.grid.get_mut(&Coord::new(0, 1)).unwrap().mov2 = TileMove::Right;
    l.scan();
    assert_eq!(tile(&l, 0, 0).typ, TileType::Transitory);
    assert_eq!(tile(&l, 1, 0).typ, TileType::Murphy);
    assert_eq!(tile(&l, 0, 1).typ, TileType::SnikSnak);
    assert_eq!(tile(&l, 0, 1).mov, TileMove::Up);
}

#[test]
fn falling_rock_kills_the_player_end_to_end() {
    let codes = vec![
        W, W, W, W, W,
        W, E, Z, E, W,
        W, E, E, E, W,
        W, E, E, E, W,
        W, E, M, E, W,
        W, W, W, W, W,
    ];
    let mut l = level(5, 6, codes);
    l.update(&quiet(16_667));
    assert_eq!(tile(&l, 2, 1), Tile::transitory(867, TileType::Empty));
    let z = tile(&l, 2, 2);
    assert_eq!(z.typ, TileType::Zonk);
    assert_eq!(z.mov, TileMove::Down);
    assert_eq!(z.state, TileState::Dangerous);
    assert_eq!(z.upd, 867);
    assert_eq!(l.data.game_state, GameState::Active);
    assert_eq!(tile(&l, 2, 4), TileType::Murphy.to_tile());

    let mut ticks = 1;
    while l.data.game_state == GameState::Active && ticks < 100 {
        l.update(&quiet(16_667));
        ticks += 1;
        if ticks == 8 {
            assert_eq!(tile(&l, 2, 1).typ, TileType::Empty);
            assert_eq!(tile(&l, 2, 2).typ, TileType::Transitory);
            assert_eq!(tile(&l, 2, 3).typ, TileType::Zonk);
            assert_eq!(tile(&l, 2, 3).upd, 936);
        }
    }
    assert_eq!(ticks, 16);
    assert_eq!(l.data.game_state, GameState::Died);
    assert_eq!(tile(&l, 2, 3), Tile::blast(TileType::Explosion, 2372));
    assert_eq!(tile(&l, 2, 4), Tile::blast(TileType::Explosion2, 2372));
    assert_eq!(tile(&l, 1, 2).typ, TileType::Explosion);
    assert_eq!(tile(&l, 3, 4).typ, TileType::Explosion);
    assert_eq!(tile(&l, 2, 5).typ, TileType::HardwareWall);
    assert_eq!(tile(&l, 0, 3).typ, TileType::HardwareWall);
}

#[test]
fn a_rock_resting_on_the_player_does_no_harm() {
    let mut l = level(3, 3, vec![E, Z, E, E, M, E, E, E, E]);
    for _ in 0..40 {
        l.update(&quiet(16_667));
    }
    assert_eq!(l.data.game_state, GameState::Active);
    assert_eq!(tile(&l, 1, 0).typ, TileType::Zonk);
    assert_eq!(tile(&l, 1, 1).typ, TileType::Murphy);
}

#[test]
fn a_chain_of_two_actors_goes_off_within_two_blast_times() {
    let mut l = level(5, 1, vec![B, Y, Y, B, B]);
    let mut state = GameState::Active;
    set_area_explode(&Coord::new(0, 0), &mut l.grid, &mut state);
    assert_eq!(tile(&l, 0, 0), Tile::blast(TileType::Explosion, 2500));
    assert_eq!(tile(&l, 1, 0), Tile::blast(TileType::Explosion2, 2500));
    assert_eq!(tile(&l, 2, 0), TileType::YellowUtilityDisk.to_tile());
    // 125 units a tick: a blast lasts 20 ticks
    for _ in 0..19 {
        l.update(&quiet(15_625));
    }
    assert_eq!(tile(&l, 1, 0), Tile::blast(TileType::Explosion2, 125));
    assert_eq!(tile(&l, 2, 0).typ, TileType::YellowUtilityDisk);
    l.update(&quiet(15_625));
    assert_eq!(tile(&l, 0, 0), Tile::blast(TileType::Explosion, 2500));
    assert_eq!(tile(&l, 1, 0), Tile::blast(TileType::Explosion, 2500));
    assert_eq!(tile(&l, 2, 0), Tile::blast(TileType::Explosion2, 2500));
    assert_eq!(tile(&l, 3, 0).typ, TileType::Base);
    for _ in 0..19 {
        l.update(&quiet(15_625));
    }
    assert_eq!(tile(&l, 2, 0), Tile::blast(TileType::Explosion2, 125));
    assert_eq!(tile(&l, 3, 0).typ, TileType::Base);
    l.update(&quiet(15_625));
    // 40 ticks of 125 units: two blast times, and the chain is through
    assert_eq!(tile(&l, 1, 0), Tile::blast(TileType::Explosion, 2500));
    assert_eq!(tile(&l, 2, 0), Tile::blast(TileType::Explosion, 2500));
    assert_eq!(tile(&l, 3, 0), Tile::blast(TileType::Explosion, 2500));
    assert_eq!(tile(&l, 0, 0).typ, TileType::Empty);
    assert_eq!(tile(&l, 4, 0).typ, TileType::Base);
    for _ in 0..20 {
        l.update(&quiet(15_625));
    }
    for x in 0..4 {
        assert_eq!(tile(&l, x, 0).typ, TileType::Empty);
    }
}

#[test]
fn the_player_stops_acting_once_the_game_is_over() {
    let mut l = level(3, 1, vec![X, M, I]);
    l.data.move_priority = vec![TileMove::Left, TileMove::Right];
    l.update(&quiet(16_667));
    assert_eq!(l.data.game_state, GameState::Finished);
    assert_eq!(tile(&l, 1, 0).typ, TileType::Murphy);
    assert_eq!(tile(&l, 2, 0).typ, TileType::Infotron);
    l.data.move_priority = vec![TileMove::Right];
    for _ in 0..10 {
        l.update(&quiet(16_667));
    }
    assert_eq!(tile(&l, 1, 0).typ, TileType::Murphy);
    assert_eq!(tile(&l, 2, 0).typ, TileType::Infotron);
    assert_eq!(l.data.infotrons_required, 0);
    assert_eq!(l.data.camera_target, Some(FCoord::new(24_000, 8_000)));
}

#[test]
fn nothing_moves_once_the_game_is_over() {
    for state in [GameState::Died, GameState::Finished] {
        let mut l = level(3, 3, vec![Z, 8, S, E, E, E, E, E, E]);
        l.grid.get_mut(&Coord::new(2, 0)).unwrap().mov = TileMove::Down;
        l.grid.get_mut(&Coord::new(2, 0)).unwrap().mov2 = TileMove::Down;
        l.data.game_state = state;
        for _ in 0..20 {
            l.update(&quiet(16_667));
        }
        assert_eq!(tile(&l, 0, 0).typ, TileType::Zonk);
        assert_eq!(tile(&l, 1, 0).typ, TileType::OrangeUtilityDisk);
        assert_eq!(tile(&l, 2, 0).typ, TileType::SnikSnak);
        assert_eq!(tile(&l, 2, 0).mov, TileMove::Down);
        assert_eq!(tile(&l, 0, 0).upd, -20 * 133);
        for x in 0..3 {
            assert_eq!(tile(&l, x, 1).typ, TileType::Empty);
        }
        assert_eq!(l.data.game_state, state);
    }
}

#[test]
fn placeholders_and_blasts_run_out_after_the_game_is_over() {
    let mut l = level(3, 1, vec![B, B, B]);
    l.grid.set(&Coord::new(0, 0), Tile::transitory(100, TileType::Base));
    l.grid.set(&Coord::new(2, 0), Tile::blast(TileType::Explosion, 100));
    l.data.game_state = GameState::Died;
    l.update(&quiet(16_667));
    assert_eq!(tile(&l, 0, 0), TileType::Empty.to_tile());
    assert_eq!(tile(&l, 2, 0), TileType::Empty.to_tile());
    assert_eq!(tile(&l, 1, 0), TileType::Base.to_tile());
    assert_eq!(l.data.game_state, GameState::Died);
}

#[test]
fn a_game_that_is_won_is_not_lost_afterwards() {
    // a delayed blast runs out beside the player after the game is won
    let mut l = level(2, 1, vec![B, M]);
    l.grid.set(&Coord::new(0, 0), Tile::blast(TileType::Explosion2, 0));
    l.data.game_state = GameState::Finished;
    l.data.infotrons_required = 3;
    l.data.red_utility_disks = 2;
    l.data.move_priority = vec![TileMove::Left];
    l.update(&quiet(0));
    assert_eq!(l.data.game_state, GameState::Finished);
    assert_eq!(tile(&l, 0, 0), Tile::blast(TileType::Explosion, 2500));
    assert_eq!(tile(&l, 1, 0), Tile::blast(TileType::Explosion2, 2500));
    assert_eq!(l.data.infotrons_required, 3);
    assert_eq!(l.data.red_utility_disks, 2);
    // the same while the game goes on loses it
    let mut l = level(2, 1, vec![B, M]);
    l.grid.set(&Coord::new(0, 0), Tile::blast(TileType::Explosion2, 0));
    l.update(&quiet(0));
    assert_eq!(l.data.game_state, GameState::Died);
    // and a game that is lost is not won afterwards
    let mut l = level(2, 1, vec![M, X]);
    l.data.game_state = GameState::Died;
    l.data.move_priority = vec![TileMove::Right];
    l.update(&quiet(16_667));
    assert_eq!(l.data.game_state, GameState::Died);
}

#[test]
fn a_game_won_can_still_be_lost_later_in_the_same_scan() {
    // The player leaves through the exit in the top row; further down the
    // same scan a delayed blast beside the player goes off.
    let mut l = level(2, 2, vec![M, X, B, B]);
    l.grid.set(&Coord::new(0, 1), Tile::blast(TileType::Explosion2, 0));
    l.data.move_priority = vec![TileMove::Right];
    l.scan();
    assert_eq!(l.data.game_state, GameState::Died);
    assert_eq!(tile(&l, 0, 0).typ, TileType::Explosion2);
    // from the next tick on the state stays
    l.grid.set(&Coord::new(0, 1), Tile::blast(TileType::Explosion2, 0));
    l.grid.set(&Coord::new(0, 0), TileType::Murphy.to_tile());
    l.data.game_state = GameState::Finished;
    l.scan();
    assert_eq!(l.data.game_state, GameState::Finished);
}

#[test]
fn inert_categories_are_passed_over() {
    let mut l = level(4, 1, vec![B, W, Y, 24]);
    let before = l.grid.clone();
    l.scan();
    assert_eq!(l.grid.array, before.array);
    l.update(&quiet(16_667));
    assert_eq!(tile(&l, 0, 0).upd, 0);
    assert_eq!(tile(&l, 2, 0).upd, -133);
    assert_eq!(tile(&l, 3, 0).upd, -133);
    assert_eq!(tile(&l, 3, 0).typ, TileType::Electron);
}

#[test]
fn an_empty_grid_ticks() {
    let mut l = Level::new(8000, 0, 0, vec![]);
    l.update(&quiet(16_667));
    assert_eq!(l.data.delta_time, 133);
    assert_eq!(Grid::new(0, 5, vec![]).array.len(), 0);
}

#[test]
fn no_cell_is_entered_twice_in_one_scan() {
    // Rocks, an enemy and the player all on the move in one scan: count
    // how often each cell receives a tile that is no placeholder and no
    // blast, other than by a change in place.
    let codes = vec![
        W, W, W, W, W, W, W,
        W, Z, E, Z, Z, E, W,
        W, E, E, Z, E, E, W,
        W, M, B, E, S, E, W,
        W, E, E, I, E, E, W,
        W, W, W, W, W, W, W,
    ];
    let mut l = level(7, 6, codes);
    l.data.move_priority = vec![TileMove::Right];
    for _ in 0..60 {
        l.grid.update_time(133);
        let mut entered = vec![0u8; 42];
        let playing = l.data.game_state == GameState::Active;
        assert!(playing);
        for y in 0..6 {
            for x in 0..7 {
                let before = l.grid.clone();
                let mut one = Level { data: l.data.clone(), grid: Grid::new(0, 0, vec![]) };
                std::mem::swap(&mut one.grid, &mut l.grid);
                visit_one(&mut one, x, y);
                std::mem::swap(&mut one.grid, &mut l.grid);
                l.data = one.data;
                for d in 0..42usize {
                    let t = l.grid.array[d];
                    let stand_in = t.typ == TileType::Transitory
                        || t.typ == TileType::Explosion
                        || t.typ == TileType::Explosion2;
                    if d != (y * 7 + x) as usize && t != before.array[d] && !stand_in {
                        entered[d] += 1;
                    }
                }
            }
        }
        assert!(entered.iter().all(|n| *n <= 1));
    }
}

// Visits one cell the way a scan does.
fn visit_one(l: &mut Level, x: i16, y: i16) {
    use_systems(l, Coord::new(x, y));
}

fn use_systems(l: &mut Level, c: Coord) {
    match l.grid.get(&c).typ {
        TileType::Infotron | TileType::Zonk => {
            supaplex::tile_data::systems::gravity_system::gravity_system(&c, &mut l.grid, &mut l.data)
        }
        TileType::Murphy => {
            supaplex::tile_data::systems::murphy_system::murphy_system(&c, &mut l.grid, &mut l.data);
        }
        TileType::OrangeUtilityDisk => {
            supaplex::tile_data::systems::orange_disk_system::orange_disk_system(&c, &mut l.grid, &mut l.data)
        }
        TileType::Transitory => {
            supaplex::tile_data::systems::transitory_system::transitory_system(&c, &mut l.grid, &mut l.data)
        }
        TileType::SnikSnak => {
            supaplex::tile_data::systems::ai_system::ai_system(&c, &mut l.grid, &mut l.data)
        }
        TileType::Explosion | TileType::Explosion2 => {
            supaplex::tile_data::systems::explode_system::explode_system(&c, &mut l.grid, &mut l.data)
        }
        _ => {}
    }
}

#[test]
fn a_blast_set_off_by_a_stale_disk_is_over_at_once() {
    // A yellow disk that nobody has touched for longer than a blast lasts
    // makes a blast whose time is up as soon as it begins: the cells around
    // it are free again within the same scan.
    let mut l = level(4, 2, vec![M, 13, E, E, B, B, Y, B]);
    l.grid.get_mut(&Coord::new(2, 1)).unwrap().upd = -3000;
    l.data.move_priority = vec![TileMove::Right];
    l.scan();
    assert_eq!(tile(&l, 2, 1), TileType::Empty.to_tile());
    assert_eq!(tile(&l, 1, 1), TileType::Empty.to_tile());
    assert_eq!(tile(&l, 3, 1), TileType::Empty.to_tile());
    assert_eq!(tile(&l, 2, 0), TileType::Empty.to_tile());
    assert_eq!(tile(&l, 1, 0), TileType::Empty.to_tile());
    assert_eq!(tile(&l, 0, 0), TileType::Murphy.to_tile());
    assert_eq!(tile(&l, 0, 1), TileType::Base.to_tile());
}

#[test]
fn timers_do_not_fall_behind_at_small_steps() {
    // a rock at rest on the player, an orange disk on a wall, an enemy
    // that can only turn on the spot, and the player doing nothing
    let codes = vec![
        W, W, W, W, W, W, W,
        W, Z, W, 8, W, S, W,
        W, M, W, W, W, W, W,
        W, W, W, W, W, W, W,
    ];
    let mut l = level(7, 4, codes);
    for _ in 0..300 {
        l.update(&quiet(31_250));
        assert_eq!(l.data.delta_time, 250);
        assert_eq!(tile(&l, 1, 1).upd, 0);
        assert_eq!(tile(&l, 3, 1).upd, 0);
        assert_eq!(tile(&l, 1, 2).upd, 0);
        assert!(tile(&l, 5, 1).upd > -750);
        assert_eq!(tile(&l, 5, 1).typ, TileType::SnikSnak);
    }
    assert_eq!(l.data.game_state, GameState::Active);
}

#[test]
fn an_enemy_falls_behind_when_ticks_are_longer_than_a_turn() {
    let mut l = level(3, 3, vec![W, W, W, W, S, W, W, W, W]);
    for _ in 0..10 {
        l.update(&quiet(112_500));
    }
    assert_eq!(l.data.delta_time, 900);
    assert_eq!(tile(&l, 1, 1).upd, -10 * 900 + 10 * 250);
}

#[test]
fn an_object_that_waits_on_a_pushing_actor_keeps_its_timer_running() {
    let mut l = level(1, 2, vec![Z, Y]);
    let z = TileType::Zonk.to_tile().mov_state(0, TileMove::Down, TileState::Dangerous);
    l.grid.set(&Coord::new(0, 0), z);
    l.grid.get_mut(&Coord::new(0, 1)).unwrap().interaction = TileInteraction::Pushing;
    for _ in 0..10 {
        l.update(&quiet(16_667));
    }
    assert_eq!(tile(&l, 0, 0).upd, -1330);
    assert_eq!(tile(&l, 0, 0).mov, TileMove::Down);
    // when the push is over the object comes down after all
    l.grid.get_mut(&Coord::new(0, 1)).unwrap().interaction = TileInteraction::Idle;
    l.update(&quiet(16_667));
    assert_eq!(tile(&l, 0, 0), Tile::blast(TileType::Explosion, 2500 - 1463));
    assert_eq!(tile(&l, 0, 1), Tile::blast(TileType::Explosion2, 2500 - 1463));
}

#[test]
fn operating_a_terminal_leaves_the_timer_of_the_player_running() {
    let mut l = level(2, 1, vec![M, 13]);
    l.data.move_priority = vec![TileMove::Right];
    for _ in 0..20 {
        l.update(&quiet(16_667));
    }
    assert_eq!(tile(&l, 0, 0).typ, TileType::Murphy);
    assert_eq!(tile(&l, 0, 0).upd, -20 * 133);
}

#[test]
fn a_stale_disk_lets_a_cell_be_claimed_twice() {
    // A rock falls into a cell; the player operates a terminal; the blast
    // of a yellow disk that nobody has touched for longer than a blast
    // lasts clears the cell at once; and an enemy walks into it, all in one
    // scan.
    let codes = vec![
        W, W, Z, W,
        M, W, E, S,
        13, Y, W, W,
    ];
    let mut l = level(4, 3, codes);
    l.data.move_priority = vec![TileMove::Down];
    l.grid.get_mut(&Coord::new(1, 2)).unwrap().upd = -3000;
    let snik = l.grid.get_mut(&Coord::new(3, 1)).unwrap();
    snik.mov = TileMove::Left;
    snik.mov2 = TileMove::Left;
    l.scan();
    assert_eq!(tile(&l, 2, 0), Tile::transitory(1000, TileType::Empty));
    assert_eq!(tile(&l, 2, 1).typ, TileType::SnikSnak);
    assert_eq!(tile(&l, 3, 1).typ, TileType::Transitory);
    assert_eq!(l.data.game_state, GameState::Died);
    // with a fresh disk the rock's cell holds a blast and the enemy turns
    let mut l = level(4, 3, vec![W, W, Z, W, M, W, E, S, 13, Y, W, W]);
    l.data.move_priority = vec![TileMove::Down];
    let snik = l.grid.get_mut(&Coord::new(3, 1)).unwrap();
    snik.mov = TileMove::Left;
    snik.mov2 = TileMove::Left;
    l.scan();
    assert_eq!(tile(&l, 2, 1), Tile::blast(TileType::Explosion, 2500));
    assert_eq!(tile(&l, 3, 1).typ, TileType::SnikSnak);
}

#[test]
fn a_delayed_blast_waits_for_its_timer_whatever_happens_around_it() {
    // rocks fall past it, the player walks by, another blast goes off
    // beside it: the delayed blast goes off when 2000 units have passed,
    // in the sixteenth tick of 125 units, and not before
    let codes = vec![
        Z, E, Z, E, E,
        E, B, E, B, M,
        E, B, E, B, B,
        W, W, W, W, W,
    ];
    let mut l = level(5, 4, codes);
    l.grid.set(&Coord::new(1, 1), Tile::blast(TileType::Explosion2, 2000));
    l.grid.set(&Coord::new(2, 2), Tile::blast(TileType::Explosion2, 500));
    l.data.move_priority = vec![TileMove::Down];
    for n in 1..=15 {
        l.update(&quiet(15_625));
        assert_eq!(tile(&l, 1, 1), Tile::blast(TileType::Explosion2, 2000 - 125 * n));
    }
    l.update(&quiet(15_625));
    assert_eq!(tile(&l, 1, 1), Tile::blast(TileType::Explosion, 2500));
}

#[test]
fn a_blast_catches_the_cells_around_it_in_front_and_behind() {
    // enemies all around a delayed blast with 250 units to go; those in
    // the cells that the scan visits first may have moved by the time it
    // goes off, and still every cell around it holds a blast afterwards
    let mut l = level(5, 5, vec![
        W, W, W, W, W,
        W, S, S, S, W,
        W, S, E, S, W,
        W, S, S, S, W,
        W, W, W, W, W,
    ]);
    l.grid.set(&Coord::new(2, 2), Tile::blast(TileType::Explosion2, 250));
    l.update(&quiet(15_625));
    assert_eq!(tile(&l, 2, 2), Tile::blast(TileType::Explosion2, 125));
    l.update(&quiet(15_625));
    assert_eq!(tile(&l, 2, 2), Tile::blast(TileType::Explosion, 2500));
    for y in 1..4 {
        for x in 1..4 {
            let t = tile(&l, x, y);
            assert!(t.typ == TileType::Explosion || t.typ == TileType::Explosion2);
            assert_eq!(t.state, TileState::Dangerous);
        }
    }
    assert_eq!(tile(&l, 1, 1), Tile::blast(TileType::Explosion2, 2500));
    assert_eq!(tile(&l, 3, 3), Tile::blast(TileType::Explosion2, 2500));
    // border cells stand
    assert_eq!(tile(&l, 0, 0), TileType::HardwareWall.to_tile());
}
