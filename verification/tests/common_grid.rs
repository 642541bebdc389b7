// Grid storage, coordinates and the tile constructors.

use supaplex::grid::{Coord, FCoord, Grid, ToCoord};
use supaplex::tile_data::tile::Tile;
use supaplex::tile_data::tile_interaction::TileInteraction;
use supaplex::tile_data::tile_move::TileMove;
use supaplex::tile_data::tile_state::TileState;
use supaplex::tile_data::tile_type::TileType;
use supaplex::tile_data::tile_update::{add_time, Updateable};

const WALL: u8 = 6;
const ZONK: u8 = 1;
const MURPHY: u8 = 3;

#[test]
fn grid_new_maps_codes_row_by_row() {
    let grid = Grid::new(3, 2, vec![WALL, ZONK, 0, MURPHY, 2, 40]);
    assert_eq!(grid.width, 3);
    assert_eq!(grid.height, 2);
    assert_eq!(grid.get(&Coord::new(0, 0)).typ, TileType::HardwareWall);
    assert_eq!(grid.get(&Coord::new(1, 0)).typ, TileType::Zonk);
    assert_eq!(grid.get(&Coord::new(2, 0)).typ, TileType::Empty);
    assert_eq!(grid.get(&Coord::new(0, 1)).typ, TileType::Murphy);
    assert_eq!(grid.get(&Coord::new(1, 1)).typ, TileType::Base);
    assert_eq!(grid.get(&Coord::new(2, 1)).typ, TileType::Void);
    assert_eq!(grid.get(&Coord::new(1, 0)), TileType::Zonk.to_tile());
}

#[test]
fn reading_past_any_edge_gives_the_border_tile() {
    for (w, h) in [(0i16, 0i16), (1, 1), (3, 2), (60, 24)] {
        let grid = Grid::new(w, h, vec![ZONK; (w as usize) * (h as usize)]);
        for c in [
            Coord::new(-1, 0),
            Coord::new(0, -1),
            Coord::new(w, 0),
            Coord::new(0, h),
            Coord::new(w, h),
            Coord::new(-1, h - 1),
            Coord::new(w, -1),
            Coord::new(i16::MAX, i16::MAX),
            Coord::new(i16::MIN, i16::MIN),
        ] {
            let tile = grid.get(&c);
            assert_eq!(tile, Tile::default());
            assert_eq!(tile.state, TileState::Indestructible);
            assert_ne!(tile.state, TileState::Dangerous);
            assert_ne!(tile.state, TileState::Eatable);
            assert_eq!(tile.typ, TileType::Void);
        }
    }
}

#[test]
fn a_column_left_of_the_grid_is_not_the_end_of_the_row_above() {
    let grid = Grid::new(3, 2, vec![ZONK, ZONK, MURPHY, ZONK, ZONK, ZONK]);
    assert_eq!(grid.get(&Coord::new(2, 0)).typ, TileType::Murphy);
    assert_eq!(grid.get(&Coord::new(-1, 1)).typ, TileType::Void);
    assert_eq!(grid.get(&Coord::new(3, 0)).typ, TileType::Void);
}

#[test]
fn set_writes_one_cell_and_drops_writes_past_the_edge() {
    let mut grid = Grid::new(2, 2, vec![0, 0, 0, 0]);
    let before = grid.array.clone();
    grid.set(&Coord::new(2, 0), TileType::Zonk.to_tile());
    grid.set(&Coord::new(-1, 1), TileType::Zonk.to_tile());
    grid.set(&Coord::new(0, 2), TileType::Zonk.to_tile());
    assert_eq!(grid.array, before);
    grid.set(&Coord::new(1, 1), TileType::Zonk.to_tile());
    assert_eq!(grid.get(&Coord::new(1, 1)).typ, TileType::Zonk);
    assert_eq!(grid.get(&Coord::new(0, 1)).typ, TileType::Empty);
    assert_eq!(grid.get(&Coord::new(1, 0)).typ, TileType::Empty);
    assert_eq!(grid.array[3].typ, TileType::Zonk);
}

#[test]
fn get_mut_changes_the_cell_in_place() {
    let mut grid = Grid::new(2, 2, vec![0, ZONK, 0, 0]);
    assert!(grid.get_mut(&Coord::new(2, 2)).is_none());
    assert!(grid.get_mut(&Coord::new(-1, 0)).is_none());
    {
        let tile = grid.get_mut(&Coord::new(1, 0)).unwrap();
        assert_eq!(tile.typ, TileType::Zonk);
        tile.upd = 77;
    }
    assert_eq!(grid.get(&Coord::new(1, 0)).upd, 77);
    grid.get_mut_unchecked(&Coord::new(0, 1)).mov = TileMove::Up;
    assert_eq!(grid.get(&Coord::new(0, 1)).mov, TileMove::Up);
    assert_eq!(grid.get(&Coord::new(0, 0)), TileType::Empty.to_tile());
}

#[test]
fn grid_update_time_runs_active_timers_only() {
    let mut grid = Grid::new(3, 1, vec![ZONK, WALL, 2]);
    grid.update_time(130);
    assert_eq!(grid.get(&Coord::new(0, 0)).upd, -130);
    assert_eq!(grid.get(&Coord::new(1, 0)).upd, 0);
    assert_eq!(grid.get(&Coord::new(2, 0)).upd, 0);
}

#[test]
fn coord_offset_adds_componentwise() {
    let c = Coord::new(3, 4);
    assert_eq!(c.offset(&TileMove::Up), Coord::new(3, 3));
    assert_eq!(c.offset(&TileMove::Right), Coord::new(4, 4));
    assert_eq!(c.offset(&TileMove::Down), Coord::new(3, 5));
    assert_eq!(c.offset(&TileMove::Left), Coord::new(2, 4));
    assert_eq!(c.offset(&TileMove::Stationary), c);
    assert_eq!(c.offset(&(-3i16, 10i16)), Coord::new(0, 14));
    assert_eq!((5i16, -6i16).to_coord(), Coord::new(5, -6));
    assert_eq!(TileMove::Left.to_coord(), Coord::new(-1, 0));
}

#[test]
fn rotations_and_opposites() {
    assert_eq!(TileMove::Up.rotate_left(), TileMove::Left);
    assert_eq!(TileMove::Left.rotate_left(), TileMove::Down);
    assert_eq!(TileMove::Down.rotate_left(), TileMove::Right);
    assert_eq!(TileMove::Right.rotate_left(), TileMove::Up);
    assert_eq!(TileMove::Stationary.rotate_left(), TileMove::Stationary);
    assert_eq!(TileMove::Up.rotate_right(), TileMove::Right);
    assert_eq!(TileMove::Right.rotate_right(), TileMove::Down);
    assert_eq!(TileMove::Down.rotate_right(), TileMove::Left);
    assert_eq!(TileMove::Left.rotate_right(), TileMove::Up);
    assert_eq!(TileMove::Stationary.rotate_right(), TileMove::Stationary);
    assert_eq!(TileMove::Up.opposite(), TileMove::Down);
    assert_eq!(TileMove::Left.opposite(), TileMove::Right);
    assert_eq!(TileMove::Stationary.opposite(), TileMove::Stationary);
    for m in [TileMove::Up, TileMove::Right, TileMove::Down, TileMove::Left] {
        assert_eq!(m.rotate_left().rotate_right(), m);
        assert_eq!(m.rotate_left().rotate_left(), m.opposite());
        assert_eq!(m.opposite().opposite(), m);
    }
}

#[test]
fn fractional_position_lags_behind_against_the_facing() {
    let cell = Coord::new(3, 2);
    let mut tile = TileType::Zonk.to_tile();
    assert_eq!(cell.as_fcoord(), FCoord::new(3000, 2000));
    assert_eq!(cell.to_fcoord(&tile), FCoord::new(3000, 2000));
    tile.upd = 250;
    tile.mov = TileMove::Down;
    assert_eq!(cell.to_fcoord(&tile), FCoord::new(3000, 1750));
    tile.mov = TileMove::Up;
    assert_eq!(cell.to_fcoord(&tile), FCoord::new(3000, 2250));
    tile.mov = TileMove::Right;
    assert_eq!(cell.to_fcoord(&tile), FCoord::new(2750, 2000));
    tile.mov = TileMove::Left;
    assert_eq!(cell.to_fcoord(&tile), FCoord::new(3250, 2000));
    assert_eq!(FCoord::new(10, 20).offset_time(&tile), FCoord::new(260, 20));
    tile.upd = 1000;
    assert_eq!(cell.to_fcoord(&tile), FCoord::new(4000, 2000));
    tile.upd = -400;
    assert_eq!(cell.to_fcoord(&tile), FCoord::new(3000, 2000));
    assert_eq!(FCoord::new(500, 500).offset(&TileMove::Up), FCoord::new(500, -500));
    assert_eq!(FCoord::new(500, 500).offset(&(2i16, 1i16)), FCoord::new(2500, 1500));
}

#[test]
fn timers_saturate() {
    assert_eq!(add_time(-130, 1000), 870);
    assert_eq!(add_time(i32::MAX - 5, 1000), i32::MAX);
    assert_eq!(add_time(i32::MIN + 5, -1000), i32::MIN);
    let mut t: i32 = 40;
    t.normal_update(100);
    assert_eq!(t, -60);
    let mut t: i32 = i32::MIN + 3;
    t.normal_update(100);
    assert_eq!(t, i32::MIN);
    let mut t: i32 = i32::MAX - 3;
    t.normal_update(-100);
    assert_eq!(t, i32::MAX);
    assert_eq!((-200i32).move_update(), 800);
    let mut t: i32 = 5;
    t.dont_update();
    assert_eq!(t, 0);
}

#[test]
fn tile_update_time_skips_inactive_categories() {
    let mut zonk = TileType::Zonk.to_tile();
    zonk.update_time(133);
    assert_eq!(zonk.upd, -133);
    let mut base = TileType::Base.to_tile();
    base.update_time(133);
    assert_eq!(base.upd, 0);
    let mut blast = Tile::blast(TileType::Explosion, 2500);
    blast.update_time(133);
    assert_eq!(blast.upd, 2367);
    assert_eq!(blast.typ, TileType::Explosion);
}

#[test]
fn tile_constructors() {
    let t = Tile::transitory(870, TileType::Infotron);
    assert_eq!(t.typ, TileType::Transitory);
    assert_eq!(t.state, TileState::Destructible);
    assert_eq!(t.interaction, TileInteraction::Eating(TileType::Infotron));
    assert_eq!(t.mov, TileMove::Stationary);
    assert_eq!(t.mov2, TileMove::Left);
    assert_eq!(t.upd, 870);

    let mut snik = TileType::SnikSnak.to_tile();
    snik.interaction = TileInteraction::Rotating;
    let m = snik.moving(5, TileMove::Right);
    assert_eq!(m.typ, TileType::SnikSnak);
    assert_eq!(m.state, TileState::Dangerous);
    assert_eq!(m.interaction, TileInteraction::Rotating);
    assert_eq!(m.mov, TileMove::Right);
    assert_eq!(m.mov2, TileMove::Left);
    assert_eq!(m.upd, 5);

    let z = TileType::Zonk.to_tile().mov_state(9, TileMove::Down, TileState::Dangerous);
    assert_eq!(z.typ, TileType::Zonk);
    assert_eq!(z.state, TileState::Dangerous);
    assert_eq!(z.mov, TileMove::Down);
    assert_eq!(z.mov2, TileMove::Left);
    assert_eq!(z.upd, 9);

    let p = Tile::murphy(1, TileMove::Up, TileMove::Right, TileInteraction::Slurping);
    assert_eq!(p.typ, TileType::Murphy);
    assert_eq!(p.state, TileState::Destructible);
    assert_eq!(p.mov, TileMove::Up);
    assert_eq!(p.mov2, TileMove::Right);
    assert_eq!(p.interaction, TileInteraction::Slurping);

    let a = snik.ai(3, TileMove::Left, TileMove::Down, TileInteraction::Moving);
    assert_eq!(a.typ, TileType::SnikSnak);
    assert_eq!(a.state, TileState::Dangerous);
    assert_eq!(a.mov, TileMove::Left);
    assert_eq!(a.mov2, TileMove::Down);
    assert_eq!(a.interaction, TileInteraction::Moving);
    assert_eq!(a.upd, 3);

    let d = Tile::default();
    assert_eq!(d.typ, TileType::Void);
    assert_eq!(d.state, TileState::Indestructible);
    assert_eq!(d.mov, TileMove::Stationary);
    assert_eq!(d.mov2, TileMove::Left);
    assert_eq!(d.interaction, TileInteraction::Idle);
    assert_eq!(d.upd, 0);
}

#[test]
fn level_codes_cover_every_byte() {
    assert_eq!(TileType::from_u8(0), TileType::Empty);
    assert_eq!(TileType::from_u8(1), TileType::Zonk);
    assert_eq!(TileType::from_u8(3), TileType::Murphy);
    assert_eq!(TileType::from_u8(4), TileType::Infotron);
    assert_eq!(TileType::from_u8(16), TileType::Infotron);
    assert_eq!(TileType::from_u8(7), TileType::Exit);
    assert_eq!(TileType::from_u8(13), TileType::Terminal);
    assert_eq!(TileType::from_u8(19), TileType::Terminal);
    assert_eq!(TileType::from_u8(17), TileType::SnikSnak);
    assert_eq!(TileType::from_u8(23), TileType::PortsAll);
    assert_eq!(TileType::from_u8(40), TileType::Void);
    for i in 41..=255u8 {
        assert_eq!(TileType::from_u8(i), TileType::Empty);
    }
    for i in 0..=255u8 {
        let t = TileType::from_u8(i);
        assert_ne!(t, TileType::Transitory);
        assert_ne!(t, TileType::Explosion);
        assert_ne!(t, TileType::Explosion2);
    }
}

#[test]
fn starting_tiles_by_category() {
    assert_eq!(TileType::Infotron.to_tile().state, TileState::Eatable);
    assert_eq!(TileType::Empty.to_tile().state, TileState::Eatable);
    assert_eq!(TileType::Zonk.to_tile().state, TileState::Moveable);
    assert_eq!(TileType::YellowUtilityDisk.to_tile().state, TileState::Moveable);
    assert_eq!(TileType::Murphy.to_tile().state, TileState::Destructible);
    assert_eq!(TileType::Exit.to_tile().state, TileState::Destructible);
    assert_eq!(TileType::HardwareWall.to_tile().state, TileState::Indestructible);
    assert_eq!(TileType::PortsUpBlue.to_tile().state, TileState::Tunnelable);
    assert_eq!(TileType::Explosion2.to_tile().state, TileState::Dangerous);
    let snik = TileType::SnikSnak.to_tile();
    assert_eq!(snik.state, TileState::Dangerous);
    assert_eq!(snik.mov, TileMove::Up);
    assert_eq!(snik.mov2, TileMove::Up);
    let zonk = TileType::Zonk.to_tile();
    assert_eq!(zonk.mov, TileMove::Stationary);
    assert_eq!(zonk.mov2, TileMove::Left);
    assert_eq!(zonk.upd, 0);
    assert_eq!(zonk.interaction, TileInteraction::Idle);
}

#[test]
fn sprite_sheet_positions() {
    assert_eq!(TileType::Base.def_tex_pos(), Coord::new(0, 0));
    assert_eq!(TileType::Bug.def_tex_pos(), Coord::new(8, 0));
    assert_eq!(TileType::Murphy.def_tex_pos(), Coord::new(0, 7));
    assert_eq!(TileType::PortsDownBlue.def_tex_pos(), Coord::new(13, 10));
    assert_eq!(TileType::SnikSnak.def_tex_pos(), Coord::new(4, 12));
    assert_eq!(TileType::Explosion.def_tex_pos(), Coord::new(0, 18));
    assert_eq!(TileType::Explosion2.def_tex_pos(), Coord::new(0, 18));
    assert_eq!(TileType::Void.def_tex_pos(), Coord::new(0, 20));
}

#[test]
fn ports_accept_their_directions_only() {
    let all = [TileMove::Up, TileMove::Right, TileMove::Down, TileMove::Left];
    for d in all {
        assert!(TileType::PortsAll.accepts(d));
        assert!(TileType::PortsAllBlue.accepts(d));
        assert!(!TileType::Zonk.accepts(d));
        assert_eq!(TileType::PortsHorizontal.accepts(d), d == TileMove::Left || d == TileMove::Right);
        assert_eq!(TileType::PortsVerticalBlue.accepts(d), d == TileMove::Up || d == TileMove::Down);
        assert_eq!(TileType::PortsLeft.accepts(d), d == TileMove::Left);
        assert_eq!(TileType::PortsRightBlue.accepts(d), d == TileMove::Right);
        assert_eq!(TileType::PortsUp.accepts(d), d == TileMove::Up);
        assert_eq!(TileType::PortsDown.accepts(d), d == TileMove::Down);
    }
    assert!(TileType::PortsAll.accepts(TileMove::Stationary));
}
