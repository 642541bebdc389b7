// Which sprites show a tile.

use supaplex::grid::{Coord, FCoord};
use supaplex::tile_data::sprite::{
    choose_ai_sprite, choose_explode_sprite, choose_gravity_sprite, choose_murphy_sprites,
    choose_transitory_sprite, Sprite,
};
use supaplex::tile_data::tile::Tile;
use supaplex::tile_data::tile_interaction::TileInteraction;
use supaplex::tile_data::tile_move::TileMove;
use supaplex::tile_data::tile_state::TileState;
use supaplex::tile_data::tile_type::TileType;

fn plain(at: FCoord, x: i16, y: i16) -> Sprite {
    Sprite { at, source: Coord::new(x, y), flip_x: false, flip_y: false }
}

const HERE: FCoord = FCoord { x: 3000, y: 2000 };

#[test]
fn static_tiles_show_their_category() {
    assert_eq!(TileType::Base.to_tile().sprites(&HERE), vec![plain(HERE, 0, 0)]);
    assert_eq!(TileType::HardwareWall.to_tile().sprites(&HERE), vec![plain(HERE, 0, 3)]);
    assert_eq!(TileType::PortsUp.to_tile().sprites(&HERE), vec![plain(HERE, 5, 10)]);
    assert_eq!(TileType::Terminal.to_tile().sprites(&HERE), vec![plain(HERE, 0, 13)]);
    assert!(TileType::Empty.to_tile().sprites(&HERE).is_empty());
    assert!(TileType::Void.to_tile().sprites(&HERE).is_empty());
}

#[test]
fn disks_are_drawn_on_their_way() {
    let mut disk = TileType::OrangeUtilityDisk.to_tile();
    disk.mov = TileMove::Down;
    disk.upd = 400;
    assert_eq!(disk.sprites(&HERE), vec![plain(FCoord::new(3000, 1600), 0, 15)]);
    let mut disk = TileType::YellowUtilityDisk.to_tile();
    disk.mov = TileMove::Right;
    disk.upd = 1000;
    assert_eq!(disk.sprites(&HERE), vec![plain(FCoord::new(2000, 2000), 0, 16)]);
}

#[test]
fn rolling_objects_turn_through_eight_frames() {
    let mut z = TileType::Zonk.to_tile().mov_state(1000, TileMove::Left, TileState::Dangerous);
    assert_eq!(choose_gravity_sprite(&z, &HERE), plain(FCoord::new(4000, 2000), 8, 17));
    z.upd = 999;
    assert_eq!(choose_gravity_sprite(&z, &HERE), plain(FCoord::new(3999, 2000), 7, 17));
    z.upd = 125;
    assert_eq!(choose_gravity_sprite(&z, &HERE).source, Coord::new(1, 17));
    z.upd = 124;
    assert_eq!(choose_gravity_sprite(&z, &HERE).source, Coord::new(0, 17));
    z.upd = -1;
    assert_eq!(choose_gravity_sprite(&z, &HERE), plain(HERE, -1, 17));
    z.mov = TileMove::Right;
    z.upd = 999;
    assert_eq!(choose_gravity_sprite(&z, &HERE), plain(FCoord::new(2001, 2000), 0, 17));
    z.upd = 1;
    assert_eq!(choose_gravity_sprite(&z, &HERE).source, Coord::new(7, 17));
    z.upd = -1;
    assert_eq!(choose_gravity_sprite(&z, &HERE).source, Coord::new(8, 17));
    z.mov = TileMove::Down;
    z.upd = 500;
    assert_eq!(choose_gravity_sprite(&z, &HERE), plain(FCoord::new(3000, 1500), 0, 17));
    let i = TileType::Infotron.to_tile();
    assert_eq!(i.sprites(&HERE), vec![plain(HERE, 0, 4)]);
    z.mov = TileMove::Left;
    z.upd = i32::MAX;
    assert_eq!(choose_gravity_sprite(&z, &HERE).source.x, i16::MAX);
    z.upd = i32::MIN;
    assert_eq!(choose_gravity_sprite(&z, &HERE).source.x, i16::MIN);
    z.mov = TileMove::Right;
    assert_eq!(choose_gravity_sprite(&z, &HERE).source.x, i16::MAX);
}

#[test]
fn blasts_run_through_seven_frames() {
    let mut b = Tile::blast(TileType::Explosion, 2500);
    assert_eq!(choose_explode_sprite(&b, &HERE), plain(HERE, 7, 18));
    b.upd = 2499;
    assert_eq!(choose_explode_sprite(&b, &HERE).source, Coord::new(6, 18));
    b.upd = 358;
    assert_eq!(choose_explode_sprite(&b, &HERE).source, Coord::new(1, 18));
    b.upd = 357;
    assert_eq!(choose_explode_sprite(&b, &HERE).source, Coord::new(0, 18));
    b.upd = 0;
    assert_eq!(choose_explode_sprite(&b, &HERE).source, Coord::new(0, 18));
    b.upd = -1;
    assert_eq!(choose_explode_sprite(&b, &HERE).source, Coord::new(-1, 18));
    b.upd = -358;
    assert_eq!(choose_explode_sprite(&b, &HERE).source, Coord::new(-2, 18));
    assert_eq!(Tile::blast(TileType::Explosion2, 1250).sprites(&HERE), vec![plain(HERE, 3, 18)]);
}

#[test]
fn placeholders_dissolve_what_was_eaten() {
    let t = Tile::transitory(1000, TileType::Base);
    assert_eq!(choose_transitory_sprite(&t, &HERE), Some(plain(HERE, 0, 0)));
    let t = Tile::transitory(999, TileType::Base);
    assert_eq!(choose_transitory_sprite(&t, &HERE), Some(plain(HERE, 0, 0)));
    let t = Tile::transitory(874, TileType::Base);
    assert_eq!(choose_transitory_sprite(&t, &HERE), Some(plain(HERE, 1, 0)));
    let t = Tile::transitory(1, TileType::Infotron);
    assert_eq!(choose_transitory_sprite(&t, &HERE), Some(plain(HERE, 8, 6)));
    let t = Tile::transitory(-1, TileType::Infotron);
    assert_eq!(choose_transitory_sprite(&t, &HERE), Some(plain(HERE, 9, 6)));
    let t = Tile::transitory(2000, TileType::RedUtilityDisk);
    assert_eq!(choose_transitory_sprite(&t, &HERE), Some(plain(HERE, 0, 14)));
    let t = Tile::transitory(500, TileType::RedUtilityDisk);
    assert_eq!(t.sprites(&HERE), vec![plain(HERE, 3, 14)]);
    let t = Tile::transitory(500, TileType::Empty);
    assert_eq!(choose_transitory_sprite(&t, &HERE), None);
    assert!(t.sprites(&HERE).is_empty());
    let mut t = Tile::transitory(500, TileType::Base);
    t.interaction = TileInteraction::Idle;
    assert_eq!(choose_transitory_sprite(&t, &HERE), None);
    let t = Tile::transitory(i32::MIN, TileType::Infotron);
    assert_eq!(choose_transitory_sprite(&t, &HERE).unwrap().source.x, i16::MAX);
}

fn snik(mov: TileMove, mov2: TileMove, upd: i32, interaction: TileInteraction) -> Tile {
    TileType::SnikSnak.to_tile().ai(upd, mov, mov2, interaction)
}

#[test]
fn enemy_sprites() {
    let s = snik(TileMove::Up, TileMove::Up, 0, TileInteraction::Idle);
    assert_eq!(choose_ai_sprite(&s, &HERE), Some(plain(HERE, 4, 12)));
    let s = snik(TileMove::Up, TileMove::Up, 800, TileInteraction::Moving);
    assert_eq!(choose_ai_sprite(&s, &HERE), Some(plain(FCoord::new(3000, 2800), 5, 12)));
    let s = snik(TileMove::Up, TileMove::Up, 800, TileInteraction::Rotating);
    assert_eq!(choose_ai_sprite(&s, &HERE), Some(plain(HERE, 5, 12)));
    let s = snik(TileMove::Down, TileMove::Down, 700, TileInteraction::Moving);
    assert_eq!(
        choose_ai_sprite(&s, &HERE),
        Some(Sprite {
            at: FCoord::new(3000, 1300),
            source: Coord::new(6, 12),
            flip_x: false,
            flip_y: true
        })
    );
    let s = snik(TileMove::Left, TileMove::Left, 500, TileInteraction::Moving);
    assert_eq!(
        choose_ai_sprite(&s, &HERE),
        Some(Sprite {
            at: FCoord::new(3500, 2000),
            source: Coord::new(11, 12),
            flip_x: true,
            flip_y: false
        })
    );
    let s = snik(TileMove::Right, TileMove::Right, 300, TileInteraction::Moving);
    assert_eq!(choose_ai_sprite(&s, &HERE), Some(plain(FCoord::new(2700, 2000), 10, 12)));
    for (mov, mov2, x) in [
        (TileMove::Up, TileMove::Right, 3),
        (TileMove::Up, TileMove::Left, 0),
        (TileMove::Right, TileMove::Up, 3),
        (TileMove::Right, TileMove::Down, 2),
        (TileMove::Down, TileMove::Right, 2),
        (TileMove::Down, TileMove::Left, 1),
        (TileMove::Left, TileMove::Up, 0),
        (TileMove::Left, TileMove::Down, 1),
        (TileMove::Up, TileMove::Down, 4),
        (TileMove::Left, TileMove::Right, 8),
        (TileMove::Right, TileMove::Stationary, 8),
    ] {
        let s = snik(mov, mov2, 200, TileInteraction::Rotating);
        assert_eq!(choose_ai_sprite(&s, &HERE), Some(plain(HERE, x, 12)));
    }
    let s = snik(TileMove::Stationary, TileMove::Up, 200, TileInteraction::Rotating);
    assert_eq!(choose_ai_sprite(&s, &HERE), None);
    assert!(s.sprites(&HERE).is_empty());
    for (upd, frame) in [
        (1001, 0),
        (1000, 0),
        (876, 0),
        (875, 1),
        (751, 1),
        (750, 2),
        (626, 2),
        (625, 3),
        (500, 3),
        (376, 3),
        (375, 2),
        (251, 2),
        (250, 1),
        (126, 1),
        (125, 0),
        (1, 0),
        (0, 0),
        (-5, 0),
    ] {
        let s = snik(TileMove::Up, TileMove::Up, upd, TileInteraction::Idle);
        assert_eq!(choose_ai_sprite(&s, &HERE).unwrap().source, Coord::new(4 + frame, 12));
    }
}

#[test]
fn player_sprites() {
    let m = TileType::Murphy.to_tile();
    assert_eq!(choose_murphy_sprites(&m, &HERE), vec![plain(HERE, 0, 7)]);
    let m = Tile::murphy(600, TileMove::Right, TileMove::Right, TileInteraction::Eating(TileType::Infotron));
    assert_eq!(
        m.sprites(&HERE),
        vec![plain(HERE, 0, 4), plain(FCoord::new(2400, 2000), 11, 7)]
    );
    let m = Tile::murphy(1000, TileMove::Left, TileMove::Left, TileInteraction::Eating(TileType::Base));
    assert_eq!(
        m.sprites(&HERE),
        vec![
            plain(HERE, 0, 0),
            Sprite { at: FCoord::new(4000, 2000), source: Coord::new(9, 7), flip_x: true, flip_y: false }
        ]
    );
    let m = Tile::murphy(-20, TileMove::Up, TileMove::Right, TileInteraction::Eating(TileType::Empty));
    assert_eq!(m.sprites(&HERE), vec![plain(HERE, 1, 2), plain(HERE, 13, 7)]);
    let m = Tile::murphy(249, TileMove::Up, TileMove::Right, TileInteraction::Eating(TileType::Empty));
    assert_eq!(m.sprites(&HERE)[1], plain(FCoord::new(3000, 2249), 13, 7));
    let m = Tile::murphy(250, TileMove::Up, TileMove::Right, TileInteraction::Eating(TileType::Empty));
    assert_eq!(m.sprites(&HERE)[1].source, Coord::new(12, 7));

    let m = Tile::murphy(1500, TileMove::Right, TileMove::Right, TileInteraction::Pushing);
    assert_eq!(m.sprites(&HERE), vec![plain(FCoord::new(1500, 2000), 3, 7)]);

    for (mov, x) in [(TileMove::Up, 4), (TileMove::Down, 5), (TileMove::Left, 6), (TileMove::Right, 6)] {
        let m = Tile::murphy(700, mov, TileMove::Left, TileInteraction::Slurping);
        assert_eq!(
            m.sprites(&HERE),
            vec![Sprite { at: HERE, source: Coord::new(x, 7), flip_x: true, flip_y: false }]
        );
    }

    let m = Tile::murphy(500, TileMove::Right, TileMove::Right, TileInteraction::Tunneling(TileType::PortsRight));
    assert_eq!(
        m.sprites(&HERE),
        vec![
            plain(FCoord::new(2500, 2000), 11, 7),
            plain(FCoord::new(1500, 2000), 11, 7),
            plain(FCoord::new(2000, 2000), 4, 10),
        ]
    );
    let m = Tile::murphy(500, TileMove::Up, TileMove::Left, TileInteraction::Tunneling(TileType::PortsAllBlue));
    assert_eq!(
        m.sprites(&HERE),
        vec![
            Sprite { at: FCoord::new(3000, 2500), source: Coord::new(11, 7), flip_x: true, flip_y: false },
            Sprite { at: FCoord::new(3000, 3500), source: Coord::new(11, 7), flip_x: true, flip_y: false },
            plain(FCoord::new(3000, 3000), 7, 10),
        ]
    );
    let m = Tile::murphy(500, TileMove::Up, TileMove::Left, TileInteraction::Moving);
    assert_eq!(m.sprites(&HERE), vec![plain(HERE, 0, 7)]);
    let m = Tile::murphy(i32::MAX, TileMove::Stationary, TileMove::Right, TileInteraction::Eating(TileType::Base));
    assert_eq!(m.sprites(&HERE)[1].source, Coord::new(13 - i16::MAX, 7));
}
