// The level file.

use supaplex::grid::Coord;
use supaplex::level::GameState;
use supaplex::level_loader::{parse_level_dat, LoadError, LEVEL_COUNT, LEVEL_SIZE};
use supaplex::tile_data::tile_type::TileType;

fn file() -> Vec<u8> {
    let mut data = vec![0u8; LEVEL_COUNT * LEVEL_SIZE];
    for i in 0..LEVEL_COUNT {
        let at = i * LEVEL_SIZE;
        for (k, b) in b"LEVEL                  ".iter().enumerate() {
            data[at + 1444 + k] = *b;
        }
        data[at + 1469] = 1;
        data[at + 1470] = i as u8;
    }
    data
}

#[test]
fn a_whole_file_gives_all_its_levels() {
    let mut data = file();
    let second = LEVEL_SIZE;
    data[second] = 3;
    data[second + 61] = 1;
    data[second + 1439] = 6;
    data[second + 1444] = 0;
    data[second + 1469] = 0;
    data[second + 1470] = 200;
    let levels = parse_level_dat(&data).unwrap();
    assert_eq!(levels.len(), 111);
    let l = &levels[1];
    assert_eq!(l.grid.width, 60);
    assert_eq!(l.grid.height, 24);
    assert_eq!(l.grid.array.len(), 1440);
    assert_eq!(l.grid.get(&Coord::new(0, 0)).typ, TileType::Murphy);
    assert_eq!(l.grid.get(&Coord::new(1, 1)).typ, TileType::Zonk);
    assert_eq!(l.grid.get(&Coord::new(59, 23)).typ, TileType::HardwareWall);
    assert_eq!(l.grid.get(&Coord::new(5, 5)).typ, TileType::Empty);
    assert_eq!(l.data.name, "\0EVEL                  ");
    assert!(l.data.gravity_enabled);
    assert!(l.data.zonks_frozen);
    assert_eq!(l.data.infotrons_required, 200);
    assert_eq!(l.data.red_utility_disks, 0);
    assert_eq!(l.data.speed, 8000);
    assert_eq!(l.data.delta_time, 0);
    assert_eq!(l.data.game_state, GameState::Active);
    assert_eq!(l.data.camera_target, None);
    assert!(l.data.move_priority.is_empty());
    let l = &levels[110];
    assert_eq!(l.data.name, "LEVEL                  ");
    assert!(!l.data.gravity_enabled);
    assert!(!l.data.zonks_frozen);
    assert_eq!(l.data.infotrons_required, 110);
}

#[test]
fn what_follows_the_last_level_is_ignored() {
    let mut data = file();
    data.extend_from_slice(&[0xff; 100]);
    assert_eq!(parse_level_dat(&data).unwrap().len(), 111);
}

#[test]
fn a_short_file_is_refused() {
    let mut data = file();
    data.pop();
    assert_eq!(parse_level_dat(&data).err(), Some(LoadError::Truncated));
    assert_eq!(parse_level_dat(&[]).err(), Some(LoadError::Truncated));
}

#[test]
fn a_name_that_is_not_text_is_refused() {
    let mut data = file();
    data[7 * LEVEL_SIZE + 1450] = 0xff;
    data[9 * LEVEL_SIZE + 1450] = 0xff;
    assert_eq!(parse_level_dat(&data).err(), Some(LoadError::BadName(7)));
    let mut data = file();
    data[110 * LEVEL_SIZE + 1466] = 0xc3;
    assert_eq!(parse_level_dat(&data).err(), Some(LoadError::BadName(110)));
    let mut data = file();
    data[1465] = 0xc3;
    data[1466] = 0xa9;
    let levels = parse_level_dat(&data).unwrap();
    assert_eq!(levels[0].data.name, "LEVEL                \u{e9}");
}
