// The tick-counting model and the plainest model.

use supaplex::bug_state::BugState;
use supaplex::entity::Entity;
use supaplex::gravity::Gravity;
use supaplex::level::components::direction_component::DirectionComponent;
use supaplex::level::components::interaction_component::{InteractionComponent, InteractionTile};
use supaplex::level::components::move_component::MoveComponent;
use supaplex::level::components::transitory_component::TransitoryComponent;
use supaplex::level::components::update_component::UpdateComponent;
use supaplex::tile::{get_zonk_infotron_pos, HardwareType, PortsType, RAMChipsType, Tile};
use supaplex::tiles;
use supaplex::tiles::Tile::{Base, Empty, Infotron, Zonk};

#[test]
fn bug_state_starts_at_zero_and_stays() {
    let mut b = BugState::new();
    assert_eq!(b, BugState { update_cycle: 0, animation_cycle: 0 });
    b.update_cycle = 4;
    b.update();
    assert_eq!(b, BugState { update_cycle: 4, animation_cycle: 0 });
}

#[test]
fn direction_as_bool() {
    assert!(DirectionComponent::Left.as_bool());
    assert!(!DirectionComponent::Right.as_bool());
}

#[test]
fn move_component_from_axis_reading() {
    assert_eq!(MoveComponent::from_i8(1), MoveComponent::Right);
    assert_eq!(MoveComponent::from_i8(-1), MoveComponent::Left);
    assert_eq!(MoveComponent::from_i8(2), MoveComponent::Down);
    assert_eq!(MoveComponent::from_i8(-2), MoveComponent::Up);
    assert_eq!(MoveComponent::from_i8(0), MoveComponent::Stationary);
    assert_eq!(MoveComponent::from_i8(3), MoveComponent::Stationary);
    assert_eq!(MoveComponent::from_i8(i8::MIN), MoveComponent::Stationary);
}

#[test]
fn move_component_steps_and_turns() {
    assert_eq!(MoveComponent::Stationary.as_tuple(), (0, 0));
    assert_eq!(MoveComponent::Up.as_tuple(), (0, -1));
    assert_eq!(MoveComponent::Down.as_tuple(), (0, 1));
    assert_eq!(MoveComponent::Left.as_tuple(), (-1, 0));
    assert_eq!(MoveComponent::Right.as_tuple(), (1, 0));
    assert_eq!(MoveComponent::Up.rotate_left(), MoveComponent::Left);
    assert_eq!(MoveComponent::Left.rotate_left(), MoveComponent::Down);
    assert_eq!(MoveComponent::Down.rotate_left(), MoveComponent::Right);
    assert_eq!(MoveComponent::Right.rotate_left(), MoveComponent::Up);
    assert_eq!(MoveComponent::Stationary.rotate_left(), MoveComponent::Stationary);
    assert_eq!(MoveComponent::Up.rotate_right(), MoveComponent::Right);
    assert_eq!(MoveComponent::Right.rotate_right(), MoveComponent::Down);
    assert_eq!(MoveComponent::Down.rotate_right(), MoveComponent::Left);
    assert_eq!(MoveComponent::Left.rotate_right(), MoveComponent::Up);
    assert_eq!(MoveComponent::Stationary.rotate_right(), MoveComponent::Stationary);
    for m in [MoveComponent::Up, MoveComponent::Down, MoveComponent::Left, MoveComponent::Right] {
        assert_eq!(m.rotate_left().rotate_right(), m);
        let (x, y) = m.as_tuple();
        assert_eq!(m.rotate_left().as_tuple(), (y, -x));
    }
}

#[test]
fn update_component_counts_the_second_part_down_first() {
    let mut u = UpdateComponent(2, 1);
    u.next_cycle();
    assert_eq!(u, UpdateComponent(2, 0));
    u.next_cycle();
    assert_eq!(u, UpdateComponent(1, 0));
    u.next_cycle();
    assert_eq!(u, UpdateComponent(0, 0));
    u.next_cycle();
    assert_eq!(u, UpdateComponent(0, 0));
    assert_eq!(UpdateComponent::default(), UpdateComponent(0, 0));
    let mut u = UpdateComponent(0, 255);
    u.next_cycle();
    assert_eq!(u, UpdateComponent(0, 254));
}

#[test]
fn what_is_eaten_and_what_a_placeholder_stands_for() {
    let u = UpdateComponent(0, 0);
    assert_eq!(InteractionTile::from_tile(&Tile::Base), InteractionTile::Base);
    assert_eq!(
        InteractionTile::from_tile(&Tile::Infotron(u, MoveComponent::Down)),
        InteractionTile::Infotron
    );
    assert_eq!(InteractionTile::from_tile(&Tile::RedUtilityDisk(u)), InteractionTile::RedUtilityDisk);
    assert_eq!(InteractionTile::from_tile(&Tile::Empty), InteractionTile::Nothing);
    assert_eq!(InteractionTile::from_tile(&Tile::Bug(u)), InteractionTile::Nothing);
    assert_eq!(TransitoryComponent::from_tile(&Tile::Base), TransitoryComponent::Base);
    assert_eq!(
        TransitoryComponent::from_tile(&Tile::Infotron(u, MoveComponent::Down)),
        TransitoryComponent::Infotron
    );
    assert_eq!(
        TransitoryComponent::from_tile(&Tile::RedUtilityDisk(u)),
        TransitoryComponent::RedUtilityDisk
    );
    assert_eq!(
        TransitoryComponent::from_tile(&Tile::Zonk(u, MoveComponent::Stationary)),
        TransitoryComponent::Nothing
    );
}

#[test]
fn port_columns() {
    let all = [
        PortsType::All,
        PortsType::Horizontal,
        PortsType::Vertical,
        PortsType::Left,
        PortsType::Right,
        PortsType::Up,
        PortsType::Down,
        PortsType::AllBlue,
        PortsType::HorizontalBlue,
        PortsType::VerticalBlue,
        PortsType::LeftBlue,
        PortsType::RightBlue,
        PortsType::UpBlue,
        PortsType::DownBlue,
    ];
    for (i, p) in all.iter().enumerate() {
        assert_eq!(p.as_u8() as usize, i);
    }
}

#[test]
fn change_tile_swaps_clock_and_direction_where_that_is_all_there_is() {
    let u0 = UpdateComponent(0, 0);
    let u = UpdateComponent(16, 0);
    let m = MoveComponent::Down;
    let s = MoveComponent::Stationary;
    assert_eq!(Tile::Electron(u0, s).change_tile(u, m), Some(Tile::Electron(u, m)));
    assert_eq!(Tile::Infotron(u0, s).change_tile(u, m), Some(Tile::Infotron(u, m)));
    assert_eq!(Tile::OrangeUtilityDisk(u0, s).change_tile(u, m), Some(Tile::OrangeUtilityDisk(u, m)));
    assert_eq!(Tile::YellowUtilityDisk(u0, s).change_tile(u, m), Some(Tile::YellowUtilityDisk(u, m)));
    assert_eq!(Tile::Zonk(u0, s).change_tile(u, m), Some(Tile::Zonk(u, m)));
    assert_eq!(Tile::SnikSnak(u0, s, s).change_tile(u, m), None);
    assert_eq!(Tile::Base.change_tile(u, m), None);
    assert_eq!(Tile::RedUtilityDisk(u0).change_tile(u, m), None);
    assert_eq!(
        Tile::Murphy(u0, s, DirectionComponent::Left, InteractionComponent::Idle).change_tile(u, m),
        None
    );
}

#[test]
fn tick_counting_tiles_from_codes() {
    let u = UpdateComponent(0, 0);
    let s = MoveComponent::Stationary;
    assert_eq!(Tile::from_u8(0), Tile::Base);
    assert_eq!(Tile::from_u8(1), Tile::Bug(u));
    assert_eq!(Tile::from_u8(2), Tile::Electron(u, s));
    assert_eq!(Tile::from_u8(3), Tile::Empty);
    assert_eq!(Tile::from_u8(4), Tile::Exit);
    assert_eq!(Tile::from_u8(5), Tile::Hardware(HardwareType::Wall));
    assert_eq!(Tile::from_u8(15), Tile::Hardware(HardwareType::Capacitor));
    assert_eq!(Tile::from_u8(16), Tile::Infotron(u, s));
    assert_eq!(
        Tile::from_u8(17),
        Tile::Murphy(u, s, DirectionComponent::Left, InteractionComponent::Idle)
    );
    assert_eq!(Tile::from_u8(18), Tile::Ports(PortsType::All));
    assert_eq!(Tile::from_u8(24), Tile::Ports(PortsType::Down));
    assert_eq!(Tile::from_u8(31), Tile::Ports(PortsType::DownBlue));
    assert_eq!(Tile::from_u8(32), Tile::RAMChips(RAMChipsType::Base));
    assert_eq!(Tile::from_u8(36), Tile::RAMChips(RAMChipsType::Down));
    assert_eq!(Tile::from_u8(37), Tile::SnikSnak(u, MoveComponent::Left, s));
    assert_eq!(Tile::from_u8(38), Tile::Terminal(u));
    assert_eq!(Tile::from_u8(39), Tile::RedUtilityDisk(u));
    assert_eq!(Tile::from_u8(40), Tile::OrangeUtilityDisk(u, s));
    assert_eq!(Tile::from_u8(41), Tile::YellowUtilityDisk(u, s));
    assert_eq!(Tile::from_u8(42), Tile::Zonk(u, s));
    assert_eq!(Tile::from_u8(43), Tile::Base);
    assert_eq!(Tile::from_u8(255), Tile::Base);
}

#[test]
fn placeholder_lasts_a_move() {
    assert_eq!(
        Tile::transitory_empty(),
        Tile::Transitory(UpdateComponent(16, 0), TransitoryComponent::Nothing)
    );
}

#[test]
fn update_mut_runs_the_clock_of_tiles_that_have_one() {
    let m = MoveComponent::Left;
    let mut t = Tile::Zonk(UpdateComponent(16, 0), m);
    t.update_mut();
    assert_eq!(t, Tile::Zonk(UpdateComponent(15, 0), m));
    let mut t = Tile::SnikSnak(UpdateComponent(3, 8), m, m);
    t.update_mut();
    assert_eq!(t, Tile::SnikSnak(UpdateComponent(3, 7), m, m));
    let mut t = Tile::Transitory(UpdateComponent(1, 0), TransitoryComponent::Base);
    t.update_mut();
    assert_eq!(t, Tile::Transitory(UpdateComponent(0, 0), TransitoryComponent::Base));
    t.update_mut();
    assert_eq!(t, Tile::Transitory(UpdateComponent(0, 0), TransitoryComponent::Base));
    let mut t = Tile::Murphy(UpdateComponent(2, 0), m, DirectionComponent::Right, InteractionComponent::Pushing);
    t.update_mut();
    assert_eq!(
        t,
        Tile::Murphy(UpdateComponent(1, 0), m, DirectionComponent::Right, InteractionComponent::Pushing)
    );
    for mut t in [Tile::Base, Tile::Empty, Tile::Exit, Tile::Void, Tile::Ports(PortsType::Up)] {
        let before = t;
        t.update_mut();
        assert_eq!(t, before);
    }
    let mut t = Tile::Bug(UpdateComponent(0, 2));
    t.update_mut();
    assert_eq!(t, Tile::Bug(UpdateComponent(0, 1)));
}

#[test]
fn rolling_animation_frames() {
    let left = MoveComponent::Left;
    let right = MoveComponent::Right;
    let expect_left = [0u8, 0, 1, 1, 2, 2, 3, 3, 4, 4, 5, 5, 6, 6, 7, 7, 0];
    let expect_right = [0u8, 0, 7, 7, 6, 6, 5, 5, 4, 4, 3, 3, 2, 2, 1, 1, 0];
    for n in 0..=16u8 {
        assert_eq!(get_zonk_infotron_pos(&UpdateComponent(n, 0), &left), expect_left[n as usize]);
        assert_eq!(get_zonk_infotron_pos(&UpdateComponent(n, 0), &right), expect_right[n as usize]);
        assert_eq!(get_zonk_infotron_pos(&UpdateComponent(n, 0), &MoveComponent::Down), 0);
        assert_eq!(get_zonk_infotron_pos(&UpdateComponent(n, 3), &MoveComponent::Stationary), 0);
    }
    assert_eq!(get_zonk_infotron_pos(&UpdateComponent(200, 0), &left), 0);
}

#[test]
fn plain_tiles_from_codes() {
    assert_eq!(tiles::Tile::from_u8(0), tiles::Tile::Base);
    assert_eq!(tiles::Tile::from_u8(1), tiles::Tile::Bug);
    assert_eq!(tiles::Tile::from_u8(2), tiles::Tile::Electron);
    assert_eq!(tiles::Tile::from_u8(3), tiles::Tile::Empty);
    assert_eq!(tiles::Tile::from_u8(4), tiles::Tile::Exit);
    assert_eq!(tiles::Tile::from_u8(5), tiles::Tile::Hardware(tiles::HardwareType::Wall));
    assert_eq!(tiles::Tile::from_u8(6), tiles::Tile::Infotron);
    assert_eq!(tiles::Tile::from_u8(7), tiles::Tile::Murphy);
    assert_eq!(tiles::Tile::from_u8(8), tiles::Tile::Ports(tiles::PortsType::All));
    assert_eq!(tiles::Tile::from_u8(9), tiles::Tile::RAMChips(tiles::RAMChipsType::Base));
    assert_eq!(tiles::Tile::from_u8(10), tiles::Tile::SnikSnak);
    assert_eq!(tiles::Tile::from_u8(11), tiles::Tile::Terminal);
    assert_eq!(tiles::Tile::from_u8(12), tiles::Tile::UtilityDisks(tiles::UtilityDisksType::Red));
    assert_eq!(tiles::Tile::from_u8(13), tiles::Tile::Zonk);
    assert_eq!(tiles::Tile::from_u8(14), tiles::Tile::Base);
    assert_eq!(tiles::Tile::from_u8(255), tiles::Tile::Base);
}

#[test]
fn entities_by_tile() {
    let g = Some(Gravity { slideable: true });
    let e = Entity::from_tile(tiles::Tile::Base);
    assert_eq!(
        e,
        Entity {
            tile: tiles::Tile::Base,
            moveable: tiles::Moveable::Stationary,
            is_destructible: true,
            is_moveable: false,
            is_eatable: true,
            gravity: None,
            bug_state: None,
        }
    );
    let e = Entity::from_tile(tiles::Tile::Bug);
    assert_eq!(e.bug_state, Some(BugState::new()));
    assert!(e.is_eatable);
    let e = Entity::from_tile(tiles::Tile::Zonk);
    assert_eq!((e.is_destructible, e.is_moveable, e.is_eatable, e.gravity), (true, true, false, g));
    let e = Entity::from_tile(tiles::Tile::Infotron);
    assert_eq!((e.is_destructible, e.is_moveable, e.is_eatable, e.gravity), (true, false, true, g));
    let e = Entity::from_tile(tiles::Tile::UtilityDisks(tiles::UtilityDisksType::Orange));
    assert_eq!((e.is_destructible, e.is_moveable, e.is_eatable, e.gravity), (true, true, true, g));
    let e = Entity::from_tile(tiles::Tile::Hardware(tiles::HardwareType::Capacitor));
    assert_eq!((e.is_destructible, e.is_moveable, e.is_eatable, e.gravity), (false, false, false, None));
    let e = Entity::from_tile(tiles::Tile::Void);
    assert_eq!((e.is_destructible, e.is_moveable, e.is_eatable, e.gravity), (false, false, false, None));
    for t in [
        tiles::Tile::Electron,
        tiles::Tile::Exit,
        tiles::Tile::Murphy,
        tiles::Tile::Ports(tiles::PortsType::Up),
        tiles::Tile::RAMChips(tiles::RAMChipsType::Left),
        tiles::Tile::SnikSnak,
        tiles::Tile::Terminal,
    ] {
        let e = Entity::from_tile(t);
        assert_eq!((e.is_destructible, e.is_moveable, e.is_eatable, e.gravity), (true, false, false, None));
        assert_eq!(e.bug_state, None);
        assert_eq!(e.tile, t);
    }
    let e = Entity::from_tile(tiles::Tile::Empty);
    assert_eq!((e.is_destructible, e.is_moveable, e.is_eatable, e.gravity), (true, false, true, None));
    let moved = Entity::from(e, tiles::Moveable::Down);
    assert_eq!(moved.moveable, tiles::Moveable::Down);
    assert_eq!(moved.tile, tiles::Tile::Empty);
    assert!(moved.is_eatable);
    let n = Entity::new(tiles::Tile::Exit, false, true, false, g, None);
    assert_eq!(n.moveable, tiles::Moveable::Stationary);
    assert_eq!((n.is_destructible, n.is_moveable, n.is_eatable, n.gravity), (false, true, false, g));
}

fn columns(rows: &[&[tiles::Tile]]) -> Vec<Vec<Entity>> {
    let width = rows[0].len();
    (0..width).map(|x| rows.iter().map(|row| Entity::from_tile(row[x])).collect()).collect()
}

#[test]
fn plain_gravity_asks_for_a_fall() {
    let grid = columns(&[&[Base, Base, Base], &[Base, Zonk, Base], &[Base, Empty, Base]]);
    let mut updates = vec![];
    Gravity { slideable: true }.update(1, 1, &grid, &mut updates);
    assert_eq!(
        updates,
        vec![
            (1, 1, Entity::from_tile(Empty)),
            (1, 2, Entity::from(Entity::from_tile(Zonk), tiles::Moveable::Down)),
        ]
    );
}

#[test]
fn plain_gravity_asks_for_both_slides_and_for_rest() {
    let grid = columns(&[&[Empty, Empty, Empty], &[Empty, Zonk, Empty], &[Empty, Infotron, Empty]]);
    let mut moving = grid.clone();
    moving[1][1] = Entity::from(Entity::from_tile(Zonk), tiles::Moveable::Down);
    let e = moving[1][1];
    let mut updates = vec![(9, 9, Entity::from_tile(Empty))];
    Gravity { slideable: true }.update(1, 1, &moving, &mut updates);
    assert_eq!(
        updates,
        vec![
            (9, 9, Entity::from_tile(Empty)),
            (1, 1, Entity::from_tile(Empty)),
            (0, 1, Entity::from(e, tiles::Moveable::Left)),
            (1, 1, Entity::from_tile(Empty)),
            (2, 1, Entity::from(e, tiles::Moveable::Left)),
            (1, 1, Entity::from(e, tiles::Moveable::Stationary)),
        ]
    );
    let mut updates = vec![];
    let mut blocked = grid.clone();
    blocked[0][0] = Entity::from_tile(Zonk);
    blocked[2][2] = Entity::from_tile(tiles::Tile::Base);
    Gravity { slideable: false }.update(1, 1, &blocked, &mut updates);
    assert!(updates.is_empty());
}

#[test]
fn plain_gravity_brings_to_rest_on_solid_ground_and_at_the_edge() {
    let mut grid = columns(&[&[Zonk], &[Base]]);
    grid[0][0] = Entity::from(grid[0][0], tiles::Moveable::Down);
    let e = grid[0][0];
    let mut updates = vec![];
    Gravity { slideable: true }.update(0, 0, &grid, &mut updates);
    assert_eq!(updates, vec![(0, 0, Entity::from(e, tiles::Moveable::Stationary))]);
    let mut updates = vec![];
    Gravity { slideable: true }.update(0, 1, &grid, &mut updates);
    assert!(updates.is_empty());
    let mut updates = vec![];
    Gravity { slideable: true }.update(7, 7, &grid, &mut updates);
    assert!(updates.is_empty());
}
