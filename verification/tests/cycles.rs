// The systems of the tick-counting model.

use supaplex::cells::{trans, Cells};
use supaplex::level::components::direction_component::DirectionComponent;
use supaplex::level::components::interaction_component::{InteractionComponent, InteractionTile};
use supaplex::level::components::move_component::MoveComponent;
use supaplex::level::components::transitory_component::TransitoryComponent;
use supaplex::level::components::update_component::UpdateComponent;
use supaplex::level::systems::ai_system::ai_system;
use supaplex::level::systems::gravity_system::gravity_system;
use supaplex::level::systems::murphy_system::{get_direction_component, murphy_system};
use supaplex::level::systems::simple_gravity_system::simple_gravity_system;
use supaplex::level::systems::transitory_system::transitory_system;
use supaplex::tile::{HardwareType, PortsType, RAMChipsType, Tile};

const U0: UpdateComponent = UpdateComponent(0, 0);
const S: MoveComponent = MoveComponent::Stationary;
const WALL: Tile = Tile::Hardware(HardwareType::Wall);
const ZONK: Tile = Tile::Zonk(U0, S);
const INFO: Tile = Tile::Infotron(U0, S);
const MURPHY: Tile = Tile::Murphy(U0, S, DirectionComponent::Left, InteractionComponent::Idle);

fn cells(cols: usize, tiles: Vec<Tile>) -> Cells {
    Cells::new_from(cols, tiles)
}

#[test]
fn positions_move_and_leave_the_range_at_its_ends() {
    assert_eq!(trans((3, 4), (1, -1)), (4, 3));
    assert_eq!(trans((3, 4), (-3, 0)), (0, 4));
    assert_eq!(trans((0, 4), (-1, 0)), (usize::MAX, 4));
    assert_eq!(trans((3, 0), (0, -1)), (3, usize::MAX));
    assert_eq!(trans((usize::MAX - 1, 0), (2, 0)), (usize::MAX, 0));
    assert_eq!(trans((5, 5), (i16::MIN, i16::MAX)), (usize::MAX, 5 + 32767));
}

#[test]
fn cells_read_nothing_outside() {
    let g = cells(2, vec![Tile::Base, Tile::Empty, Tile::Exit, ZONK, INFO]);
    assert_eq!(g.get_tuple((0, 0)), Tile::Base);
    assert_eq!(g.get_tuple((1, 0)), Tile::Empty);
    assert_eq!(g.get_tuple((0, 1)), Tile::Exit);
    assert_eq!(g.get_tuple((1, 1)), ZONK);
    // the fifth tile does not make a row
    assert_eq!(g.get_tuple((0, 2)), Tile::Void);
    assert_eq!(g.get_tuple((2, 0)), Tile::Void);
    assert_eq!(g.get_tuple((usize::MAX, 0)), Tile::Void);
    assert_eq!(g.get_trans((0, 0), (-1, 0)), Tile::Void);
    assert_eq!(g.get_trans((0, 0), (1, 1)), ZONK);
    assert_eq!(cells(0, vec![Tile::Base]).get_tuple((0, 0)), Tile::Void);
    let g = Cells::new((3, 2), Tile::Exit);
    assert_eq!(g.cols, 3);
    assert_eq!(g.tiles, vec![Tile::Exit; 6]);
    let g = Cells::new((usize::MAX, 2), Tile::Exit);
    assert!(g.tiles.is_empty());
}

#[test]
fn placeholder_of_cycles() {
    assert_eq!(transitory_system((2, 3), &UpdateComponent(0, 5)), Some(vec![((2, 3), Tile::Empty)]));
    assert_eq!(transitory_system((2, 3), &UpdateComponent(1, 0)), None);
}

#[test]
fn gravity_of_cycles_falls_rolls_and_rests() {
    let moved = UpdateComponent(16, 0);
    let g = cells(3, vec![Tile::Empty, ZONK, Tile::Empty, Tile::Empty, Tile::Empty, Tile::Empty]);
    assert_eq!(
        gravity_system((1, 0), &g, &U0, &S),
        Some(vec![((1, 1), Tile::Zonk(moved, MoveComponent::Down)), ((1, 0), Tile::transitory_empty())])
    );
    assert_eq!(gravity_system((1, 0), &g, &UpdateComponent(3, 0), &S), None);
    let g = cells(3, vec![Tile::Empty, INFO, Tile::Empty, Tile::Empty, ZONK, Tile::Empty]);
    assert_eq!(
        gravity_system((1, 0), &g, &U0, &S),
        Some(vec![
            ((0, 0), Tile::Infotron(moved, MoveComponent::Left)),
            ((1, 0), Tile::transitory_empty())
        ])
    );
    let g = cells(3, vec![Tile::Empty, INFO, Tile::Empty, Tile::Base, Tile::RAMChips(RAMChipsType::Up), Tile::Empty]);
    assert_eq!(
        gravity_system((1, 0), &g, &U0, &S),
        Some(vec![
            ((2, 0), Tile::Infotron(moved, MoveComponent::Right)),
            ((1, 0), Tile::transitory_empty())
        ])
    );
    let g = cells(3, vec![WALL, Tile::Zonk(U0, MoveComponent::Down), WALL, WALL, ZONK, WALL]);
    assert_eq!(gravity_system((1, 0), &g, &U0, &MoveComponent::Down), Some(vec![((1, 0), ZONK)]));
    assert_eq!(gravity_system((1, 0), &g, &U0, &S), None);
    let g = cells(1, vec![Tile::Zonk(U0, MoveComponent::Down), WALL]);
    assert_eq!(gravity_system((0, 0), &g, &U0, &MoveComponent::Down), Some(vec![((0, 0), ZONK)]));
    assert_eq!(gravity_system((0, 1), &g, &U0, &MoveComponent::Down), None);
    let g = cells(1, vec![MURPHY, Tile::Empty]);
    assert_eq!(gravity_system((0, 0), &g, &U0, &MoveComponent::Down), None);
}

#[test]
fn plain_gravity_of_cycles_does_not_roll() {
    let o = Tile::OrangeUtilityDisk(U0, S);
    let g = cells(3, vec![Tile::Empty, o, Tile::Empty, Tile::Empty, ZONK, Tile::Empty]);
    assert_eq!(simple_gravity_system((1, 0), &g, &U0, &S), None);
    assert_eq!(
        simple_gravity_system((1, 0), &g, &U0, &MoveComponent::Down),
        Some(vec![((1, 0), o)])
    );
    let g = cells(1, vec![o, Tile::Empty]);
    assert_eq!(
        simple_gravity_system((0, 0), &g, &U0, &S),
        Some(vec![
            ((0, 1), Tile::OrangeUtilityDisk(UpdateComponent(16, 0), MoveComponent::Down)),
            ((0, 0), Tile::transitory_empty())
        ])
    );
    assert_eq!(simple_gravity_system((0, 0), &g, &UpdateComponent(1, 0), &S), None);
}

#[test]
fn enemy_of_cycles_follows_the_wall() {
    let up = MoveComponent::Up;
    let turned = UpdateComponent(0, 8);
    let moved = UpdateComponent(16, 0);
    let snik = Tile::SnikSnak(U0, up, up);
    // left and ahead empty, ahead-left not: just round a corner, go ahead
    let g = cells(3, vec![WALL, Tile::Empty, WALL, Tile::Empty, snik, WALL, WALL, WALL, WALL]);
    assert_eq!(
        ai_system((1, 1), &g, &U0, &up, &up),
        Some(vec![((1, 0), Tile::SnikSnak(moved, up, up)), ((1, 1), Tile::transitory_empty())])
    );
    // left empty and ahead-left empty: turn left
    let g = cells(3, vec![Tile::Empty, Tile::Empty, WALL, Tile::Empty, snik, WALL, WALL, WALL, WALL]);
    assert_eq!(
        ai_system((1, 1), &g, &U0, &up, &up),
        Some(vec![((1, 1), Tile::SnikSnak(turned, MoveComponent::Left, up))])
    );
    // wall on the left: ahead if free
    let g = cells(3, vec![WALL, Tile::Empty, WALL, WALL, snik, WALL, WALL, WALL, WALL]);
    assert_eq!(
        ai_system((1, 1), &g, &U0, &up, &up),
        Some(vec![((1, 0), Tile::SnikSnak(moved, up, up)), ((1, 1), Tile::transitory_empty())])
    );
    // boxed in: turn right
    let g = cells(3, vec![WALL, WALL, WALL, WALL, snik, Tile::Empty, WALL, WALL, WALL]);
    assert_eq!(
        ai_system((1, 1), &g, &U0, &up, &up),
        Some(vec![((1, 1), Tile::SnikSnak(turned, MoveComponent::Right, up))])
    );
    // the player on the left: nothing
    let g = cells(3, vec![WALL, Tile::Empty, WALL, MURPHY, snik, WALL, WALL, WALL, WALL]);
    assert_eq!(ai_system((1, 1), &g, &U0, &up, &up), None);
    assert_eq!(ai_system((1, 1), &g, &UpdateComponent(0, 1), &up, &up), None);
    assert_eq!(ai_system((1, 1), &g, &UpdateComponent(1, 0), &up, &up), None);
    // in the corner of the grid
    let g = cells(1, vec![snik]);
    assert_eq!(
        ai_system((0, 0), &g, &U0, &up, &up),
        Some(vec![((0, 0), Tile::SnikSnak(turned, MoveComponent::Right, up))])
    );
}

#[test]
fn player_of_cycles_looks_where_it_goes_sideways() {
    let l = DirectionComponent::Left;
    let r = DirectionComponent::Right;
    assert_eq!(get_direction_component(&MoveComponent::Left, &r), l);
    assert_eq!(get_direction_component(&MoveComponent::Right, &l), r);
    assert_eq!(get_direction_component(&MoveComponent::Up, &l), l);
    assert_eq!(get_direction_component(&MoveComponent::Down, &r), r);
    assert_eq!(get_direction_component(&MoveComponent::Stationary, &r), r);
}

#[test]
fn player_of_cycles_eats_slurps_and_idles() {
    let l = DirectionComponent::Left;
    let moved = UpdateComponent(16, 0);
    let right = MoveComponent::Right;
    let g = cells(3, vec![WALL, MURPHY, INFO]);
    assert_eq!(murphy_system((1, 0), &g, &UpdateComponent(1, 0), &[right], &l, false), None);
    assert_eq!(
        murphy_system((1, 0), &g, &U0, &[MoveComponent::Left, right], &l, false),
        Some(vec![
            ((1, 0), Tile::transitory_empty()),
            (
                (2, 0),
                Tile::Murphy(
                    moved,
                    right,
                    DirectionComponent::Right,
                    InteractionComponent::Eating(InteractionTile::Infotron)
                )
            ),
        ])
    );
    assert_eq!(
        murphy_system((1, 0), &g, &U0, &[right], &l, true),
        Some(vec![
            ((1, 0), Tile::Murphy(moved, right, DirectionComponent::Right, InteractionComponent::Slurping)),
            ((2, 0), Tile::Transitory(moved, TransitoryComponent::Infotron)),
        ])
    );
    let idle = Some(vec![((1, 0), Tile::Murphy(U0, S, l, InteractionComponent::Idle))]);
    assert_eq!(murphy_system((1, 0), &g, &U0, &[], &l, false), idle);
    assert_eq!(murphy_system((1, 0), &g, &U0, &[MoveComponent::Left, MoveComponent::Up], &l, true), idle);
    // empty space is stepped into even with the special key held
    let g = cells(2, vec![MURPHY, Tile::Empty]);
    assert_eq!(
        murphy_system((0, 0), &g, &U0, &[right], &l, true),
        Some(vec![
            ((0, 0), Tile::transitory_empty()),
            (
                (1, 0),
                Tile::Murphy(
                    moved,
                    right,
                    DirectionComponent::Right,
                    InteractionComponent::Eating(InteractionTile::Nothing)
                )
            ),
        ])
    );
    // something on the move ends the search
    let g = cells(3, vec![Tile::Base, MURPHY, Tile::Infotron(UpdateComponent(4, 0), MoveComponent::Down)]);
    assert_eq!(murphy_system((1, 0), &g, &U0, &[right, MoveComponent::Left], &l, false), idle);
}

#[test]
fn player_of_cycles_pushes_and_tunnels() {
    let l = DirectionComponent::Left;
    let right = MoveComponent::Right;
    let pushed = UpdateComponent(16, 16);
    let moved = UpdateComponent(16, 0);
    let g = cells(3, vec![MURPHY, ZONK, Tile::Empty]);
    assert_eq!(
        murphy_system((0, 0), &g, &U0, &[right], &l, false),
        Some(vec![
            ((0, 0), Tile::Transitory(pushed, TransitoryComponent::Nothing)),
            ((1, 0), Tile::Murphy(pushed, right, DirectionComponent::Right, InteractionComponent::Pushing)),
            ((2, 0), Tile::Zonk(pushed, right)),
        ])
    );
    let idle = |at| Some(vec![(at, Tile::Murphy(U0, S, l, InteractionComponent::Idle))]);
    let g = cells(3, vec![MURPHY, ZONK, WALL]);
    assert_eq!(murphy_system((0, 0), &g, &U0, &[right], &l, false), idle((0, 0)));
    // a zonk below ends the search; a disk below is pushed
    let g = cells(2, vec![MURPHY, Tile::Base, ZONK, Tile::Base, Tile::Empty, Tile::Base]);
    assert_eq!(murphy_system((0, 0), &g, &U0, &[MoveComponent::Down, right], &l, false), idle((0, 0)));
    let y = Tile::YellowUtilityDisk(U0, S);
    let g = cells(2, vec![MURPHY, Tile::Base, y, Tile::Base, Tile::Empty, Tile::Base]);
    assert_eq!(
        murphy_system((0, 0), &g, &U0, &[MoveComponent::Down, right], &l, false),
        Some(vec![
            ((0, 0), Tile::Transitory(pushed, TransitoryComponent::Nothing)),
            ((0, 1), Tile::Murphy(pushed, MoveComponent::Down, l, InteractionComponent::Pushing)),
            ((0, 2), Tile::YellowUtilityDisk(pushed, MoveComponent::Down)),
        ])
    );
    for (port, open) in [
        (PortsType::All, true),
        (PortsType::Horizontal, true),
        (PortsType::Right, true),
        (PortsType::Left, false),
        (PortsType::Vertical, false),
        (PortsType::Up, false),
        (PortsType::AllBlue, false),
        (PortsType::RightBlue, false),
    ] {
        let g = cells(3, vec![MURPHY, Tile::Ports(port), Tile::Empty]);
        let expected = if open {
            Some(vec![
                ((0, 0), Tile::transitory_empty()),
                (
                    (2, 0),
                    Tile::Murphy(
                        moved,
                        right,
                        DirectionComponent::Right,
                        InteractionComponent::Tunneling(port),
                    ),
                ),
            ])
        } else {
            idle((0, 0))
        };
        assert_eq!(murphy_system((0, 0), &g, &U0, &[right], &l, false), expected);
    }
    let g = cells(3, vec![MURPHY, Tile::Ports(PortsType::All), Tile::Base]);
    assert_eq!(murphy_system((0, 0), &g, &U0, &[right], &l, false), idle((0, 0)));
}

#[test]
fn tiles_of_cycles_call_their_system() {
    let g = cells(1, vec![ZONK, Tile::Empty]);
    assert_eq!(
        ZONK.update((0, 0), &g, &[], false),
        Some(vec![
            ((0, 1), Tile::Zonk(UpdateComponent(16, 0), MoveComponent::Down)),
            ((0, 0), Tile::transitory_empty())
        ])
    );
    let g = cells(1, vec![INFO, Tile::Empty]);
    assert_eq!(INFO.update((0, 0), &g, &[], false).unwrap()[0].0, (0, 1));
    let o = Tile::OrangeUtilityDisk(U0, S);
    let g = cells(1, vec![o, Tile::Empty]);
    assert_eq!(o.update((0, 0), &g, &[], false).unwrap().len(), 2);
    let t = Tile::Transitory(U0, TransitoryComponent::Base);
    assert_eq!(t.update((0, 0), &g, &[], false), Some(vec![((0, 0), Tile::Empty)]));
    let g = cells(2, vec![MURPHY, Tile::Base]);
    assert_eq!(MURPHY.update((0, 0), &g, &[MoveComponent::Right], false).unwrap().len(), 2);
    let snik = Tile::SnikSnak(U0, MoveComponent::Up, MoveComponent::Up);
    let g = cells(1, vec![snik]);
    assert_eq!(snik.update((0, 0), &g, &[], false).unwrap().len(), 1);
    for tile in [
        Tile::Electron(U0, S),
        Tile::Base,
        Tile::Empty,
        Tile::Exit,
        Tile::Bug(U0),
        Tile::Terminal(U0),
        Tile::RedUtilityDisk(U0),
        Tile::YellowUtilityDisk(U0, S),
        WALL,
        Tile::Void,
    ] {
        assert_eq!(tile.update((0, 0), &g, &[MoveComponent::Right], true), None);
    }
}
