//! The player of the tick-counting model.

use vstd::prelude::*;
use crate::cells::{trans, Cells, Pos};
use crate::level::components::direction_component::DirectionComponent;
use crate::level::components::interaction_component::{InteractionComponent, InteractionTile};
use crate::level::components::move_component::MoveComponent;
use crate::level::components::transitory_component::TransitoryComponent;
use crate::level::components::update_component::UpdateComponent;
use crate::tile::{PortsType, Tile, MOVE_CYCLES};

verus! {

/// What the player makes of one direction.
pub enum Attempt {
    /// Nothing can be done there; the next direction is tried.
    Pass,
    /// What is there is on the move: the player stays put, and no other
    /// direction is tried.
    Stop,
    /// These updates.
    Act(Seq<(Pos, Tile)>),
}

/// The side the player looks at after acting towards `mc`.
pub open spec fn spec_direction(mc: MoveComponent, dc: DirectionComponent) -> DirectionComponent {
    match mc {
        MoveComponent::Left => DirectionComponent::Left,
        MoveComponent::Right => DirectionComponent::Right,
        _ => dc,
    }
}

pub fn get_direction_component(
    move_component: &MoveComponent,
    direction_component: &DirectionComponent,
) -> (d: DirectionComponent)
    ensures
        d == spec_direction(*move_component, *direction_component),
{
    match move_component {
        MoveComponent::Left => DirectionComponent::Left,
        MoveComponent::Right => DirectionComponent::Right,
        _ => *direction_component,
    }
}

/// Whether `tile` is one of the things that hurt while they move, and is
/// moving.
pub open spec fn is_on_the_move(tile: Tile) -> bool {
    match tile {
        Tile::Bug(uc)
        | Tile::Infotron(uc, _)
        | Tile::RedUtilityDisk(uc)
        | Tile::OrangeUtilityDisk(uc, _)
        | Tile::YellowUtilityDisk(uc, _)
        | Tile::Zonk(uc, _) => uc.0 != 0,
        _ => false,
    }
}

/// Whether a plain port of kind `port` lets the player through towards
/// `mc`.
pub open spec fn lets_through(port: PortsType, mc: MoveComponent) -> bool {
    match port {
        PortsType::All => true,
        PortsType::Horizontal => mc == MoveComponent::Left || mc == MoveComponent::Right,
        PortsType::Vertical => mc == MoveComponent::Up || mc == MoveComponent::Down,
        PortsType::Left => mc == MoveComponent::Left,
        PortsType::Right => mc == MoveComponent::Right,
        PortsType::Up => mc == MoveComponent::Up,
        PortsType::Down => mc == MoveComponent::Down,
        _ => false,
    }
}

/// What the player at `src` makes of direction `mc`.
///
/// Base, a bug, an infotron, a red disk and empty space are eaten: the
/// player moves there, or stays and consumes from a distance if the special
/// key is held and there is something to consume. A zonk or a disk is
/// pushed into an empty cell beyond it, a zonk sideways only; a zonk above
/// or below ends the search. A plain port is passed in a direction it
/// accepts, into an empty cell beyond it.
pub open spec fn attempt(
    grid: &Cells,
    src: Pos,
    mc: MoveComponent,
    dc: DirectionComponent,
    special_key: bool,
) -> Attempt {
    let src2 = trans(src, mc.as_tuple());
    let src3 = trans(src2, mc.as_tuple());
    let tile2 = grid.at(src2);
    let side = spec_direction(mc, dc);
    let moved = UpdateComponent(MOVE_CYCLES, 0);
    if is_on_the_move(tile2) {
        Attempt::Stop
    } else {
        match tile2 {
            Tile::Base | Tile::Bug(_) | Tile::Infotron(_, _) | Tile::RedUtilityDisk(_)
            | Tile::Empty => if special_key && tile2 != Tile::Empty {
                Attempt::Act(
                    seq![
                        (src, Tile::Murphy(moved, mc, side, InteractionComponent::Slurping)),
                        (src2, Tile::Transitory(moved, TransitoryComponent::from_tile(&tile2))),
                    ],
                )
            } else {
                Attempt::Act(
                    seq![
                        (src, Tile::transitory_empty()),
                        (
                            src2,
                            Tile::Murphy(
                                moved,
                                mc,
                                side,
                                InteractionComponent::Eating(InteractionTile::from_tile(&tile2)),
                            ),
                        ),
                    ],
                )
            },
            Tile::Zonk(_, _) | Tile::YellowUtilityDisk(_, _) | Tile::OrangeUtilityDisk(_, _) => {
                let pushed = UpdateComponent(MOVE_CYCLES, MOVE_CYCLES);
                if tile2 is Zonk && (mc == MoveComponent::Up || mc == MoveComponent::Down) {
                    Attempt::Stop
                } else if grid.at(src3) == Tile::Empty {
                    Attempt::Act(
                        seq![
                            (src, Tile::Transitory(pushed, TransitoryComponent::Nothing)),
                            (src2, Tile::Murphy(pushed, mc, side, InteractionComponent::Pushing)),
                            (src3, tile2.change_tile(pushed, mc)->0),
                        ],
                    )
                } else {
                    Attempt::Pass
                }
            },
            Tile::Ports(port) => if grid.at(src3) == Tile::Empty && lets_through(port, mc) {
                Attempt::Act(
                    seq![
                        (src, Tile::transitory_empty()),
                        (src3, Tile::Murphy(moved, mc, side, InteractionComponent::Tunneling(port))),
                    ],
                )
            } else {
                Attempt::Pass
            },
            _ => Attempt::Pass,
        }
    }
}

/// The update of a player with nothing to do.
pub open spec fn idle(src: Pos, dc: DirectionComponent) -> Seq<(Pos, Tile)> {
    seq![
        (
            src,
            Tile::Murphy(
                UpdateComponent(0, 0),
                MoveComponent::Stationary,
                dc,
                InteractionComponent::Idle,
            ),
        ),
    ]
}

/// What the player at `src` makes of the directions `mcs`, tried in order.
pub open spec fn attempts(
    grid: &Cells,
    src: Pos,
    mcs: Seq<MoveComponent>,
    dc: DirectionComponent,
    special_key: bool,
) -> Seq<(Pos, Tile)>
    decreases mcs.len(),
{
    if mcs.len() == 0 {
        idle(src, dc)
    } else {
        match attempt(grid, src, mcs[0], dc, special_key) {
            Attempt::Pass => attempts(grid, src, mcs.skip(1), dc, special_key),
            Attempt::Stop => idle(src, dc),
            Attempt::Act(updates) => updates,
        }
    }
}

/// What the player at `src` asks for: nothing while the first count of its
/// clock runs, and otherwise what the first direction gives in which
/// something can be done, or to idle.
pub open spec fn murphy_updates(
    grid: &Cells,
    src: Pos,
    uc: UpdateComponent,
    mcs: Seq<MoveComponent>,
    dc: DirectionComponent,
    special_key: bool,
) -> Option<Seq<(Pos, Tile)>> {
    if uc.0 != 0 {
        None
    } else {
        Some(attempts(grid, src, mcs, dc, special_key))
    }
}

/// Whether the tile is one of the things that hurt while they move, and is
/// moving.
fn on_the_move(tile: &Tile) -> (r: bool)
    ensures
        r == is_on_the_move(*tile),
{
    match tile {
        Tile::Bug(uc) => uc.0 != 0,
        Tile::Infotron(uc, _) => uc.0 != 0,
        Tile::RedUtilityDisk(uc) => uc.0 != 0,
        Tile::OrangeUtilityDisk(uc, _) => uc.0 != 0,
        Tile::YellowUtilityDisk(uc, _) => uc.0 != 0,
        Tile::Zonk(uc, _) => uc.0 != 0,
        _ => false,
    }
}

#[verifier::loop_isolation(false)]
pub fn murphy_system(
    src: (usize, usize),
    grid: &Cells,
    update_component: &UpdateComponent,
    move_component_vec: &[MoveComponent],
    direction_component: &DirectionComponent,
    special_key: bool,
) -> (r: Option<Vec<((usize, usize), Tile)>>)
    ensures
        r is Some == (update_component.0 == 0),
        r matches Some(v) ==> Some(v@) == murphy_updates(
            grid,
            src,
            *update_component,
            move_component_vec@,
            *direction_component,
            special_key,
        ),
{
    if update_component.0 != 0 {
        return None;
    }
    let mut updates: Vec<((usize, usize), Tile)> = Vec::new();
    let ghost mcs = move_component_vec@;
    let ghost dc = *direction_component;
    let ghost goal = attempts(grid, src, mcs, dc, special_key);
    proof {
        assert(mcs.skip(0) =~= mcs);
    }
    let mut i: usize = 0;
    let mut done = false;
    while i < move_component_vec.len() && !done
        invariant
            0 <= i <= mcs.len(),
            !done ==> updates@.len() == 0 && goal == attempts(
                grid,
                src,
                mcs.skip(i as int),
                dc,
                special_key,
            ),
            done ==> goal == if updates@.len() == 0 {
                idle(src, dc)
            } else {
                updates@
            },
        decreases mcs.len() - i, (if done { 0int } else { 1int }),
    {
        let move_component = &move_component_vec[i];
        let src2 = trans(src, move_component.as_tuple());
        let tile2 = grid.get_tuple(src2);
        let side = get_direction_component(move_component, direction_component);
        proof {
            assert(mcs.skip(i as int)[0] == *move_component);
            assert(mcs.skip(i as int).skip(1) =~= mcs.skip(i + 1));
        }
        if on_the_move(&tile2) {
            done = true;
        } else {
            match tile2 {
                Tile::Base
                | Tile::Bug(_)
                | Tile::Infotron(_, _)
                | Tile::RedUtilityDisk(_)
                | Tile::Empty => {
                    if special_key && !matches!(tile2, Tile::Empty) {
                        let murphy_tile = Tile::Murphy(
                            UpdateComponent(16, 0),
                            *move_component,
                            side,
                            InteractionComponent::Slurping,
                        );
                        updates.push((src, murphy_tile));
                        updates.push(
                            (
                                src2,
                                Tile::Transitory(
                                    UpdateComponent(16, 0),
                                    TransitoryComponent::from_tile(&tile2),
                                ),
                            ),
                        );
                    } else {
                        let murphy_tile = Tile::Murphy(
                            UpdateComponent(16, 0),
                            *move_component,
                            side,
                            InteractionComponent::Eating(InteractionTile::from_tile(&tile2)),
                        );
                        updates.push((src, Tile::transitory_empty()));
                        updates.push((src2, murphy_tile));
                    }
                    done = true;
                },
                Tile::Zonk(_, _) | Tile::YellowUtilityDisk(_, _) | Tile::OrangeUtilityDisk(_, _) => {
                    if matches!(tile2, Tile::Zonk(_, _)) && (matches!(
                        move_component,
                        MoveComponent::Up
                    ) || matches!(move_component, MoveComponent::Down)) {
                        done = true;
                    } else {
                        let src3 = trans(src2, move_component.as_tuple());
                        let tile3 = grid.get_tuple(src3);
                        if matches!(tile3, Tile::Empty) {
                            if let Some(new_tile3) = tile2.change_tile(
                                UpdateComponent(16, 16),
                                *move_component,
                            ) {
                                let murphy_tile = Tile::Murphy(
                                    UpdateComponent(16, 16),
                                    *move_component,
                                    side,
                                    InteractionComponent::Pushing,
                                );
                                updates.push(
                                    (
                                        src,
                                        Tile::Transitory(
                                            UpdateComponent(16, 16),
                                            TransitoryComponent::Nothing,
                                        ),
                                    ),
                                );
                                updates.push((src2, murphy_tile));
                                updates.push((src3, new_tile3));
                                done = true;
                            }
                        }
                    }
                },
                Tile::Ports(port_type) => {
                    let src3 = trans(src2, move_component.as_tuple());
                    if matches!(grid.get_tuple(src3), Tile::Empty) {
                        let murphy_tile = Tile::Murphy(
                            UpdateComponent(16, 0),
                            *move_component,
                            side,
                            InteractionComponent::Tunneling(port_type),
                        );
                        match (port_type, move_component) {
                            (PortsType::All, _)
                            | (PortsType::Horizontal, MoveComponent::Left)
                            | (PortsType::Horizontal, MoveComponent::Right)
                            | (PortsType::Vertical, MoveComponent::Up)
                            | (PortsType::Vertical, MoveComponent::Down)
                            | (PortsType::Left, MoveComponent::Left)
                            | (PortsType::Right, MoveComponent::Right)
                            | (PortsType::Up, MoveComponent::Up)
                            | (PortsType::Down, MoveComponent::Down) => {
                                updates.push((src, Tile::transitory_empty()));
                                updates.push((src3, murphy_tile));
                                done = true;
                            },
                            _ => {},
                        }
                    }
                },
                _ => {},
            }
        }
        proof {
            if done {
                match attempt(grid, src, *move_component, dc, special_key) {
                    Attempt::Act(expected) => {
                        assert(updates@ =~= expected);
                    },
                    _ => {},
                }
            }
        }
        if !done {
            i += 1;
        }
    }
    if updates.len() == 0 {
        let murphy_tile = Tile::Murphy(
            UpdateComponent(0, 0),
            MoveComponent::Stationary,
            *direction_component,
            InteractionComponent::Idle,
        );
        updates.push((src, murphy_tile));
        proof {
            assert(updates@ =~= idle(src, dc));
        }
    }
    Some(updates)
}

} // verus!
