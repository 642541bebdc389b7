//! The tick-counting model of a cell: each category carries the components
//! it needs, and clocks count update cycles. A move takes sixteen cycles.

use vstd::prelude::*;
use crate::cells::{Cells, Pos};
use crate::level::components::direction_component::DirectionComponent;
use crate::level::components::interaction_component::InteractionComponent;
use crate::level::components::move_component::MoveComponent;
use crate::level::components::transitory_component::TransitoryComponent;
use crate::level::components::update_component::UpdateComponent;
use crate::level::systems::ai_system::{ai_system, ai_updates};
use crate::level::systems::gravity_system::{gravity_system, gravity_updates};
use crate::level::systems::murphy_system::{murphy_system, murphy_updates};
use crate::level::systems::simple_gravity_system::{
    simple_gravity_system, simple_gravity_updates,
};
use crate::level::systems::transitory_system::{transitory_system, transitory_updates};

verus! {

#[derive(Clone, Copy, Debug, PartialEq, Eq, Structural)]
pub enum PortsType {
    All,
    Horizontal,
    Vertical,
    Left,
    Right,
    Up,
    Down,
    AllBlue,
    HorizontalBlue,
    VerticalBlue,
    LeftBlue,
    RightBlue,
    UpBlue,
    DownBlue,
}

impl PortsType {
    /// The port's column on the sprite sheet: the plain ports first, then
    /// the blue ones in the same order.
    pub open spec fn spec_as_u8(&self) -> u8 {
        match self {
            Self::All => 0,
            Self::Horizontal => 1,
            Self::Vertical => 2,
            Self::Left => 3,
            Self::Right => 4,
            Self::Up => 5,
            Self::Down => 6,
            Self::AllBlue => 7,
            Self::HorizontalBlue => 8,
            Self::VerticalBlue => 9,
            Self::LeftBlue => 10,
            Self::RightBlue => 11,
            Self::UpBlue => 12,
            Self::DownBlue => 13,
        }
    }

    #[verifier::when_used_as_spec(spec_as_u8)]
    pub fn as_u8(&self) -> (n: u8)
        ensures
            n == self.spec_as_u8(),
            n < 14,
    {
        match self {
            Self::All => 0,
            Self::Horizontal => 1,
            Self::Vertical => 2,
            Self::Left => 3,
            Self::Right => 4,
            Self::Up => 5,
            Self::Down => 6,
            Self::AllBlue => 7,
            Self::HorizontalBlue => 8,
            Self::VerticalBlue => 9,
            Self::LeftBlue => 10,
            Self::RightBlue => 11,
            Self::UpBlue => 12,
            Self::DownBlue => 13,
        }
    }
}

#[derive(Clone, Copy, Debug, PartialEq, Eq, Structural)]
pub enum RAMChipsType {
    Base,
    Left,
    Right,
    Up,
    Down,
}

#[derive(Clone, Copy, Debug, PartialEq, Eq, Structural)]
pub enum HardwareType {
    Wall,
    RedLight,
    GreenLight,
    BlueLight,
    YellowBlack,
    ResistorsYellow,
    ResistorsRed,
    ResistorsColored,
    ResistorsSpecial1,
    ResistorsSpecial2,
    Capacitor,
}

#[derive(Clone, Copy, Debug, PartialEq, Eq, Structural)]
pub enum Tile {
    Base,
    Bug(UpdateComponent),
    Transitory(UpdateComponent, TransitoryComponent),
    Electron(UpdateComponent, MoveComponent),
    Empty,
    Exit,
    Hardware(HardwareType),
    Infotron(UpdateComponent, MoveComponent),
    Murphy(UpdateComponent, MoveComponent, DirectionComponent, InteractionComponent),
    Void,
    Ports(PortsType),
    RAMChips(RAMChipsType),
    SnikSnak(UpdateComponent, MoveComponent, MoveComponent),
    Terminal(UpdateComponent),
    RedUtilityDisk(UpdateComponent),
    OrangeUtilityDisk(UpdateComponent, MoveComponent),
    YellowUtilityDisk(UpdateComponent, MoveComponent),
    Zonk(UpdateComponent, MoveComponent),
}

/// Update cycles in a move by one cell.
pub const MOVE_CYCLES: u8 = 16;

impl Tile {
    /// The clock of the tile, if its category has one.
    pub open spec fn clock(&self) -> Option<UpdateComponent> {
        match self {
            Tile::Bug(uc)
            | Tile::Electron(uc, _)
            | Tile::Infotron(uc, _)
            | Tile::Murphy(uc, _, _, _)
            | Tile::SnikSnak(uc, _, _)
            | Tile::Terminal(uc)
            | Tile::Transitory(uc, _)
            | Tile::RedUtilityDisk(uc)
            | Tile::OrangeUtilityDisk(uc, _)
            | Tile::YellowUtilityDisk(uc, _)
            | Tile::Zonk(uc, _) => Some(*uc),
            _ => None,
        }
    }

    /// This tile with its clock set to `uc`; a tile without a clock stays
    /// as it is.
    pub open spec fn with_clock(&self, uc: UpdateComponent) -> Tile {
        match self {
            Tile::Bug(_) => Tile::Bug(uc),
            Tile::Electron(_, mc) => Tile::Electron(uc, *mc),
            Tile::Infotron(_, mc) => Tile::Infotron(uc, *mc),
            Tile::Murphy(_, mc, dc, ic) => Tile::Murphy(uc, *mc, *dc, *ic),
            Tile::SnikSnak(_, mc, pre) => Tile::SnikSnak(uc, *mc, *pre),
            Tile::Terminal(_) => Tile::Terminal(uc),
            Tile::Transitory(_, tc) => Tile::Transitory(uc, *tc),
            Tile::RedUtilityDisk(_) => Tile::RedUtilityDisk(uc),
            Tile::OrangeUtilityDisk(_, mc) => Tile::OrangeUtilityDisk(uc, *mc),
            Tile::YellowUtilityDisk(_, mc) => Tile::YellowUtilityDisk(uc, *mc),
            Tile::Zonk(_, mc) => Tile::Zonk(uc, *mc),
            _ => *self,
        }
    }

    /// A tile of the same category with clock `uc` and direction `mc`, for
    /// the categories that are made of just these two; nothing for any
    /// other.
    pub open spec fn spec_change_tile(&self, uc: UpdateComponent, mc: MoveComponent) -> Option<
        Tile,
    > {
        match self {
            Self::Electron(_, _) => Some(Self::Electron(uc, mc)),
            Self::Infotron(_, _) => Some(Self::Infotron(uc, mc)),
            Self::OrangeUtilityDisk(_, _) => Some(Self::OrangeUtilityDisk(uc, mc)),
            Self::YellowUtilityDisk(_, _) => Some(Self::YellowUtilityDisk(uc, mc)),
            Self::Zonk(_, _) => Some(Self::Zonk(uc, mc)),
            _ => None,
        }
    }

    #[verifier::when_used_as_spec(spec_change_tile)]
    pub fn change_tile(&self, uc: UpdateComponent, mc: MoveComponent) -> (t: Option<Tile>)
        ensures
            t == self.spec_change_tile(uc, mc),
            t is Some <==> (*self is Electron || *self is Infotron || *self is OrangeUtilityDisk
                || *self is YellowUtilityDisk || *self is Zonk),
    {
        match self {
            Self::Electron(_, _) => Some(Self::Electron(uc, mc)),
            Self::Infotron(_, _) => Some(Self::Infotron(uc, mc)),
            Self::OrangeUtilityDisk(_, _) => Some(Self::OrangeUtilityDisk(uc, mc)),
            Self::YellowUtilityDisk(_, _) => Some(Self::YellowUtilityDisk(uc, mc)),
            Self::Zonk(_, _) => Some(Self::Zonk(uc, mc)),
            _ => None,
        }
    }

    /// The tile that the code `i` stands for, at rest and with its clock
    /// run out. Codes without a meaning of their own stand for base.
    pub open spec fn spec_from_u8(i: u8) -> Self {
        match i {
            1 => Tile::Bug(UpdateComponent(0, 0)),
            2 => Tile::Electron(UpdateComponent(0, 0), MoveComponent::Stationary),
            3 => Tile::Empty,
            4 => Tile::Exit,
            5 => Tile::Hardware(HardwareType::Wall),
            6 => Tile::Hardware(HardwareType::RedLight),
            7 => Tile::Hardware(HardwareType::GreenLight),
            8 => Tile::Hardware(HardwareType::BlueLight),
            9 => Tile::Hardware(HardwareType::YellowBlack),
            10 => Tile::Hardware(HardwareType::ResistorsYellow),
            11 => Tile::Hardware(HardwareType::ResistorsRed),
            12 => Tile::Hardware(HardwareType::ResistorsColored),
            13 => Tile::Hardware(HardwareType::ResistorsSpecial1),
            14 => Tile::Hardware(HardwareType::ResistorsSpecial2),
            15 => Tile::Hardware(HardwareType::Capacitor),
            16 => Tile::Infotron(UpdateComponent(0, 0), MoveComponent::Stationary),
            17 => Tile::Murphy(
                UpdateComponent(0, 0),
                MoveComponent::Stationary,
                DirectionComponent::Left,
                InteractionComponent::Idle,
            ),
            18 => Tile::Ports(PortsType::All),
            19 => Tile::Ports(PortsType::Horizontal),
            20 => Tile::Ports(PortsType::Vertical),
            21 => Tile::Ports(PortsType::Left),
            22 => Tile::Ports(PortsType::Right),
            23 => Tile::Ports(PortsType::Up),
            24 => Tile::Ports(PortsType::Down),
            25 => Tile::Ports(PortsType::AllBlue),
            26 => Tile::Ports(PortsType::HorizontalBlue),
            27 => Tile::Ports(PortsType::VerticalBlue),
            28 => Tile::Ports(PortsType::LeftBlue),
            29 => Tile::Ports(PortsType::RightBlue),
            30 => Tile::Ports(PortsType::UpBlue),
            31 => Tile::Ports(PortsType::DownBlue),
            32 => Tile::RAMChips(RAMChipsType::Base),
            33 => Tile::RAMChips(RAMChipsType::Left),
            34 => Tile::RAMChips(RAMChipsType::Right),
            35 => Tile::RAMChips(RAMChipsType::Up),
            36 => Tile::RAMChips(RAMChipsType::Down),
            37 => Tile::SnikSnak(UpdateComponent(0, 0), MoveComponent::Left, MoveComponent::Stationary),
            38 => Tile::Terminal(UpdateComponent(0, 0)),
            39 => Tile::RedUtilityDisk(UpdateComponent(0, 0)),
            40 => Tile::OrangeUtilityDisk(UpdateComponent(0, 0), MoveComponent::Stationary),
            41 => Tile::YellowUtilityDisk(UpdateComponent(0, 0), MoveComponent::Stationary),
            42 => Tile::Zonk(UpdateComponent(0, 0), MoveComponent::Stationary),
            _ => Tile::Base,
        }
    }

    #[verifier::when_used_as_spec(spec_from_u8)]
    pub fn from_u8(i: u8) -> (t: Self)
        ensures
            t == Self::spec_from_u8(i),
    {
        match i {
            1 => Tile::Bug(UpdateComponent(0, 0)),
            2 => Tile::Electron(UpdateComponent(0, 0), MoveComponent::Stationary),
            3 => Tile::Empty,
            4 => Tile::Exit,
            5 => Tile::Hardware(HardwareType::Wall),
            6 => Tile::Hardware(HardwareType::RedLight),
            7 => Tile::Hardware(HardwareType::GreenLight),
            8 => Tile::Hardware(HardwareType::BlueLight),
            9 => Tile::Hardware(HardwareType::YellowBlack),
            10 => Tile::Hardware(HardwareType::ResistorsYellow),
            11 => Tile::Hardware(HardwareType::ResistorsRed),
            12 => Tile::Hardware(HardwareType::ResistorsColored),
            13 => Tile::Hardware(HardwareType::ResistorsSpecial1),
            14 => Tile::Hardware(HardwareType::ResistorsSpecial2),
            15 => Tile::Hardware(HardwareType::Capacitor),
            16 => Tile::Infotron(UpdateComponent(0, 0), MoveComponent::Stationary),
            17 => Tile::Murphy(
                UpdateComponent(0, 0),
                MoveComponent::Stationary,
                DirectionComponent::Left,
                InteractionComponent::Idle,
            ),
            18 => Tile::Ports(PortsType::All),
            19 => Tile::Ports(PortsType::Horizontal),
            20 => Tile::Ports(PortsType::Vertical),
            21 => Tile::Ports(PortsType::Left),
            22 => Tile::Ports(PortsType::Right),
            23 => Tile::Ports(PortsType::Up),
            24 => Tile::Ports(PortsType::Down),
            25 => Tile::Ports(PortsType::AllBlue),
            26 => Tile::Ports(PortsType::HorizontalBlue),
            27 => Tile::Ports(PortsType::VerticalBlue),
            28 => Tile::Ports(PortsType::LeftBlue),
            29 => Tile::Ports(PortsType::RightBlue),
            30 => Tile::Ports(PortsType::UpBlue),
            31 => Tile::Ports(PortsType::DownBlue),
            32 => Tile::RAMChips(RAMChipsType::Base),
            33 => Tile::RAMChips(RAMChipsType::Left),
            34 => Tile::RAMChips(RAMChipsType::Right),
            35 => Tile::RAMChips(RAMChipsType::Up),
            36 => Tile::RAMChips(RAMChipsType::Down),
            37 => Tile::SnikSnak(UpdateComponent(0, 0), MoveComponent::Left, MoveComponent::Stationary),
            38 => Tile::Terminal(UpdateComponent(0, 0)),
            39 => Tile::RedUtilityDisk(UpdateComponent(0, 0)),
            40 => Tile::OrangeUtilityDisk(UpdateComponent(0, 0), MoveComponent::Stationary),
            41 => Tile::YellowUtilityDisk(UpdateComponent(0, 0), MoveComponent::Stationary),
            42 => Tile::Zonk(UpdateComponent(0, 0), MoveComponent::Stationary),
            _ => Tile::Base,
        }
    }

    /// The placeholder that a tile leaves behind when it moves away: it
    /// lasts as long as the move.
    pub open spec fn spec_transitory_empty() -> Self {
        Self::Transitory(UpdateComponent(MOVE_CYCLES, 0), TransitoryComponent::Nothing)
    }

    #[verifier::when_used_as_spec(spec_transitory_empty)]
    pub fn transitory_empty() -> (t: Self)
        ensures
            t == Self::spec_transitory_empty(),
    {
        Self::Transitory(UpdateComponent(16, 0), TransitoryComponent::Nothing)
    }

    /// Lets one update cycle pass for the tile.
    pub fn update_mut(&mut self)
        ensures
            *final(self) == match old(self).clock() {
                Some(uc) => old(self).with_clock(uc.next()),
                None => *old(self),
            },
    {
        match self {
            Tile::Bug(update_component) => update_component.next_cycle(),
            Tile::Electron(update_component, _) => update_component.next_cycle(),
            Tile::Infotron(update_component, _) => update_component.next_cycle(),
            Tile::Murphy(update_component, _, _, _) => update_component.next_cycle(),
            Tile::SnikSnak(update_component, _, _) => update_component.next_cycle(),
            Tile::Terminal(update_component) => update_component.next_cycle(),
            Tile::Transitory(update_component, _) => update_component.next_cycle(),
            Tile::RedUtilityDisk(update_component) => update_component.next_cycle(),
            Tile::OrangeUtilityDisk(update_component, _) => update_component.next_cycle(),
            Tile::YellowUtilityDisk(update_component, _) => update_component.next_cycle(),
            Tile::Zonk(update_component, _) => update_component.next_cycle(),
            _ => {},
        }
    }
}

/// What the tile `tile` at `src` asks for in one update cycle: what the
/// system says that owns its category, and nothing for a category that no
/// system owns.
pub open spec fn tile_updates(
    tile: Tile,
    src: Pos,
    grid: &Cells,
    mcs: Seq<MoveComponent>,
    special_key: bool,
) -> Option<Seq<(Pos, Tile)>> {
    match tile {
        Tile::Transitory(uc, _) => transitory_updates(src, uc),
        Tile::Infotron(uc, mc) | Tile::Zonk(uc, mc) => gravity_updates(grid, src, uc, mc),
        Tile::Murphy(uc, _, dc, _) => murphy_updates(grid, src, uc, mcs, dc, special_key),
        Tile::SnikSnak(uc, mc, _) => ai_updates(grid, src, uc, mc),
        Tile::OrangeUtilityDisk(uc, mc) => simple_gravity_updates(grid, src, uc, mc),
        _ => None,
    }
}

impl Tile {
    /// Lets the system act that owns the category of the tile.
    pub fn update(
        &self,
        src: (usize, usize),
        grid: &Cells,
        move_component_vec: &[MoveComponent],
        special_key: bool,
    ) -> (r: Option<Vec<((usize, usize), Tile)>>)
        ensures
            r is Some == tile_updates(*self, src, grid, move_component_vec@, special_key) is Some,
            r matches Some(v) ==> Some(v@) == tile_updates(
                *self,
                src,
                grid,
                move_component_vec@,
                special_key,
            ),
    {
        match self {
            Tile::Transitory(update_component, _) => transitory_system(src, update_component),
            Tile::Electron(_, _) => None,
            Tile::Infotron(update_component, move_component) => {
                gravity_system(src, grid, update_component, move_component)
            },
            Tile::Murphy(update_component, _, direction_component, _) => murphy_system(
                src,
                grid,
                update_component,
                move_component_vec,
                direction_component,
                special_key,
            ),
            Tile::SnikSnak(uc, mc, mc_pre) => ai_system(src, grid, uc, mc, mc_pre),
            Tile::OrangeUtilityDisk(update_component, move_component) => {
                simple_gravity_system(src, grid, update_component, move_component)
            },
            Tile::Zonk(update_component, move_component) => {
                gravity_system(src, grid, update_component, move_component)
            },
            _ => None,
        }
    }
}

/// The frame of the rolling animation of a zonk or an infotron that has
/// `update_component.0` cycles of its move left: eight frames over the
/// sixteen cycles, run through forwards when rolling right and backwards
/// when rolling left. A tile that does not roll shows frame 0.
pub open spec fn zonk_infotron_pos(uc: UpdateComponent, mc: MoveComponent) -> u8 {
    if 2 <= uc.0 <= 15 {
        if mc == MoveComponent::Left {
            (uc.0 / 2) as u8
        } else if mc == MoveComponent::Right {
            (8 - uc.0 / 2) as u8
        } else {
            0
        }
    } else {
        0
    }
}

pub fn get_zonk_infotron_pos(update_component: &UpdateComponent, move_component: &MoveComponent) -> (x:
    u8)
    ensures
        x == zonk_infotron_pos(*update_component, *move_component),
        x <= 7,
{
    match move_component {
        MoveComponent::Left => match update_component.0 {
            15 | 14 => 7,
            13 | 12 => 6,
            11 | 10 => 5,
            9 | 8 => 4,
            7 | 6 => 3,
            5 | 4 => 2,
            3 | 2 => 1,
            _ => 0,
        },
        MoveComponent::Right => match update_component.0 {
            15 | 14 => 1,
            13 | 12 => 2,
            11 | 10 => 3,
            9 | 8 => 4,
            7 | 6 => 5,
            5 | 4 => 6,
            3 | 2 => 7,
            _ => 0,
        },
        _ => 0,
    }
}

} // verus!
