//! The plainest model of a cell: a category, and a direction if the thing
//! is on the move.

use vstd::prelude::*;

verus! {

/// Whether and where a thing is moving.
#[derive(Clone, Copy, Debug, PartialEq, Eq, Structural)]
pub enum Moveable {
    Stationary,
    Up,
    Down,
    Left,
    Right,
}

#[derive(Clone, Copy, Debug, PartialEq, Eq, Structural)]
pub enum PortsType {
    All,
    Horizontal,
    Vertical,
    Left,
    Right,
    Up,
    Down,
}

#[derive(Clone, Copy, Debug, PartialEq, Eq, Structural)]
pub enum UtilityDisksType {
    Red,
    Orange,
    Yellow,
}

#[derive(Clone, Copy, Debug, PartialEq, Eq, Structural)]
pub enum RAMChipsType {
    Base,
    Left,
    Right,
    Up,
    Down,
}

#[derive(Clone, Copy, Debug, PartialEq, Eq, Structural)]
pub enum HardwareType {
    Wall,
    RedLight,
    GreenLight,
    BlueLight,
    YellowBlack,
    ResistorsYellow,
    ResistorsRed,
    ResistorsColored,
    ResistorsSpecial1,
    ResistorsSpecial2,
    Capacitor,
}

#[derive(Clone, Copy, Debug, PartialEq, Eq, Structural)]
pub enum Tile {
    Base,
    Bug,
    Electron,
    Empty,
    Exit,
    Hardware(HardwareType),
    Infotron,
    Murphy,
    Void,
    Ports(PortsType),
    RAMChips(RAMChipsType),
    SnikSnak,
    Terminal,
    UtilityDisks(UtilityDisksType),
    Zonk,
}

impl Tile {
    /// The tile that the code `i` stands for. Codes without a meaning of
    /// their own stand for base.
    pub open spec fn spec_from_u8(i: u8) -> Self {
        match i {
            1 => Tile::Bug,
            2 => Tile::Electron,
            3 => Tile::Empty,
            4 => Tile::Exit,
            5 => Tile::Hardware(HardwareType::Wall),
            6 => Tile::Infotron,
            7 => Tile::Murphy,
            8 => Tile::Ports(PortsType::All),
            9 => Tile::RAMChips(RAMChipsType::Base),
            10 => Tile::SnikSnak,
            11 => Tile::Terminal,
            12 => Tile::UtilityDisks(UtilityDisksType::Red),
            13 => Tile::Zonk,
            _ => Tile::Base,
        }
    }

    #[verifier::when_used_as_spec(spec_from_u8)]
    pub fn from_u8(i: u8) -> (t: Self)
        ensures
            t == Self::spec_from_u8(i),
    {
        match i {
            1 => Tile::Bug,
            2 => Tile::Electron,
            3 => Tile::Empty,
            4 => Tile::Exit,
            5 => Tile::Hardware(HardwareType::Wall),
            6 => Tile::Infotron,
            7 => Tile::Murphy,
            8 => Tile::Ports(PortsType::All),
            9 => Tile::RAMChips(RAMChipsType::Base),
            10 => Tile::SnikSnak,
            11 => Tile::Terminal,
            12 => Tile::UtilityDisks(UtilityDisksType::Red),
            13 => Tile::Zonk,
            _ => Tile::Base,
        }
    }
}

} // verus!
