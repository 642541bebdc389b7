//! Tile categories, the level-file code of each, and the tile each starts as.

use vstd::prelude::*;
use crate::grid::Coord;
use super::tile::Tile;
use super::tile_interaction::TileInteraction;
use super::tile_move::TileMove;
use super::tile_state::TileState;

verus! {

/// The kind of thing that occupies a cell.
///
/// `Transitory`, `Explosion` and `Explosion2` are produced by the simulation
/// only; no level-file code maps to them.
#[derive(Clone, Copy, PartialEq, Eq, Structural, Debug)]
pub enum TileType {
    Base,
    Bug,
    Electron,
    Empty,
    Exit,
    HardwareBlueLight,
    HardwareCapacitor,
    HardwareGreenLight,
    HardwareRedLight,
    HardwareResistorsColored,
    HardwareResistorsRed,
    HardwareResistorsSpecial1,
    HardwareResistorsSpecial2,
    HardwareResistorsYellow,
    HardwareWall,
    HardwareYellowBlack,
    Infotron,
    Murphy,
    Void,
    OrangeUtilityDisk,
    PortsAll,
    PortsAllBlue,
    PortsDown,
    PortsDownBlue,
    PortsHorizontal,
    PortsHorizontalBlue,
    PortsLeft,
    PortsLeftBlue,
    PortsRight,
    PortsRightBlue,
    PortsUp,
    PortsUpBlue,
    PortsVertical,
    PortsVerticalBlue,
    RAMChipsBase,
    RAMChipsDown,
    RAMChipsLeft,
    RAMChipsRight,
    RAMChipsUp,
    RedUtilityDisk,
    SnikSnak,
    Terminal,
    Transitory,
    YellowUtilityDisk,
    Zonk,
    Explosion,
    Explosion2,
}

impl Default for TileType {
    fn default() -> (t: Self)
        ensures
            t == TileType::Void,
    {
        TileType::Void
    }
}

impl TileType {
    /// Position of the category's resting sprite on the sprite sheet, in
    /// sprites: column `x`, row `y`.
    pub open spec fn spec_def_tex_pos(&self) -> Coord {
        match self {
            TileType::Base => Coord { x: 0, y: 0 },
            TileType::Bug => Coord { x: 8, y: 0 },
            TileType::Transitory => Coord { x: 0, y: 20 },
            TileType::Electron => Coord { x: 0, y: 1 },
            TileType::Empty => Coord { x: 1, y: 2 },
            TileType::Exit => Coord { x: 0, y: 2 },
            TileType::HardwareWall => Coord { x: 0, y: 3 },
            TileType::HardwareRedLight => Coord { x: 1, y: 3 },
            TileType::HardwareGreenLight => Coord { x: 2, y: 3 },
            TileType::HardwareBlueLight => Coord { x: 3, y: 3 },
            TileType::HardwareYellowBlack => Coord { x: 4, y: 3 },
            TileType::HardwareResistorsYellow => Coord { x: 5, y: 3 },
            TileType::HardwareResistorsRed => Coord { x: 6, y: 3 },
            TileType::HardwareResistorsColored => Coord { x: 7, y: 3 },
            TileType::HardwareResistorsSpecial1 => Coord { x: 8, y: 3 },
            TileType::HardwareResistorsSpecial2 => Coord { x: 9, y: 3 },
            TileType::HardwareCapacitor => Coord { x: 10, y: 3 },
            TileType::Infotron => Coord { x: 0, y: 4 },
            TileType::Murphy => Coord { x: 0, y: 7 },
            TileType::Void => Coord { x: 0, y: 20 },
            TileType::PortsAll => Coord { x: 0, y: 10 },
            TileType::PortsHorizontal => Coord { x: 1, y: 10 },
            TileType::PortsVertical => Coord { x: 2, y: 10 },
            TileType::PortsLeft => Coord { x: 3, y: 10 },
            TileType::PortsRight => Coord { x: 4, y: 10 },
            TileType::PortsUp => Coord { x: 5, y: 10 },
            TileType::PortsDown => Coord { x: 6, y: 10 },
            TileType::PortsAllBlue => Coord { x: 7, y: 10 },
            TileType::PortsHorizontalBlue => Coord { x: 8, y: 10 },
            TileType::PortsVerticalBlue => Coord { x: 9, y: 10 },
            TileType::PortsLeftBlue => Coord { x: 10, y: 10 },
            TileType::PortsRightBlue => Coord { x: 11, y: 10 },
            TileType::PortsUpBlue => Coord { x: 12, y: 10 },
            TileType::PortsDownBlue => Coord { x: 13, y: 10 },
            TileType::RAMChipsBase => Coord { x: 0, y: 11 },
            TileType::RAMChipsLeft => Coord { x: 1, y: 11 },
            TileType::RAMChipsRight => Coord { x: 2, y: 11 },
            TileType::RAMChipsUp => Coord { x: 3, y: 11 },
            TileType::RAMChipsDown => Coord { x: 4, y: 11 },
            TileType::SnikSnak => Coord { x: 4, y: 12 },
            TileType::Terminal => Coord { x: 0, y: 13 },
            TileType::RedUtilityDisk => Coord { x: 0, y: 14 },
            TileType::OrangeUtilityDisk => Coord { x: 0, y: 15 },
            TileType::YellowUtilityDisk => Coord { x: 0, y: 16 },
            TileType::Zonk => Coord { x: 0, y: 17 },
            TileType::Explosion | TileType::Explosion2 => Coord { x: 0, y: 18 },
        }
    }

    #[verifier::when_used_as_spec(spec_def_tex_pos)]
    pub fn def_tex_pos(&self) -> (c: Coord)
        ensures
            c == self.spec_def_tex_pos(),
    {
        match self {
            TileType::Base => Coord::new(0, 0),
            TileType::Bug => Coord::new(8, 0),
            TileType::Transitory => Coord::new(0, 20),
            TileType::Electron => Coord::new(0, 1),
            TileType::Empty => Coord::new(1, 2),
            TileType::Exit => Coord::new(0, 2),
            TileType::HardwareWall => Coord::new(0, 3),
            TileType::HardwareRedLight => Coord::new(1, 3),
            TileType::HardwareGreenLight => Coord::new(2, 3),
            TileType::HardwareBlueLight => Coord::new(3, 3),
            TileType::HardwareYellowBlack => Coord::new(4, 3),
            TileType::HardwareResistorsYellow => Coord::new(5, 3),
            TileType::HardwareResistorsRed => Coord::new(6, 3),
            TileType::HardwareResistorsColored => Coord::new(7, 3),
            TileType::HardwareResistorsSpecial1 => Coord::new(8, 3),
            TileType::HardwareResistorsSpecial2 => Coord::new(9, 3),
            TileType::HardwareCapacitor => Coord::new(10, 3),
            TileType::Infotron => Coord::new(0, 4),
            TileType::Murphy => Coord::new(0, 7),
            TileType::Void => Coord::new(0, 20),
            TileType::PortsAll => Coord::new(0, 10),
            TileType::PortsHorizontal => Coord::new(1, 10),
            TileType::PortsVertical => Coord::new(2, 10),
            TileType::PortsLeft => Coord::new(3, 10),
            TileType::PortsRight => Coord::new(4, 10),
            TileType::PortsUp => Coord::new(5, 10),
            TileType::PortsDown => Coord::new(6, 10),
            TileType::PortsAllBlue => Coord::new(7, 10),
            TileType::PortsHorizontalBlue => Coord::new(8, 10),
            TileType::PortsVerticalBlue => Coord::new(9, 10),
            TileType::PortsLeftBlue => Coord::new(10, 10),
            TileType::PortsRightBlue => Coord::new(11, 10),
            TileType::PortsUpBlue => Coord::new(12, 10),
            TileType::PortsDownBlue => Coord::new(13, 10),
            TileType::RAMChipsBase => Coord::new(0, 11),
            TileType::RAMChipsLeft => Coord::new(1, 11),
            TileType::RAMChipsRight => Coord::new(2, 11),
            TileType::RAMChipsUp => Coord::new(3, 11),
            TileType::RAMChipsDown => Coord::new(4, 11),
            TileType::SnikSnak => Coord::new(4, 12),
            TileType::Terminal => Coord::new(0, 13),
            TileType::RedUtilityDisk => Coord::new(0, 14),
            TileType::OrangeUtilityDisk => Coord::new(0, 15),
            TileType::YellowUtilityDisk => Coord::new(0, 16),
            TileType::Zonk => Coord::new(0, 17),
            TileType::Explosion | TileType::Explosion2 => Coord::new(0, 18),
        }
    }

    /// The category that the level-file code `i` stands for. Codes without a
    /// meaning of their own, 0 among them, stand for empty space.
    pub open spec fn spec_from_u8(i: u8) -> Self {
        match i {
            1 => TileType::Zonk,
            2 => TileType::Base,
            3 => TileType::Murphy,
            4 => TileType::Infotron,
            5 => TileType::RAMChipsBase,
            6 => TileType::HardwareWall,
            7 => TileType::Exit,
            8 => TileType::OrangeUtilityDisk,
            9 => TileType::PortsRight,
            10 => TileType::PortsDown,
            11 => TileType::PortsLeft,
            12 => TileType::PortsUp,
            13 => TileType::Terminal,
            14 => TileType::RedUtilityDisk,
            15 => TileType::HardwareCapacitor,
            16 => TileType::Infotron,
            17 => TileType::SnikSnak,
            18 => TileType::YellowUtilityDisk,
            19 => TileType::Terminal,
            20 => TileType::RedUtilityDisk,
            21 => TileType::PortsVertical,
            22 => TileType::PortsHorizontal,
            23 => TileType::PortsAll,
            24 => TileType::Electron,
            25 => TileType::Bug,
            26 => TileType::RAMChipsLeft,
            27 => TileType::RAMChipsRight,
            28 => TileType::HardwareResistorsSpecial2,
            29 => TileType::HardwareGreenLight,
            30 => TileType::HardwareBlueLight,
            31 => TileType::HardwareRedLight,
            32 => TileType::HardwareYellowBlack,
            33 => TileType::HardwareResistorsSpecial1,
            34 => TileType::HardwareCapacitor,
            35 => TileType::HardwareResistorsColored,
            36 => TileType::HardwareResistorsRed,
            37 => TileType::HardwareResistorsYellow,
            38 => TileType::RAMChipsUp,
            39 => TileType::RAMChipsDown,
            40 => TileType::Void,
            _ => TileType::Empty,
        }
    }

    #[verifier::when_used_as_spec(spec_from_u8)]
    pub fn from_u8(i: u8) -> (t: Self)
        ensures
            t == Self::spec_from_u8(i),
            t != TileType::Transitory && t != TileType::Explosion && t != TileType::Explosion2,
            i == 0 || i > 40 ==> t == TileType::Empty,
    {
        match i {
            1 => TileType::Zonk,
            2 => TileType::Base,
            3 => TileType::Murphy,
            4 => TileType::Infotron,
            5 => TileType::RAMChipsBase,
            6 => TileType::HardwareWall,
            7 => TileType::Exit,
            8 => TileType::OrangeUtilityDisk,
            9 => TileType::PortsRight,
            10 => TileType::PortsDown,
            11 => TileType::PortsLeft,
            12 => TileType::PortsUp,
            13 => TileType::Terminal,
            14 => TileType::RedUtilityDisk,
            15 => TileType::HardwareCapacitor,
            16 => TileType::Infotron,
            17 => TileType::SnikSnak,
            18 => TileType::YellowUtilityDisk,
            19 => TileType::Terminal,
            20 => TileType::RedUtilityDisk,
            21 => TileType::PortsVertical,
            22 => TileType::PortsHorizontal,
            23 => TileType::PortsAll,
            24 => TileType::Electron,
            25 => TileType::Bug,
            26 => TileType::RAMChipsLeft,
            27 => TileType::RAMChipsRight,
            28 => TileType::HardwareResistorsSpecial2,
            29 => TileType::HardwareGreenLight,
            30 => TileType::HardwareBlueLight,
            31 => TileType::HardwareRedLight,
            32 => TileType::HardwareYellowBlack,
            33 => TileType::HardwareResistorsSpecial1,
            34 => TileType::HardwareCapacitor,
            35 => TileType::HardwareResistorsColored,
            36 => TileType::HardwareResistorsRed,
            37 => TileType::HardwareResistorsYellow,
            38 => TileType::RAMChipsUp,
            39 => TileType::RAMChipsDown,
            40 => TileType::Void,
            _ => TileType::Empty,
        }
    }

    /// Categories whose timer runs: everything that can move, animate or
    /// decay.
    pub open spec fn is_active(&self) -> bool {
        matches!(
            self,
            TileType::Bug | TileType::Electron | TileType::Infotron | TileType::Murphy
                | TileType::OrangeUtilityDisk | TileType::RedUtilityDisk | TileType::Terminal
                | TileType::Transitory | TileType::YellowUtilityDisk | TileType::SnikSnak
                | TileType::Zonk | TileType::Explosion | TileType::Explosion2
        )
    }

    /// Categories that a blast turns into a delayed blast of their own.
    pub open spec fn is_actor(&self) -> bool {
        matches!(
            self,
            TileType::Electron | TileType::Murphy | TileType::OrangeUtilityDisk
                | TileType::SnikSnak | TileType::YellowUtilityDisk
        )
    }

    /// Categories with a rounded top, off which a falling object slides.
    pub open spec fn is_rounded(&self) -> bool {
        matches!(
            self,
            TileType::Infotron | TileType::RAMChipsBase | TileType::RAMChipsLeft
                | TileType::RAMChipsRight | TileType::RAMChipsUp | TileType::RAMChipsDown
                | TileType::Zonk
        )
    }

    /// The ports, of either colour.
    pub open spec fn is_port(&self) -> bool {
        matches!(
            self,
            TileType::PortsAll | TileType::PortsAllBlue | TileType::PortsDown
                | TileType::PortsDownBlue | TileType::PortsHorizontal
                | TileType::PortsHorizontalBlue | TileType::PortsLeft | TileType::PortsLeftBlue
                | TileType::PortsRight | TileType::PortsRightBlue | TileType::PortsUp
                | TileType::PortsUpBlue | TileType::PortsVertical | TileType::PortsVerticalBlue
        )
    }

    /// Whether a port of this category lets the player through in direction
    /// `dir`. Categories that are no ports accept nothing.
    pub open spec fn spec_accepts(&self, dir: TileMove) -> bool {
        match self {
            TileType::PortsAll | TileType::PortsAllBlue => true,
            TileType::PortsHorizontal | TileType::PortsHorizontalBlue => dir.is_lateral(),
            TileType::PortsVertical | TileType::PortsVerticalBlue => {
                dir == TileMove::Up || dir == TileMove::Down
            },
            TileType::PortsLeft | TileType::PortsLeftBlue => dir == TileMove::Left,
            TileType::PortsRight | TileType::PortsRightBlue => dir == TileMove::Right,
            TileType::PortsUp | TileType::PortsUpBlue => dir == TileMove::Up,
            TileType::PortsDown | TileType::PortsDownBlue => dir == TileMove::Down,
            _ => false,
        }
    }

    #[verifier::when_used_as_spec(spec_accepts)]
    pub fn accepts(&self, dir: TileMove) -> (b: bool)
        ensures
            b == self.spec_accepts(dir),
    {
        match self {
            TileType::PortsAll | TileType::PortsAllBlue => true,
            TileType::PortsHorizontal | TileType::PortsHorizontalBlue => {
                dir == TileMove::Left || dir == TileMove::Right
            },
            TileType::PortsVertical | TileType::PortsVerticalBlue => {
                dir == TileMove::Up || dir == TileMove::Down
            },
            TileType::PortsLeft | TileType::PortsLeftBlue => dir == TileMove::Left,
            TileType::PortsRight | TileType::PortsRightBlue => dir == TileMove::Right,
            TileType::PortsUp | TileType::PortsUpBlue => dir == TileMove::Up,
            TileType::PortsDown | TileType::PortsDownBlue => dir == TileMove::Down,
            _ => false,
        }
    }

    /// The physical state a tile of this category has at rest.
    pub open spec fn resting_state(&self) -> TileState {
        match self {
            TileType::Base | TileType::Bug | TileType::Infotron | TileType::RedUtilityDisk
            | TileType::Empty => TileState::Eatable,
            TileType::Electron | TileType::SnikSnak | TileType::Explosion
            | TileType::Explosion2 => TileState::Dangerous,
            TileType::HardwareWall | TileType::HardwareRedLight | TileType::HardwareGreenLight
            | TileType::HardwareBlueLight | TileType::HardwareYellowBlack
            | TileType::HardwareResistorsYellow | TileType::HardwareResistorsRed
            | TileType::HardwareResistorsColored | TileType::HardwareResistorsSpecial1
            | TileType::HardwareResistorsSpecial2 | TileType::HardwareCapacitor
            | TileType::Void => TileState::Indestructible,
            TileType::OrangeUtilityDisk | TileType::YellowUtilityDisk | TileType::Zonk => {
                TileState::Moveable
            },
            TileType::Murphy | TileType::RAMChipsBase | TileType::RAMChipsLeft
            | TileType::RAMChipsRight | TileType::RAMChipsUp | TileType::RAMChipsDown
            | TileType::Terminal | TileType::Exit | TileType::Transitory => {
                TileState::Destructible
            },
            TileType::PortsAll | TileType::PortsAllBlue | TileType::PortsDown
            | TileType::PortsDownBlue | TileType::PortsHorizontal
            | TileType::PortsHorizontalBlue | TileType::PortsLeft | TileType::PortsLeftBlue
            | TileType::PortsRight | TileType::PortsRightBlue | TileType::PortsUp
            | TileType::PortsUpBlue | TileType::PortsVertical | TileType::PortsVerticalBlue => {
                TileState::Tunnelable
            },
        }
    }

    /// The tile a level starts with where its file names this category: at
    /// rest, with its timer run out. The enemies start out facing up.
    pub open spec fn spec_to_tile(self) -> Tile {
        let facing = if self == TileType::Electron || self == TileType::SnikSnak {
            TileMove::Up
        } else {
            TileMove::Stationary
        };
        let prior = if self == TileType::Electron || self == TileType::SnikSnak {
            TileMove::Up
        } else {
            TileMove::Left
        };
        Tile {
            typ: self,
            state: self.resting_state(),
            mov: facing,
            mov2: prior,
            interaction: TileInteraction::Idle,
            upd: 0,
        }
    }

    #[verifier::when_used_as_spec(spec_to_tile)]
    pub fn to_tile(self) -> (t: Tile)
        ensures
            t == self.spec_to_tile(),
    {
        match self {
            TileType::Base
            | TileType::Bug
            | TileType::Infotron
            | TileType::RedUtilityDisk
            | TileType::Empty => Tile::at_rest(self, TileState::Eatable),
            TileType::Electron | TileType::SnikSnak => Tile {
                typ: self,
                state: TileState::Dangerous,
                mov: TileMove::Up,
                mov2: TileMove::Up,
                interaction: TileInteraction::Idle,
                upd: 0,
            },
            TileType::HardwareWall
            | TileType::HardwareRedLight
            | TileType::HardwareGreenLight
            | TileType::HardwareBlueLight
            | TileType::HardwareYellowBlack
            | TileType::HardwareResistorsYellow
            | TileType::HardwareResistorsRed
            | TileType::HardwareResistorsColored
            | TileType::HardwareResistorsSpecial1
            | TileType::HardwareResistorsSpecial2
            | TileType::HardwareCapacitor
            | TileType::Void => Tile::at_rest(self, TileState::Indestructible),
            TileType::PortsAll
            | TileType::PortsHorizontal
            | TileType::PortsVertical
            | TileType::PortsLeft
            | TileType::PortsRight
            | TileType::PortsUp
            | TileType::PortsDown
            | TileType::PortsAllBlue
            | TileType::PortsHorizontalBlue
            | TileType::PortsVerticalBlue
            | TileType::PortsLeftBlue
            | TileType::PortsRightBlue
            | TileType::PortsUpBlue
            | TileType::PortsDownBlue => Tile::at_rest(self, TileState::Tunnelable),
            TileType::Murphy
            | TileType::RAMChipsBase
            | TileType::RAMChipsLeft
            | TileType::RAMChipsRight
            | TileType::RAMChipsUp
            | TileType::RAMChipsDown
            | TileType::Terminal
            | TileType::Exit
            | TileType::Transitory => Tile::at_rest(self, TileState::Destructible),
            TileType::OrangeUtilityDisk | TileType::YellowUtilityDisk | TileType::Zonk => {
                Tile::at_rest(self, TileState::Moveable)
            },
            TileType::Explosion | TileType::Explosion2 => {
                Tile::at_rest(self, TileState::Dangerous)
            },
        }
    }
}

} // verus!
