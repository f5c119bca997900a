//! The closed sets of values that the game speaks of, with the numbers that stand for them
//! wherever they cross between Rust and JavaScript.
use vstd::prelude::*;

verus! {

/// What the game answers to an order given to a creep.
#[derive(Clone, Copy, Debug, PartialEq, Eq, Structural)]
pub enum ReturnCode {
    Success,
    NotOwner,
    NoPath,
    NameExists,
    Busy,
    NotFound,
    NotEnough,
    InvalidTarget,
    Full,
    NotInRange,
    InvalidArgs,
    Tired,
    NoBodypart,
    RclNotEnough,
    GclNotEnough,
}

impl ReturnCode {
    /// The number by which the game gives this answer.
    pub open spec fn number(self) -> int {
        match self {
            ReturnCode::Success => 0,
            ReturnCode::NotOwner => -1,
            ReturnCode::NoPath => -2,
            ReturnCode::NameExists => -3,
            ReturnCode::Busy => -4,
            ReturnCode::NotFound => -5,
            ReturnCode::NotEnough => -6,
            ReturnCode::InvalidTarget => -7,
            ReturnCode::Full => -8,
            ReturnCode::NotInRange => -9,
            ReturnCode::InvalidArgs => -10,
            ReturnCode::Tired => -11,
            ReturnCode::NoBodypart => -12,
            ReturnCode::RclNotEnough => -14,
            ReturnCode::GclNotEnough => -15,
        }
    }

    /// The number by which the game gives this answer.
    pub fn code(self) -> (code: i32)
        ensures
            code == self.number(),
    {
        match self {
            ReturnCode::Success => 0,
            ReturnCode::NotOwner => -1,
            ReturnCode::NoPath => -2,
            ReturnCode::NameExists => -3,
            ReturnCode::Busy => -4,
            ReturnCode::NotFound => -5,
            ReturnCode::NotEnough => -6,
            ReturnCode::InvalidTarget => -7,
            ReturnCode::Full => -8,
            ReturnCode::NotInRange => -9,
            ReturnCode::InvalidArgs => -10,
            ReturnCode::Tired => -11,
            ReturnCode::NoBodypart => -12,
            ReturnCode::RclNotEnough => -14,
            ReturnCode::GclNotEnough => -15,
        }
    }

    /// The answer that a number stands for, `None` where the game has no such answer.
    pub open spec fn numbered(code: i32) -> Option<ReturnCode> {
        match code {
            0 => Some(ReturnCode::Success),
            -1 => Some(ReturnCode::NotOwner),
            -2 => Some(ReturnCode::NoPath),
            -3 => Some(ReturnCode::NameExists),
            -4 => Some(ReturnCode::Busy),
            -5 => Some(ReturnCode::NotFound),
            -6 => Some(ReturnCode::NotEnough),
            -7 => Some(ReturnCode::InvalidTarget),
            -8 => Some(ReturnCode::Full),
            -9 => Some(ReturnCode::NotInRange),
            -10 => Some(ReturnCode::InvalidArgs),
            -11 => Some(ReturnCode::Tired),
            -12 => Some(ReturnCode::NoBodypart),
            -14 => Some(ReturnCode::RclNotEnough),
            -15 => Some(ReturnCode::GclNotEnough),
            _ => None,
        }
    }

    /// The answer that a number stands for, `None` where the game has no such answer.
    pub fn from_code(code: i32) -> (found: Option<ReturnCode>)
        ensures
            found == ReturnCode::numbered(code),
    {
        match code {
            0 => Some(ReturnCode::Success),
            -1 => Some(ReturnCode::NotOwner),
            -2 => Some(ReturnCode::NoPath),
            -3 => Some(ReturnCode::NameExists),
            -4 => Some(ReturnCode::Busy),
            -5 => Some(ReturnCode::NotFound),
            -6 => Some(ReturnCode::NotEnough),
            -7 => Some(ReturnCode::InvalidTarget),
            -8 => Some(ReturnCode::Full),
            -9 => Some(ReturnCode::NotInRange),
            -10 => Some(ReturnCode::InvalidArgs),
            -11 => Some(ReturnCode::Tired),
            -12 => Some(ReturnCode::NoBodypart),
            -14 => Some(ReturnCode::RclNotEnough),
            -15 => Some(ReturnCode::GclNotEnough),
            _ => None,
        }
    }
}

impl View for ReturnCode {
    type V = ReturnCode;

    open spec fn view(&self) -> ReturnCode {
        *self
    }
}

/// One of the eight neighbours of a tile.
#[derive(Clone, Copy, Debug, PartialEq, Eq, Structural)]
pub enum Direction {
    Top,
    TopRight,
    Right,
    BottomRight,
    Bottom,
    BottomLeft,
    Left,
    TopLeft,
}

impl Direction {
    /// The game's number of this direction: clockwise, with `Top` as 1.
    pub open spec fn number(self) -> int {
        match self {
            Direction::Top => 1,
            Direction::TopRight => 2,
            Direction::Right => 3,
            Direction::BottomRight => 4,
            Direction::Bottom => 5,
            Direction::BottomLeft => 6,
            Direction::Left => 7,
            Direction::TopLeft => 8,
        }
    }

    /// The game's number of this direction: clockwise, with `Top` as 1.
    pub fn code(self) -> (code: u32)
        ensures
            code == self.number(),
    {
        match self {
            Direction::Top => 1,
            Direction::TopRight => 2,
            Direction::Right => 3,
            Direction::BottomRight => 4,
            Direction::Bottom => 5,
            Direction::BottomLeft => 6,
            Direction::Left => 7,
            Direction::TopLeft => 8,
        }
    }
}

/// A kind of body part.
#[derive(Clone, Copy, Debug, PartialEq, Eq, Structural)]
pub enum Part {
    Move,
    Work,
    Carry,
    Attack,
    RangedAttack,
    Tough,
    Heal,
    Claim,
}

impl Part {
    /// The number of this kind of part.
    pub open spec fn number(self) -> int {
        match self {
            Part::Move => 0,
            Part::Work => 1,
            Part::Carry => 2,
            Part::Attack => 3,
            Part::RangedAttack => 4,
            Part::Tough => 5,
            Part::Heal => 6,
            Part::Claim => 7,
        }
    }

    /// The number of this kind of part.
    pub fn code(self) -> (code: u32)
        ensures
            code == self.number(),
    {
        match self {
            Part::Move => 0,
            Part::Work => 1,
            Part::Carry => 2,
            Part::Attack => 3,
            Part::RangedAttack => 4,
            Part::Tough => 5,
            Part::Heal => 6,
            Part::Claim => 7,
        }
    }

    /// The kind of part that a number stands for, `None` where it stands for none.
    pub open spec fn numbered(code: u32) -> Option<Part> {
        match code {
            0 => Some(Part::Move),
            1 => Some(Part::Work),
            2 => Some(Part::Carry),
            3 => Some(Part::Attack),
            4 => Some(Part::RangedAttack),
            5 => Some(Part::Tough),
            6 => Some(Part::Heal),
            7 => Some(Part::Claim),
            _ => None,
        }
    }

    /// The kind of part that a number stands for, `None` where it stands for none.
    pub fn from_code(code: u32) -> (found: Option<Part>)
        ensures
            found == Part::numbered(code),
    {
        match code {
            0 => Some(Part::Move),
            1 => Some(Part::Work),
            2 => Some(Part::Carry),
            3 => Some(Part::Attack),
            4 => Some(Part::RangedAttack),
            5 => Some(Part::Tough),
            6 => Some(Part::Heal),
            7 => Some(Part::Claim),
            _ => None,
        }
    }
}

impl View for Part {
    type V = Part;

    open spec fn view(&self) -> Part {
        *self
    }
}

/// A resource that creeps carry, and that boosts their body parts.
#[derive(Clone, Copy, Debug, PartialEq, Eq, Structural)]
pub enum ResourceType {
    Energy,
    Power,
    Hydrogen,
    Oxygen,
    Utrium,
    Keanium,
    Lemergium,
    Zynthium,
    Catalyst,
    Ghodium,
    Hydroxide,
    ZynthiumKeanite,
    UtriumLemergite,
    UtriumHydride,
    UtriumOxide,
    KeaniumHydride,
    KeaniumOxide,
    LemergiumHydride,
    LemergiumOxide,
    ZynthiumHydride,
    ZynthiumOxide,
    GhodiumHydride,
    GhodiumOxide,
    UtriumAcid,
    UtriumAlkalide,
    KeaniumAcid,
    KeaniumAlkalide,
    LemergiumAcid,
    LemergiumAlkalide,
    ZynthiumAcid,
    ZynthiumAlkalide,
    GhodiumAcid,
    GhodiumAlkalide,
    CatalyzedUtriumAcid,
    CatalyzedUtriumAlkalide,
    CatalyzedKeaniumAcid,
    CatalyzedKeaniumAlkalide,
    CatalyzedLemergiumAcid,
    CatalyzedLemergiumAlkalide,
    CatalyzedZynthiumAcid,
    CatalyzedZynthiumAlkalide,
    CatalyzedGhodiumAcid,
    CatalyzedGhodiumAlkalide,
    Ops,
}

impl ResourceType {
    /// The number of this resource.
    pub open spec fn number(self) -> int {
        match self {
            ResourceType::Energy => 1,
            ResourceType::Power => 2,
            ResourceType::Hydrogen => 3,
            ResourceType::Oxygen => 4,
            ResourceType::Utrium => 5,
            ResourceType::Keanium => 6,
            ResourceType::Lemergium => 7,
            ResourceType::Zynthium => 8,
            ResourceType::Catalyst => 9,
            ResourceType::Ghodium => 10,
            ResourceType::Hydroxide => 11,
            ResourceType::ZynthiumKeanite => 12,
            ResourceType::UtriumLemergite => 13,
            ResourceType::UtriumHydride => 14,
            ResourceType::UtriumOxide => 15,
            ResourceType::KeaniumHydride => 16,
            ResourceType::KeaniumOxide => 17,
            ResourceType::LemergiumHydride => 18,
            ResourceType::LemergiumOxide => 19,
            ResourceType::ZynthiumHydride => 20,
            ResourceType::ZynthiumOxide => 21,
            ResourceType::GhodiumHydride => 22,
            ResourceType::GhodiumOxide => 23,
            ResourceType::UtriumAcid => 24,
            ResourceType::UtriumAlkalide => 25,
            ResourceType::KeaniumAcid => 26,
            ResourceType::KeaniumAlkalide => 27,
            ResourceType::LemergiumAcid => 28,
            ResourceType::LemergiumAlkalide => 29,
            ResourceType::ZynthiumAcid => 30,
            ResourceType::ZynthiumAlkalide => 31,
            ResourceType::GhodiumAcid => 32,
            ResourceType::GhodiumAlkalide => 33,
            ResourceType::CatalyzedUtriumAcid => 34,
            ResourceType::CatalyzedUtriumAlkalide => 35,
            ResourceType::CatalyzedKeaniumAcid => 36,
            ResourceType::CatalyzedKeaniumAlkalide => 37,
            ResourceType::CatalyzedLemergiumAcid => 38,
            ResourceType::CatalyzedLemergiumAlkalide => 39,
            ResourceType::CatalyzedZynthiumAcid => 40,
            ResourceType::CatalyzedZynthiumAlkalide => 41,
            ResourceType::CatalyzedGhodiumAcid => 42,
            ResourceType::CatalyzedGhodiumAlkalide => 43,
            ResourceType::Ops => 44,
        }
    }

    /// The number of this resource.
    pub fn code(self) -> (code: u32)
        ensures
            code == self.number(),
    {
        match self {
            ResourceType::Energy => 1,
            ResourceType::Power => 2,
            ResourceType::Hydrogen => 3,
            ResourceType::Oxygen => 4,
            ResourceType::Utrium => 5,
            ResourceType::Keanium => 6,
            ResourceType::Lemergium => 7,
            ResourceType::Zynthium => 8,
            ResourceType::Catalyst => 9,
            ResourceType::Ghodium => 10,
            ResourceType::Hydroxide => 11,
            ResourceType::ZynthiumKeanite => 12,
            ResourceType::UtriumLemergite => 13,
            ResourceType::UtriumHydride => 14,
            ResourceType::UtriumOxide => 15,
            ResourceType::KeaniumHydride => 16,
            ResourceType::KeaniumOxide => 17,
            ResourceType::LemergiumHydride => 18,
            ResourceType::LemergiumOxide => 19,
            ResourceType::ZynthiumHydride => 20,
            ResourceType::ZynthiumOxide => 21,
            ResourceType::GhodiumHydride => 22,
            ResourceType::GhodiumOxide => 23,
            ResourceType::UtriumAcid => 24,
            ResourceType::UtriumAlkalide => 25,
            ResourceType::KeaniumAcid => 26,
            ResourceType::KeaniumAlkalide => 27,
            ResourceType::LemergiumAcid => 28,
            ResourceType::LemergiumAlkalide => 29,
            ResourceType::ZynthiumAcid => 30,
            ResourceType::ZynthiumAlkalide => 31,
            ResourceType::GhodiumAcid => 32,
            ResourceType::GhodiumAlkalide => 33,
            ResourceType::CatalyzedUtriumAcid => 34,
            ResourceType::CatalyzedUtriumAlkalide => 35,
            ResourceType::CatalyzedKeaniumAcid => 36,
            ResourceType::CatalyzedKeaniumAlkalide => 37,
            ResourceType::CatalyzedLemergiumAcid => 38,
            ResourceType::CatalyzedLemergiumAlkalide => 39,
            ResourceType::CatalyzedZynthiumAcid => 40,
            ResourceType::CatalyzedZynthiumAlkalide => 41,
            ResourceType::CatalyzedGhodiumAcid => 42,
            ResourceType::CatalyzedGhodiumAlkalide => 43,
            ResourceType::Ops => 44,
        }
    }

    /// The resource that a number stands for, `None` where it stands for none.
    pub open spec fn numbered(code: u32) -> Option<ResourceType> {
        match code {
            1 => Some(ResourceType::Energy),
            2 => Some(ResourceType::Power),
            3 => Some(ResourceType::Hydrogen),
            4 => Some(ResourceType::Oxygen),
            5 => Some(ResourceType::Utrium),
            6 => Some(ResourceType::Keanium),
            7 => Some(ResourceType::Lemergium),
            8 => Some(ResourceType::Zynthium),
            9 => Some(ResourceType::Catalyst),
            10 => Some(ResourceType::Ghodium),
            11 => Some(ResourceType::Hydroxide),
            12 => Some(ResourceType::ZynthiumKeanite),
            13 => Some(ResourceType::UtriumLemergite),
            14 => Some(ResourceType::UtriumHydride),
            15 => Some(ResourceType::UtriumOxide),
            16 => Some(ResourceType::KeaniumHydride),
            17 => Some(ResourceType::KeaniumOxide),
            18 => Some(ResourceType::LemergiumHydride),
            19 => Some(ResourceType::LemergiumOxide),
            20 => Some(ResourceType::ZynthiumHydride),
            21 => Some(ResourceType::ZynthiumOxide),
            22 => Some(ResourceType::GhodiumHydride),
            23 => Some(ResourceType::GhodiumOxide),
            24 => Some(ResourceType::UtriumAcid),
            25 => Some(ResourceType::UtriumAlkalide),
            26 => Some(ResourceType::KeaniumAcid),
            27 => Some(ResourceType::KeaniumAlkalide),
            28 => Some(ResourceType::LemergiumAcid),
            29 => Some(ResourceType::LemergiumAlkalide),
            30 => Some(ResourceType::ZynthiumAcid),
            31 => Some(ResourceType::ZynthiumAlkalide),
            32 => Some(ResourceType::GhodiumAcid),
            33 => Some(ResourceType::GhodiumAlkalide),
            34 => Some(ResourceType::CatalyzedUtriumAcid),
            35 => Some(ResourceType::CatalyzedUtriumAlkalide),
            36 => Some(ResourceType::CatalyzedKeaniumAcid),
            37 => Some(ResourceType::CatalyzedKeaniumAlkalide),
            38 => Some(ResourceType::CatalyzedLemergiumAcid),
            39 => Some(ResourceType::CatalyzedLemergiumAlkalide),
            40 => Some(ResourceType::CatalyzedZynthiumAcid),
            41 => Some(ResourceType::CatalyzedZynthiumAlkalide),
            42 => Some(ResourceType::CatalyzedGhodiumAcid),
            43 => Some(ResourceType::CatalyzedGhodiumAlkalide),
            44 => Some(ResourceType::Ops),
            _ => None,
        }
    }

    /// The resource that a number stands for, `None` where it stands for none.
    pub fn from_code(code: u32) -> (found: Option<ResourceType>)
        ensures
            found == ResourceType::numbered(code),
    {
        match code {
            1 => Some(ResourceType::Energy),
            2 => Some(ResourceType::Power),
            3 => Some(ResourceType::Hydrogen),
            4 => Some(ResourceType::Oxygen),
            5 => Some(ResourceType::Utrium),
            6 => Some(ResourceType::Keanium),
            7 => Some(ResourceType::Lemergium),
            8 => Some(ResourceType::Zynthium),
            9 => Some(ResourceType::Catalyst),
            10 => Some(ResourceType::Ghodium),
            11 => Some(ResourceType::Hydroxide),
            12 => Some(ResourceType::ZynthiumKeanite),
            13 => Some(ResourceType::UtriumLemergite),
            14 => Some(ResourceType::UtriumHydride),
            15 => Some(ResourceType::UtriumOxide),
            16 => Some(ResourceType::KeaniumHydride),
            17 => Some(ResourceType::KeaniumOxide),
            18 => Some(ResourceType::LemergiumHydride),
            19 => Some(ResourceType::LemergiumOxide),
            20 => Some(ResourceType::ZynthiumHydride),
            21 => Some(ResourceType::ZynthiumOxide),
            22 => Some(ResourceType::GhodiumHydride),
            23 => Some(ResourceType::GhodiumOxide),
            24 => Some(ResourceType::UtriumAcid),
            25 => Some(ResourceType::UtriumAlkalide),
            26 => Some(ResourceType::KeaniumAcid),
            27 => Some(ResourceType::KeaniumAlkalide),
            28 => Some(ResourceType::LemergiumAcid),
            29 => Some(ResourceType::LemergiumAlkalide),
            30 => Some(ResourceType::ZynthiumAcid),
            31 => Some(ResourceType::ZynthiumAlkalide),
            32 => Some(ResourceType::GhodiumAcid),
            33 => Some(ResourceType::GhodiumAlkalide),
            34 => Some(ResourceType::CatalyzedUtriumAcid),
            35 => Some(ResourceType::CatalyzedUtriumAlkalide),
            36 => Some(ResourceType::CatalyzedKeaniumAcid),
            37 => Some(ResourceType::CatalyzedKeaniumAlkalide),
            38 => Some(ResourceType::CatalyzedLemergiumAcid),
            39 => Some(ResourceType::CatalyzedLemergiumAlkalide),
            40 => Some(ResourceType::CatalyzedZynthiumAcid),
            41 => Some(ResourceType::CatalyzedZynthiumAlkalide),
            42 => Some(ResourceType::CatalyzedGhodiumAcid),
            43 => Some(ResourceType::CatalyzedGhodiumAlkalide),
            44 => Some(ResourceType::Ops),
            _ => None,
        }
    }
}

impl View for ResourceType {
    type V = ResourceType;

    open spec fn view(&self) -> ResourceType {
        *self
    }
}

} // verus!
