//! The creature.

use vstd::prelude::*;
use vstd::std_specs::convert::FromSpecImpl;

verus! {

#[derive(Copy, Clone, Debug, PartialEq, Eq)]
pub struct Mogwai {
    /// The dominant row, then the recessive row.
    pub dna: [[u8; 32]; 2],
    pub generation: MogwaiGeneration,
    pub rarity: RarityType,
    pub phase: PhaseType,
}

#[derive(Copy, Clone, Debug, PartialEq, Eq, Structural)]
pub enum MogwaiGeneration {
    First,
    Second,
    Third,
    Fourth,
    Fifth,
    Sixth,
    Seventh,
    Eighth,
    Ninth,
    Tenth,
    Eleventh,
    Twelfth,
    Thirteenth,
    Fourteenth,
    Fifteenth,
    Sixteenth,
}

/// The generation with number `num`, or the nearest one: the first for
/// every number below one, the last for every number above sixteen.
pub open spec fn generation_from(num: int) -> MogwaiGeneration {
    if num <= 1 {
        MogwaiGeneration::First
    } else if num == 2 {
        MogwaiGeneration::Second
    } else if num == 3 {
        MogwaiGeneration::Third
    } else if num == 4 {
        MogwaiGeneration::Fourth
    } else if num == 5 {
        MogwaiGeneration::Fifth
    } else if num == 6 {
        MogwaiGeneration::Sixth
    } else if num == 7 {
        MogwaiGeneration::Seventh
    } else if num == 8 {
        MogwaiGeneration::Eighth
    } else if num == 9 {
        MogwaiGeneration::Ninth
    } else if num == 10 {
        MogwaiGeneration::Tenth
    } else if num == 11 {
        MogwaiGeneration::Eleventh
    } else if num == 12 {
        MogwaiGeneration::Twelfth
    } else if num == 13 {
        MogwaiGeneration::Thirteenth
    } else if num == 14 {
        MogwaiGeneration::Fourteenth
    } else if num == 15 {
        MogwaiGeneration::Fifteenth
    } else {
        MogwaiGeneration::Sixteenth
    }
}

impl Default for MogwaiGeneration {
    fn default() -> (generation: Self)
        ensures
            generation == MogwaiGeneration::First,
    {
        MogwaiGeneration::First
    }
}

impl MogwaiGeneration {
    /// The number of the generation, from 1 to 16.
    pub open spec fn number(self) -> int {
        match self {
            MogwaiGeneration::First => 1,
            MogwaiGeneration::Second => 2,
            MogwaiGeneration::Third => 3,
            MogwaiGeneration::Fourth => 4,
            MogwaiGeneration::Fifth => 5,
            MogwaiGeneration::Sixth => 6,
            MogwaiGeneration::Seventh => 7,
            MogwaiGeneration::Eighth => 8,
            MogwaiGeneration::Ninth => 9,
            MogwaiGeneration::Tenth => 10,
            MogwaiGeneration::Eleventh => 11,
            MogwaiGeneration::Twelfth => 12,
            MogwaiGeneration::Thirteenth => 13,
            MogwaiGeneration::Fourteenth => 14,
            MogwaiGeneration::Fifteenth => 15,
            MogwaiGeneration::Sixteenth => 16,
        }
    }

    /// The number of the generation, from 1 to 16.
    pub fn as_u16(self) -> (num: u16)
        ensures
            num == self.number(),
            1 <= num <= 16,
            generation_from(num as int) == self,
    {
        match self {
            MogwaiGeneration::First => 1,
            MogwaiGeneration::Second => 2,
            MogwaiGeneration::Third => 3,
            MogwaiGeneration::Fourth => 4,
            MogwaiGeneration::Fifth => 5,
            MogwaiGeneration::Sixth => 6,
            MogwaiGeneration::Seventh => 7,
            MogwaiGeneration::Eighth => 8,
            MogwaiGeneration::Ninth => 9,
            MogwaiGeneration::Tenth => 10,
            MogwaiGeneration::Eleventh => 11,
            MogwaiGeneration::Twelfth => 12,
            MogwaiGeneration::Thirteenth => 13,
            MogwaiGeneration::Fourteenth => 14,
            MogwaiGeneration::Fifteenth => 15,
            MogwaiGeneration::Sixteenth => 16,
        }
    }

    /// The generation with number `num`, or the nearest one: the first for
    /// zero, the last for every number above sixteen.
    pub fn from_u16(num: u16) -> (generation: Self)
        ensures
            generation == generation_from(num as int),
            generation.number() == (if num < 1 {
                1
            } else if num > 16 {
                16
            } else {
                num as int
            }),
    {
        Self::coerce_from(num)
    }

    /// The generation with number `num`, or the nearest one: the first for
    /// zero, the last for every number above sixteen.
    pub fn coerce_from(num: u16) -> (generation: Self)
        ensures
            generation == generation_from(num as int),
            generation.number() == (if num < 1 {
                1
            } else if num > 16 {
                16
            } else {
                num as int
            }),
    {
        match num {
            0 => Self::First,
            1..=16 => Self::from(num),
            _ => Self::Sixteenth,
        }
    }
}

impl From<u8> for MogwaiGeneration {
    fn from(num: u8) -> (generation: Self) {
        MogwaiGeneration::from(num as u16)
    }
}

impl FromSpecImpl<u8> for MogwaiGeneration {
    open spec fn obeys_from_spec() -> bool {
        true
    }

    open spec fn from_spec(num: u8) -> Self {
        generation_from(num as int)
    }
}

impl From<u16> for MogwaiGeneration {
    fn from(num: u16) -> (generation: Self) {
        match num {
            0 => MogwaiGeneration::First,
            1 => MogwaiGeneration::First,
            2 => MogwaiGeneration::Second,
            3 => MogwaiGeneration::Third,
            4 => MogwaiGeneration::Fourth,
            5 => MogwaiGeneration::Fifth,
            6 => MogwaiGeneration::Sixth,
            7 => MogwaiGeneration::Seventh,
            8 => MogwaiGeneration::Eighth,
            9 => MogwaiGeneration::Ninth,
            10 => MogwaiGeneration::Tenth,
            11 => MogwaiGeneration::Eleventh,
            12 => MogwaiGeneration::Twelfth,
            13 => MogwaiGeneration::Thirteenth,
            14 => MogwaiGeneration::Fourteenth,
            15 => MogwaiGeneration::Fifteenth,
            _ => MogwaiGeneration::Sixteenth,
        }
    }
}

impl FromSpecImpl<u16> for MogwaiGeneration {
    open spec fn obeys_from_spec() -> bool {
        true
    }

    open spec fn from_spec(num: u16) -> Self {
        generation_from(num as int)
    }
}

#[derive(Copy, Clone, Debug, PartialEq, Eq, Structural)]
pub enum RarityType {
    Common,
    Uncommon,
    Rare,
    Epic,
    Legendary,
    Mythical,
}

/// The rarity with number `num`; common where there is none.
pub open spec fn rarity_from(num: int) -> RarityType {
    if num == 1 {
        RarityType::Uncommon
    } else if num == 2 {
        RarityType::Rare
    } else if num == 3 {
        RarityType::Epic
    } else if num == 4 {
        RarityType::Legendary
    } else if num == 5 {
        RarityType::Mythical
    } else {
        RarityType::Common
    }
}

impl Default for RarityType {
    fn default() -> (rarity: Self)
        ensures
            rarity == RarityType::Common,
    {
        RarityType::Common
    }
}

impl RarityType {
    /// The number of the rarity, from 0 for common to 5 for mythical.
    pub open spec fn number(self) -> int {
        match self {
            RarityType::Common => 0,
            RarityType::Uncommon => 1,
            RarityType::Rare => 2,
            RarityType::Epic => 3,
            RarityType::Legendary => 4,
            RarityType::Mythical => 5,
        }
    }

    /// The number of the rarity, from 0 for common to 5 for mythical.
    pub fn as_u8(self) -> (num: u8)
        ensures
            num == self.number(),
            num <= 5,
            rarity_from(num as int) == self,
    {
        match self {
            RarityType::Common => 0,
            RarityType::Uncommon => 1,
            RarityType::Rare => 2,
            RarityType::Epic => 3,
            RarityType::Legendary => 4,
            RarityType::Mythical => 5,
        }
    }
}

impl From<u8> for RarityType {
    fn from(num: u8) -> (rarity: Self) {
        RarityType::from(num as u16)
    }
}

impl FromSpecImpl<u8> for RarityType {
    open spec fn obeys_from_spec() -> bool {
        true
    }

    open spec fn from_spec(num: u8) -> Self {
        rarity_from(num as int)
    }
}

impl From<u16> for RarityType {
    fn from(num: u16) -> (rarity: Self) {
        match num {
            0 => RarityType::Common,
            1 => RarityType::Uncommon,
            2 => RarityType::Rare,
            3 => RarityType::Epic,
            4 => RarityType::Legendary,
            5 => RarityType::Mythical,
            _ => RarityType::Common,
        }
    }
}

impl FromSpecImpl<u16> for RarityType {
    open spec fn obeys_from_spec() -> bool {
        true
    }

    open spec fn from_spec(num: u16) -> Self {
        rarity_from(num as int)
    }
}

/// The stage of life of a mogwai.
#[derive(Copy, Clone, Debug, PartialEq, Eq, Structural)]
pub enum PhaseType {
    /// Not yet in any phase.
    NoPhase,
    Bred,
    Hatched,
    Matured,
    Mastered,
    Exalted,
}

impl Default for PhaseType {
    fn default() -> (phase: Self)
        ensures
            phase == PhaseType::NoPhase,
    {
        PhaseType::NoPhase
    }
}

impl PhaseType {
    /// How far the phase is along the way from bred to exalted.
    pub open spec fn rank(self) -> int {
        match self {
            PhaseType::NoPhase => 0,
            PhaseType::Bred => 1,
            PhaseType::Hatched => 2,
            PhaseType::Matured => 3,
            PhaseType::Mastered => 4,
            PhaseType::Exalted => 5,
        }
    }

    /// The phase that a morph leads to: one step on from hatched, matured
    /// or mastered. The other phases stay as they are.
    pub open spec fn morphed(self) -> PhaseType {
        match self {
            PhaseType::Hatched => PhaseType::Matured,
            PhaseType::Matured => PhaseType::Mastered,
            PhaseType::Mastered => PhaseType::Exalted,
            other => other,
        }
    }

    /// The phase after a morph.
    pub fn next_phase(self) -> (next: PhaseType)
        ensures
            next == self.morphed(),
            next.rank() >= self.rank(),
    {
        match self {
            PhaseType::Hatched => PhaseType::Matured,
            PhaseType::Matured => PhaseType::Mastered,
            PhaseType::Mastered => PhaseType::Exalted,
            other => other,
        }
    }
}

/// Every generation has a number from 1 to 16, and every rarity one from
/// common to mythical.
pub proof fn lemma_mogwai_in_range(mogwai: Mogwai)
    ensures
        1 <= mogwai.generation.number() <= 16,
        RarityType::Common.number() <= mogwai.rarity.number() <= RarityType::Mythical.number(),
{
}

/// Every way from a number to a generation saturates: a number from 1
/// to 16 gives the generation of that number, a smaller one the first,
/// a greater one the last.
pub proof fn lemma_generation_saturates(num: int)
    ensures
        generation_from(num).number() == (if num < 1 {
            1
        } else if num > 16 {
            16
        } else {
            num
        }),
{
}

} // verus!
