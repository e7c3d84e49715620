//! Prices and waiting times.

use vstd::prelude::*;
use crate::battlemogs::mogwai::{PhaseType, RarityType};

verus! {

pub const MILLIARD: u64 = 1_000_000_000;

/// A thousand times the unit of the prices.
pub const DMOGS: u64 = 1_000_000_000_000;

/// An amount of funds.
pub type Balance = u128;

/// What a fee is taken for.
#[derive(Copy, Clone, Debug, PartialEq, Eq, Structural)]
pub enum FeeType {
    Default,
    Remove,
}

/// The price of pairing two mogwais whose rarities sum up to `rarity_sum`.
pub open spec fn pairing_price(rarity_sum: int) -> int {
    if rarity_sum == 0 {
        10 * MILLIARD
    } else if rarity_sum == 1 {
        100 * MILLIARD
    } else if rarity_sum == 2 {
        200 * MILLIARD
    } else if rarity_sum == 3 {
        300 * MILLIARD
    } else if rarity_sum == 4 {
        400 * MILLIARD
    } else if rarity_sum == 5 {
        500 * MILLIARD
    } else if rarity_sum == 6 {
        1000 * MILLIARD
    } else if rarity_sum == 7 {
        1500 * MILLIARD
    } else if rarity_sum == 8 {
        2000 * MILLIARD
    } else {
        10000 * MILLIARD
    }
}

/// The share of its funds that a mogwai in `phase` gives back is one in this many.
pub open spec fn intrinsic_divisor(phase: PhaseType) -> int {
    match phase {
        PhaseType::NoPhase => 0,
        PhaseType::Bred => 20 * MILLIARD,
        PhaseType::Hatched => 5 * MILLIARD,
        PhaseType::Matured => 3 * MILLIARD,
        PhaseType::Mastered => 2 * MILLIARD,
        PhaseType::Exalted => MILLIARD as int,
    }
}

pub struct Pricing;

impl Pricing {
    pub fn fee_price(fee: FeeType) -> (price: Balance)
        ensures
            price == match fee {
                FeeType::Default => MILLIARD as int,
                FeeType::Remove => 50 * MILLIARD,
            },
    {
        let price: u64 = match fee {
            FeeType::Default => MILLIARD,
            FeeType::Remove => 50 * MILLIARD,
        };
        price as Balance
    }

    /// The price of room for more mogwais, by the step of the extension.
    pub fn config_max_mogwais(step: u8) -> (price: Balance)
        ensures
            price == (if step == 1 {
                5000 * DMOGS
            } else if step == 2 {
                10000 * DMOGS
            } else if step == 3 {
                20000 * DMOGS
            } else {
                0
            }),
    {
        let price: u64 = match step {
            1 => 5000 * DMOGS,
            2 => 10000 * DMOGS,
            3 => 20000 * DMOGS,
            _ => 0,
        };
        price as Balance
    }

    pub fn intrinsic_return(phase: PhaseType) -> (divisor: Balance)
        ensures
            divisor == intrinsic_divisor(phase),
    {
        let divisor: u64 = match phase {
            PhaseType::NoPhase => 0,
            PhaseType::Bred => 20 * MILLIARD,
            PhaseType::Hatched => 5 * MILLIARD,
            PhaseType::Matured => 3 * MILLIARD,
            PhaseType::Mastered => 2 * MILLIARD,
            PhaseType::Exalted => MILLIARD,
        };
        divisor as Balance
    }

    pub fn pairing(rarity1: RarityType, rarity2: RarityType) -> (price: Balance)
        ensures
            price == pairing_price(rarity1.number() + rarity2.number()),
    {
        let rarity_sum: u8 = rarity1.as_u8() + rarity2.as_u8();
        let price: u64 = match rarity_sum {
            0 => 10 * MILLIARD,
            1 => 100 * MILLIARD,
            2 => 200 * MILLIARD,
            3 => 300 * MILLIARD,
            4 => 400 * MILLIARD,
            5 => 500 * MILLIARD,
            6 => 1000 * MILLIARD,
            7 => 1500 * MILLIARD,
            8 => 2000 * MILLIARD,
            _ => 10000 * MILLIARD,
        };
        price as Balance
    }
}

#[derive(Copy, Clone, Debug, PartialEq, Eq, Structural)]
pub enum GameEventType {
    Default,
    Hatch,
}

impl Default for GameEventType {
    fn default() -> (event: Self)
        ensures
            event == GameEventType::Default,
    {
        GameEventType::Default
    }
}

impl GameEventType {
    /// The blocks that have to pass before the event.
    pub fn time_till(game_type: GameEventType) -> (blocks: u16)
        ensures
            blocks == match game_type {
                GameEventType::Hatch => 100u16,
                GameEventType::Default => 0u16,
            },
    {
        match game_type {
            GameEventType::Hatch => 100,
            GameEventType::Default => 0,
        }
    }
}

} // verus!
