//! The reasons for which a move is turned down.

use vstd::prelude::*;

verus! {

pub const ASSET_NOT_FOUND: u8 = 0;

pub const MOGWAI_LIMIT_REACHED: u8 = 1;

pub const PLAYER_ALREADY_HAS_ACHIEVEMENT_TABLE: u8 = 2;

pub const ASSET_IS_NOT_MOGWAI: u8 = 3;

pub const ASSET_IS_NOT_ACHIEVEMENT_TABLE: u8 = 4;

pub const CANNOT_USE_SAME_ASSET_FOR_BREEDING: u8 = 5;

pub const MOGWAI_STILL_IN_BRED_PHASE: u8 = 6;

pub const MOGWAI_NOT_IN_BRED_PHASE: u8 = 7;

pub const MOGWAI_HAS_INVALID_RARITY: u8 = 8;

pub const ASSET_COULD_NOT_RECEIVE_FUNDS: u8 = 100;

pub const ASSET_COULD_NOT_WITHDRAW_FUNDS: u8 = 101;

/// Why a move was turned down.
#[derive(Copy, Clone, Debug, PartialEq, Eq, Structural)]
pub enum TransitionError {
    /// The account does not own the asset.
    AssetOwnership,
    /// A rule of the game stands against the move.
    Transition { code: u8 },
}

pub struct BattleMogsError;

impl BattleMogsError {
    pub fn from(code: u8) -> (error: TransitionError)
        ensures
            error == (TransitionError::Transition { code }),
    {
        TransitionError::Transition { code }
    }
}

} // verus!
