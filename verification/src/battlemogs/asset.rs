//! What the host keeps for a player: a mogwai or a table of achievements.

use vstd::prelude::*;
use crate::battlemogs::achievement_table::AchievementTable;
use crate::battlemogs::error::{TransitionError, ASSET_IS_NOT_ACHIEVEMENT_TABLE, ASSET_IS_NOT_MOGWAI};
use crate::battlemogs::mogwai::Mogwai;

verus! {

pub type BattleMogsId = u64;

#[derive(Copy, Clone, Debug, PartialEq, Eq)]
pub enum BattleMogsVariant {
    Mogwai(Mogwai),
    AchievementTable(AchievementTable),
}

#[derive(Copy, Clone, Debug, PartialEq, Eq)]
pub struct BattleMogsAsset<BlockNumber> {
    pub id: BattleMogsId,
    /// The height at which the asset was made.
    pub genesis: BlockNumber,
    pub variant: BattleMogsVariant,
}

impl<BlockNumber> BattleMogsAsset<BlockNumber> {
    pub fn get_id(&self) -> (id: BattleMogsId)
        ensures
            id == self.id,
    {
        self.id
    }

    pub fn is_mogwai(&self) -> (ok: bool)
        ensures
            ok == self.variant is Mogwai,
    {
        matches!(self.variant, BattleMogsVariant::Mogwai(_))
    }

    pub fn is_achievement(&self) -> (ok: bool)
        ensures
            ok == self.variant is AchievementTable,
    {
        matches!(self.variant, BattleMogsVariant::AchievementTable(_))
    }

    /// The mogwai in the asset, to read and to change.
    pub fn as_mogwai(&mut self) -> (result: Result<&mut Mogwai, TransitionError>)
        ensures
            match old(self).variant {
                BattleMogsVariant::Mogwai(mogwai) => result matches Ok(inner) && *inner == mogwai && *final(self)
                    == (BattleMogsAsset { variant: BattleMogsVariant::Mogwai(*final(inner)), ..*old(self) }),
                BattleMogsVariant::AchievementTable(_) => result matches Err(error) && error == (
                TransitionError::Transition { code: ASSET_IS_NOT_MOGWAI }) && *final(self) == *old(self),
            },
    {
        match &mut self.variant {
            BattleMogsVariant::Mogwai(mogwai) => Ok(mogwai),
            BattleMogsVariant::AchievementTable(_) => Err(
                TransitionError::Transition { code: ASSET_IS_NOT_MOGWAI },
            ),
        }
    }

    /// The table in the asset, to read and to change.
    pub fn as_achievement(&mut self) -> (result: Result<&mut AchievementTable, TransitionError>)
        ensures
            match old(self).variant {
                BattleMogsVariant::AchievementTable(table) => result matches Ok(inner) && *inner == table
                    && *final(self) == (BattleMogsAsset {
                    variant: BattleMogsVariant::AchievementTable(*final(inner)),
                    ..*old(self)
                }),
                BattleMogsVariant::Mogwai(_) => result matches Err(error) && error == (
                TransitionError::Transition { code: ASSET_IS_NOT_ACHIEVEMENT_TABLE }) && *final(self) == *old(
                    self,
                ),
            },
    {
        match &mut self.variant {
            BattleMogsVariant::AchievementTable(achievement_table) => Ok(achievement_table),
            BattleMogsVariant::Mogwai(_) => Err(
                TransitionError::Transition { code: ASSET_IS_NOT_ACHIEVEMENT_TABLE },
            ),
        }
    }
}

} // verus!
