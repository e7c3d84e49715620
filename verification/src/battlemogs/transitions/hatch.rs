//! A mogwai hatches.

use vstd::prelude::*;
use crate::battlemogs::achievement_table::AchievementKind;
use crate::battlemogs::asset::BattleMogsId;
use crate::battlemogs::config::GameEventType;
use crate::battlemogs::error::{
    BattleMogsError, TransitionError, ASSET_COULD_NOT_RECEIVE_FUNDS, MOGWAI_NOT_IN_BRED_PHASE,
};
use crate::battlemogs::host::{
    Asset, HostSnapshot, RandomDraws, TransitionOutput, TransitionPlan, owned_mogwai_found,
};
use crate::battlemogs::kernel::{BreedingKernel, baked, segmented};
use crate::battlemogs::mogwai::{Mogwai, PhaseType, RarityType};
use crate::battlemogs::transitions::{
    BattleMogsTransition, PlanView, comes_to, count_achievement, mogwai_of, outputs_only, plan_of, push_table,
    put_mogwai, table_counted, with_mogwai, with_table,
};

verus! {

/// The blocks that a mogwai has to wait before it hatches.
pub const TIME_TILL_HATCH: u16 = 100;

/// The mogwai that may hatch, or the reason why the move is turned down:
/// the mogwai has to belong to the account, to have waited long enough
/// since it was made, and to be in its bred phase. A mogwai that has not
/// waited long enough is turned down with the code of funds not received.
pub open spec fn hatch_check(snapshot: HostSnapshot, mogwai_id: BattleMogsId) -> Result<Asset, TransitionError> {
    match owned_mogwai_found(snapshot.records@, mogwai_id) {
        Err(error) => Err(error),
        Ok(asset) => if waited(snapshot.block_number, asset.genesis) < TIME_TILL_HATCH {
            Err(TransitionError::Transition { code: ASSET_COULD_NOT_RECEIVE_FUNDS })
        } else if mogwai_of(asset).phase != PhaseType::Bred {
            Err(TransitionError::Transition { code: MOGWAI_NOT_IN_BRED_PHASE })
        } else {
            Ok(asset)
        },
    }
}

/// The blocks from `genesis` to `height`; none where `genesis` lies ahead.
pub open spec fn waited(height: u64, genesis: u64) -> int {
    if height >= genesis {
        height - genesis
    } else {
        0
    }
}

/// What comes of the hatching of the mogwai in `asset`: the mogwai in its
/// hatched phase, with DNA and rarity as the kernel gave them. Where the
/// table named by the move is a table of the account, it is written
/// behind the mogwai with one egg more.
pub open spec fn hatched(
    snapshot: HostSnapshot,
    mogwai_id: BattleMogsId,
    asset: Asset,
    table_id: BattleMogsId,
    dna: [[u8; 32]; 2],
    rarity: RarityType,
) -> PlanView {
    outputs_only(
        with_table(
            seq![
                TransitionOutput::Mutated(
                    mogwai_id,
                    with_mogwai(asset, Mogwai { dna, rarity, phase: PhaseType::Hatched, ..mogwai_of(asset) }),
                ),
            ],
            table_id,
            table_counted(snapshot.records@, table_id, AchievementKind::EggHatcher),
        ),
    )
}

/// What comes of the hatching of the mogwai under `mogwai_id` where the
/// kernel has answered `dna` and `rarity`.
pub open spec fn hatch_plan(
    snapshot: HostSnapshot,
    mogwai_id: BattleMogsId,
    table_id: BattleMogsId,
    dna: [[u8; 32]; 2],
    rarity: RarityType,
) -> Result<PlanView, TransitionError> {
    match hatch_check(snapshot, mogwai_id) {
        Err(error) => Err(error),
        Ok(asset) => Ok(hatched(snapshot, mogwai_id, asset, table_id, dna, rarity)),
    }
}

/// Whether `result` is what comes of the hatching of the mogwai under
/// `mogwai_id` with the kernel `K`. The kernel is asked to segment the DNA
/// and to bake the rarity of the mogwai with the hash drawn for the move.
pub open spec fn hatch_post<K: BreedingKernel>(
    snapshot: HostSnapshot,
    draws: RandomDraws,
    mogwai_id: BattleMogsId,
    table_id: BattleMogsId,
    result: Result<TransitionPlan, TransitionError>,
) -> bool {
    match hatch_check(snapshot, mogwai_id) {
        Err(error) => result matches Err(given) && given == error,
        Ok(asset) => exists|dna: [[u8; 32]; 2], rarity: RarityType|
            {
                &&& segmented::<K>(mogwai_of(asset).dna, draws.mogwai_hatch, dna)
                &&& baked::<K>(mogwai_of(asset).rarity, draws.mogwai_hatch, rarity)
                &&& comes_to(result, #[trigger] hatch_plan(snapshot, mogwai_id, table_id, dna, rarity))
            },
    }
}

impl BattleMogsTransition {
    /// The mogwai under `mogwai_id`, where it may hatch.
    pub fn check_hatch(snapshot: &HostSnapshot, mogwai_id: &BattleMogsId) -> (result: Result<Asset, TransitionError>)
        ensures
            result == hatch_check(*snapshot, *mogwai_id),
    {
        let mut asset = snapshot.get_owned_mogwai(mogwai_id)?;
        let block_number = snapshot.block_number;
        let time_till_hatch = GameEventType::time_till(GameEventType::Hatch);
        if block_number.saturating_sub(asset.genesis) < time_till_hatch as u64 {
            return Err(BattleMogsError::from(ASSET_COULD_NOT_RECEIVE_FUNDS));
        }
        let mogwai = *asset.as_mogwai()?;
        if mogwai.phase != PhaseType::Bred {
            return Err(BattleMogsError::from(MOGWAI_NOT_IN_BRED_PHASE));
        }
        Ok(asset)
    }

    /// Plans the hatching of the mogwai under `mogwai_id` for a kernel
    /// that has answered `dna` and `rarity`.
    pub fn plan_hatch(
        snapshot: &HostSnapshot,
        mogwai_id: &BattleMogsId,
        table_id: &BattleMogsId,
        dna: [[u8; 32]; 2],
        rarity: RarityType,
    ) -> (result: Result<TransitionPlan, TransitionError>)
        ensures
            comes_to(result, hatch_plan(*snapshot, *mogwai_id, *table_id, dna, rarity)),
    {
        let mut asset = Self::check_hatch(snapshot, mogwai_id)?;
        let mogwai = *asset.as_mogwai()?;
        let hatched_mogwai = Mogwai { dna, generation: mogwai.generation, rarity, phase: PhaseType::Hatched };
        let table = count_achievement(snapshot, table_id, AchievementKind::EggHatcher);
        let outputs = push_table(
            vec![TransitionOutput::Mutated(*mogwai_id, put_mogwai(asset, hatched_mogwai))],
            table_id,
            table,
        );
        let plan = plan_of(Vec::new(), outputs);
        proof {
            let expected = hatched(*snapshot, *mogwai_id, asset, *table_id, dna, rarity);
            assert(plan@.outputs =~= expected.outputs);
        }
        Ok(plan)
    }

    pub fn hatch_mogwai<K: BreedingKernel>(
        snapshot: &HostSnapshot,
        draws: &RandomDraws,
        mogwai_id: &BattleMogsId,
        table_id: &BattleMogsId,
    ) -> (result: Result<TransitionPlan, TransitionError>)
        ensures
            hatch_post::<K>(*snapshot, *draws, *mogwai_id, *table_id, result),
    {
        let mut asset = Self::check_hatch(snapshot, mogwai_id)?;
        let mogwai = *asset.as_mogwai()?;
        let (dna, rarity) = Self::segment_and_bake::<K>(&mogwai, &draws.mogwai_hatch);
        Self::plan_hatch(snapshot, mogwai_id, table_id, dna, rarity)
    }

    /// Asks the kernel for the DNA and the rarity of `mogwai` after it has hatched.
    pub fn segment_and_bake<K: BreedingKernel>(mogwai: &Mogwai, hash: &[u8; 32]) -> (changed: (
        [[u8; 32]; 2],
        RarityType,
    ))
        ensures
            segmented::<K>(mogwai.dna, *hash, changed.0),
            baked::<K>(mogwai.rarity, *hash, changed.1),
    {
        // segment and bake the hatched mogwai
        (K::segmenting(mogwai.dna, *hash), K::bake(mogwai.rarity, *hash))
    }
}

} // verus!
