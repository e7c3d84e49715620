//! A mogwai morphs into its next phase.

use vstd::prelude::*;
use crate::battlemogs::achievement_table::AchievementKind;
use crate::battlemogs::asset::BattleMogsId;
use crate::battlemogs::config::{FeeType, Pricing, MILLIARD};
use crate::battlemogs::error::{BattleMogsError, TransitionError, MOGWAI_STILL_IN_BRED_PHASE};
use crate::battlemogs::host::{
    Asset, FundMove, HostSnapshot, RandomDraws, TransitionOutput, TransitionPlan, owned_mogwai_found,
};
use crate::battlemogs::kernel::{BreedingKernel, baked, segmented};
use crate::battlemogs::mogwai::{Mogwai, PhaseType, RarityType};
use crate::battlemogs::transitions::{
    BattleMogsTransition, PlanView, comes_to, count_achievement, mogwai_of, plan_of, push_table, put_mogwai,
    table_counted, with_mogwai, with_table,
};

verus! {

/// The mogwai that may morph, or the reason why the move is turned down:
/// the mogwai has to belong to the account and to have left its bred phase.
pub open spec fn morph_check(snapshot: HostSnapshot, mogwai_id: BattleMogsId) -> Result<Asset, TransitionError> {
    match owned_mogwai_found(snapshot.records@, mogwai_id) {
        Err(error) => Err(error),
        Ok(asset) => if mogwai_of(asset).phase == PhaseType::Bred {
            Err(TransitionError::Transition { code: MOGWAI_STILL_IN_BRED_PHASE })
        } else {
            Ok(asset)
        },
    }
}

/// What comes of the morph of the mogwai in `asset`: the account pays the
/// fee into the mogwai, and the mogwai goes one phase on, with DNA and
/// rarity as the kernel gave them. A mogwai in its last phase stays in
/// it. Where the table named by the move is a table of the account, it is
/// written behind the mogwai with one morph more.
pub open spec fn morphed(
    snapshot: HostSnapshot,
    mogwai_id: BattleMogsId,
    asset: Asset,
    table_id: BattleMogsId,
    dna: [[u8; 32]; 2],
    rarity: RarityType,
) -> PlanView {
    PlanView {
        moves: seq![FundMove::Deposit { asset: mogwai_id, amount: MILLIARD as u128 }],
        outputs: with_table(
            seq![
                TransitionOutput::Mutated(
                    mogwai_id,
                    with_mogwai(
                        asset,
                        Mogwai { dna, rarity, phase: mogwai_of(asset).phase.morphed(), ..mogwai_of(asset) },
                    ),
                ),
            ],
            table_id,
            table_counted(snapshot.records@, table_id, AchievementKind::Morpheus),
        ),
    }
}

/// What comes of the morph of the mogwai under `mogwai_id` where the
/// kernel has answered `dna` and `rarity`.
pub open spec fn morph_plan(
    snapshot: HostSnapshot,
    mogwai_id: BattleMogsId,
    table_id: BattleMogsId,
    dna: [[u8; 32]; 2],
    rarity: RarityType,
) -> Result<PlanView, TransitionError> {
    match morph_check(snapshot, mogwai_id) {
        Err(error) => Err(error),
        Ok(asset) => Ok(morphed(snapshot, mogwai_id, asset, table_id, dna, rarity)),
    }
}

/// Whether `result` is what comes of the morph of the mogwai under
/// `mogwai_id` with the kernel `K`. The kernel is asked to segment the DNA
/// and to bake the rarity of the mogwai with the hash drawn for the move.
pub open spec fn morph_post<K: BreedingKernel>(
    snapshot: HostSnapshot,
    draws: RandomDraws,
    mogwai_id: BattleMogsId,
    table_id: BattleMogsId,
    result: Result<TransitionPlan, TransitionError>,
) -> bool {
    match morph_check(snapshot, mogwai_id) {
        Err(error) => result matches Err(given) && given == error,
        Ok(asset) => exists|dna: [[u8; 32]; 2], rarity: RarityType|
            {
                &&& segmented::<K>(mogwai_of(asset).dna, draws.mogwai_morph, dna)
                &&& baked::<K>(mogwai_of(asset).rarity, draws.mogwai_morph, rarity)
                &&& comes_to(result, #[trigger] morph_plan(snapshot, mogwai_id, table_id, dna, rarity))
            },
    }
}

impl BattleMogsTransition {
    /// The mogwai under `mogwai_id`, where it may morph.
    pub fn check_morph(snapshot: &HostSnapshot, mogwai_id: &BattleMogsId) -> (result: Result<Asset, TransitionError>)
        ensures
            result == morph_check(*snapshot, *mogwai_id),
    {
        let mut asset = snapshot.get_owned_mogwai(mogwai_id)?;
        let mogwai = *asset.as_mogwai()?;
        if mogwai.phase == PhaseType::Bred {
            return Err(BattleMogsError::from(MOGWAI_STILL_IN_BRED_PHASE));
        }
        Ok(asset)
    }

    /// Plans the morph of the mogwai under `mogwai_id` for a kernel that
    /// has answered `dna` and `rarity`.
    pub fn plan_morph(
        snapshot: &HostSnapshot,
        mogwai_id: &BattleMogsId,
        table_id: &BattleMogsId,
        dna: [[u8; 32]; 2],
        rarity: RarityType,
    ) -> (result: Result<TransitionPlan, TransitionError>)
        ensures
            comes_to(result, morph_plan(*snapshot, *mogwai_id, *table_id, dna, rarity)),
    {
        let mut asset = Self::check_morph(snapshot, mogwai_id)?;
        let mogwai = *asset.as_mogwai()?;
        let morphed_mogwai = Mogwai { dna, generation: mogwai.generation, rarity, phase: mogwai.phase.next_phase() };
        let table = count_achievement(snapshot, table_id, AchievementKind::Morpheus);
        let outputs = push_table(
            vec![TransitionOutput::Mutated(*mogwai_id, put_mogwai(asset, morphed_mogwai))],
            table_id,
            table,
        );
        let plan = plan_of(
            vec![FundMove::Deposit { asset: *mogwai_id, amount: Pricing::fee_price(FeeType::Default) }],
            outputs,
        );
        proof {
            let expected = morphed(*snapshot, *mogwai_id, asset, *table_id, dna, rarity);
            assert(plan@.outputs =~= expected.outputs);
            assert(plan@.moves =~= expected.moves);
        }
        Ok(plan)
    }

    pub fn morph_mogwai<K: BreedingKernel>(
        snapshot: &HostSnapshot,
        draws: &RandomDraws,
        mogwai_id: &BattleMogsId,
        table_id: &BattleMogsId,
    ) -> (result: Result<TransitionPlan, TransitionError>)
        ensures
            morph_post::<K>(*snapshot, *draws, *mogwai_id, *table_id, result),
    {
        let mut asset = Self::check_morph(snapshot, mogwai_id)?;
        let mogwai = *asset.as_mogwai()?;
        let (dna, rarity) = Self::segment_and_bake::<K>(&mogwai, &draws.mogwai_morph);
        Self::plan_morph(snapshot, mogwai_id, table_id, dna, rarity)
    }
}

} // verus!
