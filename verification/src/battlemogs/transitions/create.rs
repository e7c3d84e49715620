//! A player makes a mogwai out of nothing.

use vstd::prelude::*;
use crate::battlemogs::asset::{BattleMogsAsset, BattleMogsVariant};
use crate::battlemogs::error::{TransitionError, MOGWAI_LIMIT_REACHED};
use crate::battlemogs::host::{
    HostSnapshot, RandomDraws, TransitionOutput, TransitionPlan, minted_id, new_asset_id, owned_mogwais,
};
use crate::battlemogs::kernel::{BreedType, BreedingKernel, NextGeneration, breed_type_at, generated, paired};
use crate::battlemogs::mogwai::{Mogwai, MogwaiGeneration, PhaseType, RarityType};
use crate::battlemogs::transitions::{
    BattleMogsTransition, PlanView, comes_to, outputs_only, packed_rarity, plan_of, unpacked_rarity,
};

verus! {

/// Whether the account has room for one more mogwai: it fails where the
/// account owns more mogwais than the rules allow.
pub open spec fn room_for_mogwai(snapshot: HostSnapshot) -> Result<(), TransitionError> {
    if owned_mogwais(snapshot.records@, snapshot.records@.len() as int) > snapshot.config.max_mogwais {
        Err(TransitionError::Transition { code: MOGWAI_LIMIT_REACHED })
    } else {
        Ok(())
    }
}

/// What comes of making a mogwai: a mogwai in its bred phase, made at the
/// height of the move, with rarity, generation and DNA as the kernel gave them.
pub open spec fn created(
    snapshot: HostSnapshot,
    draws: RandomDraws,
    next: NextGeneration,
    dna: [[u8; 32]; 2],
) -> PlanView {
    outputs_only(
        seq![
            TransitionOutput::Minted(
                BattleMogsAsset {
                    id: minted_id(draws.mogwai_id, snapshot.block_number),
                    genesis: snapshot.block_number,
                    variant: BattleMogsVariant::Mogwai(
                        Mogwai { dna, generation: next.generation, rarity: next.rarity, phase: PhaseType::Bred },
                    ),
                },
            ),
        ],
    )
}

/// What comes of making a mogwai where the kernel has answered `next`
/// and `dna`: the mogwai, or the reason why the account can make none.
pub open spec fn create_plan(
    snapshot: HostSnapshot,
    draws: RandomDraws,
    next: NextGeneration,
    dna: [[u8; 32]; 2],
) -> Result<PlanView, TransitionError> {
    match room_for_mogwai(snapshot) {
        Err(error) => Err(error),
        Ok(_) => Ok(created(snapshot, draws, next, dna)),
    }
}

/// Whether `result` is what comes of making a mogwai with the kernel `K`.
/// The kernel is asked for the child of two common mogwais of the first
/// generation, and for the pairing of the two hashes drawn for the move.
pub open spec fn create_post<K: BreedingKernel>(
    snapshot: HostSnapshot,
    draws: RandomDraws,
    result: Result<TransitionPlan, TransitionError>,
) -> bool {
    match room_for_mogwai(snapshot) {
        Err(error) => result matches Err(given) && given == error,
        Ok(_) => exists|next: NextGeneration, dna: [[u8; 32]; 2]|
            {
                &&& generated::<K>(
                    MogwaiGeneration::First,
                    RarityType::Common,
                    MogwaiGeneration::First,
                    RarityType::Common,
                    draws.create_mogwai,
                    next,
                )
                &&& paired::<K>(
                    breed_type_at(snapshot.block_number as int),
                    draws.create_mogwai,
                    draws.extend_mogwai,
                    dna,
                )
                &&& comes_to(result, #[trigger] create_plan(snapshot, draws, next, dna))
            },
    }
}

impl BattleMogsTransition {
    /// Plans the making of a mogwai for a kernel that has answered `next` and `dna`.
    pub fn plan_create(
        snapshot: &HostSnapshot,
        draws: &RandomDraws,
        next: NextGeneration,
        dna: [[u8; 32]; 2],
    ) -> (result: Result<TransitionPlan, TransitionError>)
        ensures
            comes_to(result, create_plan(*snapshot, *draws, next, dna)),
    {
        // ensure that we have enough space
        snapshot.ensure_not_max_mogwais()?;
        let block_number = snapshot.block_number;
        let mogwai_id = new_asset_id(&draws.mogwai_id, block_number);
        let rarity = unpacked_rarity(packed_rarity(next.rarity, next.max_rarity));
        let mogwai = Mogwai { dna, generation: next.generation, rarity, phase: PhaseType::Bred };
        let asset = BattleMogsAsset {
            id: mogwai_id,
            genesis: block_number,
            variant: BattleMogsVariant::Mogwai(mogwai),
        };
        let plan = plan_of(Vec::new(), vec![TransitionOutput::Minted(asset)]);
        proof {
            let expected = created(*snapshot, *draws, next, dna);
            assert(plan@.outputs =~= expected.outputs);
        }
        Ok(plan)
    }

    pub fn create_mogwai<K: BreedingKernel>(snapshot: &HostSnapshot, draws: &RandomDraws) -> (result: Result<
        TransitionPlan,
        TransitionError,
    >)
        ensures
            create_post::<K>(*snapshot, *draws, result),
    {
        snapshot.ensure_not_max_mogwais()?;
        let next_generation = K::next_gen(
            MogwaiGeneration::First,
            RarityType::Common,
            MogwaiGeneration::First,
            RarityType::Common,
            &draws.create_mogwai,
        );
        let breed_type = BreedType::calculate_breed_type(snapshot.block_number);
        let final_dna = K::pairing(breed_type, &draws.create_mogwai, &draws.extend_mogwai);
        Self::plan_create(snapshot, draws, next_generation, final_dna)
    }
}

} // verus!
