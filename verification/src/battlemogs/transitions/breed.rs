//! Two mogwais have a child.

use vstd::prelude::*;
use crate::battlemogs::achievement_table::AchievementKind;
use crate::battlemogs::asset::{BattleMogsAsset, BattleMogsId, BattleMogsVariant};
use crate::battlemogs::config::{Pricing, pairing_price};
use crate::battlemogs::error::{
    BattleMogsError, TransitionError, CANNOT_USE_SAME_ASSET_FOR_BREEDING, MOGWAI_STILL_IN_BRED_PHASE,
};
use crate::battlemogs::host::{
    Asset, AssetRecord, FundMove, HostSnapshot, RandomDraws, TransitionOutput, TransitionPlan, is_owned,
    minted_id, mogwai_found, new_asset_id, owned_mogwai_found, owned_table_found,
};
use crate::battlemogs::kernel::{BreedType, BreedingKernel, NextGeneration, breed_type_at, generated, paired};
use crate::battlemogs::mogwai::{Mogwai, PhaseType, RarityType};
use crate::battlemogs::transitions::create::room_for_mogwai;
use crate::battlemogs::transitions::{
    BattleMogsTransition, PlanView, bump_asset, bumped_asset, comes_to, mogwai_of, packed_rarity, plan_of,
    push_table, unpacked_rarity, with_table,
};

verus! {

/// The two parents, or the reason why the move is turned down. The
/// parents have to be two assets. The account has to have room for the
/// child. The first parent has to be a mogwai of the account, the second
/// a mogwai of whomever, and both have to have left their bred phase.
pub open spec fn breed_check(snapshot: HostSnapshot, mogwai_id_1: BattleMogsId, mogwai_id_2: BattleMogsId) -> Result<
    (Asset, Asset),
    TransitionError,
> {
    if mogwai_id_1 == mogwai_id_2 {
        Err(TransitionError::Transition { code: CANNOT_USE_SAME_ASSET_FOR_BREEDING })
    } else {
        match room_for_mogwai(snapshot) {
            Err(error) => Err(error),
            Ok(_) => match owned_mogwai_found(snapshot.records@, mogwai_id_1) {
                Err(error) => Err(error),
                Ok(asset_1) => if mogwai_of(asset_1).phase == PhaseType::Bred {
                    Err(TransitionError::Transition { code: MOGWAI_STILL_IN_BRED_PHASE })
                } else {
                    match mogwai_found(snapshot.records@, mogwai_id_2) {
                        Err(error) => Err(error),
                        Ok(asset_2) => if mogwai_of(asset_2).phase == PhaseType::Bred {
                            Err(TransitionError::Transition { code: MOGWAI_STILL_IN_BRED_PHASE })
                        } else {
                            Ok((asset_1, asset_2))
                        },
                    }
                },
            },
        }
    }
}

/// What sets the id of the child apart from others of the same block.
pub open spec fn breed_nonce(mogwai_id_1: BattleMogsId, mogwai_id_2: BattleMogsId) -> u64 {
    if mogwai_id_1 + mogwai_id_2 > u64::MAX {
        (u64::MAX % 31) as u64
    } else {
        ((mogwai_id_1 + mogwai_id_2) % 31) as u64
    }
}

/// The table after the breeding: one more for the breeder of legends
/// where the child is mythical, and one more for the promiscuous where
/// the second parent is not the account's own.
pub open spec fn breeder_table(table: Asset, mythical: bool, foreign: bool) -> Asset {
    let first = if mythical {
        bumped_asset(table, AchievementKind::LegendBreeder)
    } else {
        table
    };
    if foreign {
        bumped_asset(first, AchievementKind::Promiscuous)
    } else {
        first
    }
}

/// The table to write after the breeding: the table of the account under
/// `table_id`, where the account has one there and it has counted something.
pub open spec fn breeder_table_counted(
    records: Seq<AssetRecord>,
    table_id: BattleMogsId,
    mythical: bool,
    foreign: bool,
) -> Option<Asset> {
    match owned_table_found(records, table_id) {
        Err(_) => None,
        Ok(table) => if mythical || foreign {
            Some(breeder_table(table, mythical, foreign))
        } else {
            None
        },
    }
}

/// What comes of the breeding: the account pays the price of the pairing
/// into the second parent, and the child is made in its bred phase at the
/// height of the move, with rarity, generation and DNA as the kernel gave
/// them. The table is written behind the child where it has counted something.
pub open spec fn bred(
    snapshot: HostSnapshot,
    draws: RandomDraws,
    mogwai_id_1: BattleMogsId,
    asset_1: Asset,
    mogwai_id_2: BattleMogsId,
    asset_2: Asset,
    table_id: BattleMogsId,
    next: NextGeneration,
    dna: [[u8; 32]; 2],
) -> PlanView {
    let child = BattleMogsAsset {
        id: minted_id(draws.breed_mogwai, breed_nonce(mogwai_id_1, mogwai_id_2)),
        genesis: snapshot.block_number,
        variant: BattleMogsVariant::Mogwai(
            Mogwai { dna, generation: next.generation, rarity: next.rarity, phase: PhaseType::Bred },
        ),
    };
    PlanView {
        moves: seq![
            FundMove::Deposit {
                asset: mogwai_id_2,
                amount: pairing_price(mogwai_of(asset_1).rarity.number() + mogwai_of(asset_2).rarity.number()) as u128,
            },
        ],
        outputs: with_table(
            seq![TransitionOutput::Minted(child)],
            table_id,
            breeder_table_counted(
                snapshot.records@,
                table_id,
                next.rarity == RarityType::Mythical,
                !is_owned(snapshot.records@, mogwai_id_2),
            ),
        ),
    }
}

/// What comes of the breeding of the mogwais under `mogwai_id_1` and
/// `mogwai_id_2` where the kernel has answered `next` and `dna`.
pub open spec fn breed_plan(
    snapshot: HostSnapshot,
    draws: RandomDraws,
    mogwai_id_1: BattleMogsId,
    mogwai_id_2: BattleMogsId,
    table_id: BattleMogsId,
    next: NextGeneration,
    dna: [[u8; 32]; 2],
) -> Result<PlanView, TransitionError> {
    match breed_check(snapshot, mogwai_id_1, mogwai_id_2) {
        Err(error) => Err(error),
        Ok((asset_1, asset_2)) => Ok(
            bred(snapshot, draws, mogwai_id_1, asset_1, mogwai_id_2, asset_2, table_id, next, dna),
        ),
    }
}

/// Whether `result` is what comes of the breeding with the kernel `K`. The
/// kernel is asked for the child of the two parents, and for the pairing
/// of their dominant rows.
pub open spec fn breed_post<K: BreedingKernel>(
    snapshot: HostSnapshot,
    draws: RandomDraws,
    mogwai_id_1: BattleMogsId,
    mogwai_id_2: BattleMogsId,
    table_id: BattleMogsId,
    result: Result<TransitionPlan, TransitionError>,
) -> bool {
    match breed_check(snapshot, mogwai_id_1, mogwai_id_2) {
        Err(error) => result matches Err(given) && given == error,
        Ok((asset_1, asset_2)) => exists|next: NextGeneration, dna: [[u8; 32]; 2]|
            {
                &&& generated::<K>(
                    mogwai_of(asset_1).generation,
                    mogwai_of(asset_1).rarity,
                    mogwai_of(asset_2).generation,
                    mogwai_of(asset_2).rarity,
                    draws.breed_next_gen,
                    next,
                )
                &&& paired::<K>(
                    breed_type_at(snapshot.block_number as int),
                    mogwai_of(asset_1).dna[0],
                    mogwai_of(asset_2).dna[0],
                    dna,
                )
                &&& comes_to(
                    result,
                    #[trigger] breed_plan(snapshot, draws, mogwai_id_1, mogwai_id_2, table_id, next, dna),
                )
            },
    }
}

impl BattleMogsTransition {
    /// The two parents, where they may breed.
    pub fn check_breed(snapshot: &HostSnapshot, mogwai_id_1: &BattleMogsId, mogwai_id_2: &BattleMogsId) -> (result:
        Result<(Asset, Asset), TransitionError>)
        ensures
            result == breed_check(*snapshot, *mogwai_id_1, *mogwai_id_2),
    {
        if *mogwai_id_1 == *mogwai_id_2 {
            return Err(BattleMogsError::from(CANNOT_USE_SAME_ASSET_FOR_BREEDING));
        }
        snapshot.ensure_not_max_mogwais()?;
        let mut asset_1 = snapshot.get_owned_mogwai(mogwai_id_1)?;
        let mogwai_1 = *asset_1.as_mogwai()?;
        if mogwai_1.phase == PhaseType::Bred {
            return Err(BattleMogsError::from(MOGWAI_STILL_IN_BRED_PHASE));
        }
        let mut asset_2 = snapshot.get_mogwai(mogwai_id_2)?;
        let mogwai_2 = *asset_2.as_mogwai()?;
        if mogwai_2.phase == PhaseType::Bred {
            return Err(BattleMogsError::from(MOGWAI_STILL_IN_BRED_PHASE));
        }
        Ok((asset_1, asset_2))
    }

    /// Plans the breeding of the mogwais under `mogwai_id_1` and
    /// `mogwai_id_2` for a kernel that has answered `next` and `dna`.
    pub fn plan_breed(
        snapshot: &HostSnapshot,
        draws: &RandomDraws,
        mogwai_id_1: &BattleMogsId,
        mogwai_id_2: &BattleMogsId,
        table_id: &BattleMogsId,
        next: NextGeneration,
        dna: [[u8; 32]; 2],
    ) -> (result: Result<TransitionPlan, TransitionError>)
        ensures
            comes_to(result, breed_plan(*snapshot, *draws, *mogwai_id_1, *mogwai_id_2, *table_id, next, dna)),
    {
        let (asset_1, asset_2) = Self::check_breed(snapshot, mogwai_id_1, mogwai_id_2)?;
        let mut asset_1 = asset_1;
        let mut asset_2 = asset_2;
        let mogwai_1 = *asset_1.as_mogwai()?;
        let mogwai_2 = *asset_2.as_mogwai()?;
        let mogwai_nonce: u64 = mogwai_id_1.saturating_add(*mogwai_id_2) % 31;
        let mogwai_id = new_asset_id(&draws.breed_mogwai, mogwai_nonce);
        let block_number = snapshot.block_number;
        let pairing_price = Pricing::pairing(mogwai_1.rarity, mogwai_2.rarity);
        let mogwai_rarity = unpacked_rarity(packed_rarity(next.rarity, next.max_rarity));
        let bred_mogwai = Mogwai { dna, generation: next.generation, rarity: mogwai_rarity, phase: PhaseType::Bred };
        let bred_asset = BattleMogsAsset {
            id: mogwai_id,
            genesis: block_number,
            variant: BattleMogsVariant::Mogwai(bred_mogwai),
        };
        let mythical = mogwai_rarity == RarityType::Mythical;
        let is_mogwai_2_owned = snapshot.ensure_ownership(mogwai_id_2).is_ok();
        let table = match snapshot.get_owned_achievement_table(table_id) {
            Ok(table) => {
                if mythical || !is_mogwai_2_owned {
                    let mut counted = table;
                    if mythical {
                        counted = bump_asset(counted, AchievementKind::LegendBreeder);
                    }
                    if !is_mogwai_2_owned {
                        counted = bump_asset(counted, AchievementKind::Promiscuous);
                    }
                    Some(counted)
                } else {
                    None
                }
            },
            Err(_) => None,
        };
        let outputs = push_table(vec![TransitionOutput::Minted(bred_asset)], table_id, table);
        let plan = plan_of(vec![FundMove::Deposit { asset: *mogwai_id_2, amount: pairing_price }], outputs);
        proof {
            let expected = bred(
                *snapshot,
                *draws,
                *mogwai_id_1,
                asset_1,
                *mogwai_id_2,
                asset_2,
                *table_id,
                next,
                dna,
            );
            assert(plan@.outputs =~= expected.outputs);
            assert(plan@.moves =~= expected.moves);
        }
        Ok(plan)
    }

    pub fn breed_mogwais<K: BreedingKernel>(
        snapshot: &HostSnapshot,
        draws: &RandomDraws,
        mogwai_id_1: &BattleMogsId,
        mogwai_id_2: &BattleMogsId,
        table_id: &BattleMogsId,
    ) -> (result: Result<TransitionPlan, TransitionError>)
        ensures
            breed_post::<K>(*snapshot, *draws, *mogwai_id_1, *mogwai_id_2, *table_id, result),
    {
        let (asset_1, asset_2) = Self::check_breed(snapshot, mogwai_id_1, mogwai_id_2)?;
        let mut asset_1 = asset_1;
        let mut asset_2 = asset_2;
        let mogwai_1 = *asset_1.as_mogwai()?;
        let mogwai_2 = *asset_2.as_mogwai()?;
        let next_generation = K::next_gen(
            mogwai_1.generation,
            mogwai_1.rarity,
            mogwai_2.generation,
            mogwai_2.rarity,
            &draws.breed_next_gen,
        );
        let breed_type = BreedType::calculate_breed_type(snapshot.block_number);
        let final_dna = K::pairing(breed_type, &mogwai_1.dna[0], &mogwai_2.dna[0]);
        Self::plan_breed(snapshot, draws, mogwai_id_1, mogwai_id_2, table_id, next_generation, final_dna)
    }
}

} // verus!
