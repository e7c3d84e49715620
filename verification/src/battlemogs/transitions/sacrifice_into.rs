//! A player sacrifices one mogwai for the good of another.

use vstd::prelude::*;
use crate::battlemogs::achievement_table::AchievementKind;
use crate::battlemogs::asset::BattleMogsId;
use crate::battlemogs::config::Balance;
use crate::battlemogs::error::{
    BattleMogsError, TransitionError, MOGWAI_HAS_INVALID_RARITY, MOGWAI_STILL_IN_BRED_PHASE,
};
use crate::battlemogs::host::{
    Asset, FundMove, HostSnapshot, TransitionOutput, TransitionPlan, funds_of, owned_mogwai_found,
};
use crate::battlemogs::kernel::{BreedingKernel, jumped};
use crate::battlemogs::mogwai::{Mogwai, MogwaiGeneration, PhaseType, RarityType, generation_from};
use crate::battlemogs::transitions::{
    BattleMogsTransition, PlanView, comes_to, count_achievement, mogwai_of, plan_of, push_table, put_mogwai,
    table_counted, with_mogwai, with_table,
};

verus! {

/// The highest generation.
pub const LAST_GENERATION: u16 = 16;

/// The mogwai under `mogwai_id` as one side of a sacrifice, or the reason
/// why it cannot be: it has to belong to the account, to have left its
/// bred phase, and to be more than common.
pub open spec fn sacrifice_side(snapshot: HostSnapshot, mogwai_id: BattleMogsId) -> Result<Asset, TransitionError> {
    match owned_mogwai_found(snapshot.records@, mogwai_id) {
        Err(error) => Err(error),
        Ok(asset) => if mogwai_of(asset).phase == PhaseType::Bred {
            Err(TransitionError::Transition { code: MOGWAI_STILL_IN_BRED_PHASE })
        } else if mogwai_of(asset).rarity == RarityType::Common {
            Err(TransitionError::Transition { code: MOGWAI_HAS_INVALID_RARITY })
        } else {
            Ok(asset)
        },
    }
}

/// The mogwai that is given and the mogwai that gains, or the reason why
/// the move is turned down. The mogwai that is given is looked at first.
pub open spec fn sacrifice_into_check(
    snapshot: HostSnapshot,
    sacrificed_mogwai_id: BattleMogsId,
    into_mogwai_id: BattleMogsId,
) -> Result<(Asset, Asset), TransitionError> {
    match sacrifice_side(snapshot, sacrificed_mogwai_id) {
        Err(error) => Err(error),
        Ok(sacrificed_asset) => match sacrifice_side(snapshot, into_mogwai_id) {
            Err(error) => Err(error),
            Ok(into_asset) => Ok((sacrificed_asset, into_asset)),
        },
    }
}

/// Whether a jump of `jump` generations takes effect on a mogwai of
/// `generation`: it has to be a jump, and not to lead past the last generation.
pub open spec fn jump_counts(generation: MogwaiGeneration, jump: u8) -> bool {
    jump > 0 && generation.number() + jump <= LAST_GENERATION
}

/// The funds that the sacrifice moves where the kernel has answered
/// `jump`: where the jump counts, the account takes all funds out of the
/// mogwai that is given and puts them into the one that gains.
pub open spec fn sacrifice_moves(
    snapshot: HostSnapshot,
    sacrificed_mogwai_id: BattleMogsId,
    into_mogwai_id: BattleMogsId,
    into_asset: Asset,
    jump: u8,
) -> Seq<FundMove> {
    let funds = funds_of(snapshot.records@, sacrificed_mogwai_id);
    if jump_counts(mogwai_of(into_asset).generation, jump) {
        seq![
            FundMove::Withdraw { asset: sacrificed_mogwai_id, amount: funds },
            FundMove::Deposit { asset: into_mogwai_id, amount: funds },
        ]
    } else {
        Seq::empty()
    }
}

/// The mogwai that gains after the sacrifice: where the jump counts, it
/// has risen by `jump` generations.
pub open spec fn risen(into_asset: Asset, jump: u8) -> Asset {
    let into_mogwai = mogwai_of(into_asset);
    if jump_counts(into_mogwai.generation, jump) {
        with_mogwai(
            into_asset,
            Mogwai { generation: generation_from(into_mogwai.generation.number() + jump), ..into_mogwai },
        )
    } else {
        into_asset
    }
}

/// What comes of the sacrifice where the kernel has answered `jump`: the
/// funds move as the jump says, the mogwai that is given is consumed, and
/// the one that gains is written. Where the table named by the move is a
/// table of the account, it is written behind with one sacrifice more.
pub open spec fn sacrificed_into(
    snapshot: HostSnapshot,
    sacrificed_mogwai_id: BattleMogsId,
    into_mogwai_id: BattleMogsId,
    into_asset: Asset,
    table_id: BattleMogsId,
    jump: u8,
) -> PlanView {
    PlanView {
        moves: sacrifice_moves(snapshot, sacrificed_mogwai_id, into_mogwai_id, into_asset, jump),
        outputs: with_table(
            seq![
                TransitionOutput::Consumed(sacrificed_mogwai_id),
                TransitionOutput::Mutated(into_mogwai_id, risen(into_asset, jump)),
            ],
            table_id,
            table_counted(snapshot.records@, table_id, AchievementKind::Sacrificer),
        ),
    }
}

/// What comes of the sacrifice of one mogwai into another where the
/// kernel has answered `jump`.
pub open spec fn sacrifice_into_plan(
    snapshot: HostSnapshot,
    sacrificed_mogwai_id: BattleMogsId,
    into_mogwai_id: BattleMogsId,
    table_id: BattleMogsId,
    jump: u8,
) -> Result<PlanView, TransitionError> {
    match sacrifice_into_check(snapshot, sacrificed_mogwai_id, into_mogwai_id) {
        Err(error) => Err(error),
        Ok((_, into_asset)) => Ok(
            sacrificed_into(snapshot, sacrificed_mogwai_id, into_mogwai_id, into_asset, table_id, jump),
        ),
    }
}

/// Whether `result` is what comes of the sacrifice with the kernel `K`.
/// The kernel is asked for the jump from the two mogwais as the host keeps them.
pub open spec fn sacrifice_into_post<K: BreedingKernel>(
    snapshot: HostSnapshot,
    sacrificed_mogwai_id: BattleMogsId,
    into_mogwai_id: BattleMogsId,
    table_id: BattleMogsId,
    result: Result<TransitionPlan, TransitionError>,
) -> bool {
    match sacrifice_into_check(snapshot, sacrificed_mogwai_id, into_mogwai_id) {
        Err(error) => result matches Err(given) && given == error,
        Ok((sacrificed_asset, into_asset)) => exists|jump: u8|
            {
                &&& jumped::<K>(mogwai_of(sacrificed_asset), mogwai_of(into_asset), jump)
                &&& comes_to(
                    result,
                    #[trigger] sacrifice_into_plan(snapshot, sacrificed_mogwai_id, into_mogwai_id, table_id, jump),
                )
            },
    }
}

impl BattleMogsTransition {
    /// The mogwai under `mogwai_id` as one side of a sacrifice.
    pub fn get_sacrifice_side(snapshot: &HostSnapshot, mogwai_id: &BattleMogsId) -> (result: Result<
        Asset,
        TransitionError,
    >)
        ensures
            result == sacrifice_side(*snapshot, *mogwai_id),
    {
        let mut asset = snapshot.get_owned_mogwai(mogwai_id)?;
        let mogwai = *asset.as_mogwai()?;
        if mogwai.phase == PhaseType::Bred {
            return Err(BattleMogsError::from(MOGWAI_STILL_IN_BRED_PHASE));
        }
        if mogwai.rarity == RarityType::Common {
            return Err(BattleMogsError::from(MOGWAI_HAS_INVALID_RARITY));
        }
        Ok(asset)
    }

    /// The mogwai that is given and the mogwai that gains.
    pub fn check_sacrifice_into(
        snapshot: &HostSnapshot,
        sacrificed_mogwai_id: &BattleMogsId,
        into_mogwai_id: &BattleMogsId,
    ) -> (result: Result<(Asset, Asset), TransitionError>)
        ensures
            result == sacrifice_into_check(*snapshot, *sacrificed_mogwai_id, *into_mogwai_id),
    {
        let sacrificed_asset = Self::get_sacrifice_side(snapshot, sacrificed_mogwai_id)?;
        let into_asset = Self::get_sacrifice_side(snapshot, into_mogwai_id)?;
        Ok((sacrificed_asset, into_asset))
    }

    /// Plans the sacrifice of one mogwai into another for a kernel that
    /// has answered `jump`.
    pub fn plan_sacrifice_into(
        snapshot: &HostSnapshot,
        sacrificed_mogwai_id: &BattleMogsId,
        into_mogwai_id: &BattleMogsId,
        table_id: &BattleMogsId,
        jump: u8,
    ) -> (result: Result<TransitionPlan, TransitionError>)
        ensures
            comes_to(
                result,
                sacrifice_into_plan(*snapshot, *sacrificed_mogwai_id, *into_mogwai_id, *table_id, jump),
            ),
    {
        let (_, into_asset) = Self::check_sacrifice_into(snapshot, sacrificed_mogwai_id, into_mogwai_id)?;
        let mut into_asset = into_asset;
        let into_mogwai = *into_asset.as_mogwai()?;
        let gen_jump: u16 = jump as u16;
        let mut moves: Vec<FundMove> = Vec::new();
        let mut into_asset_after = into_asset;
        if gen_jump > 0 && into_mogwai.generation.as_u16() + gen_jump <= LAST_GENERATION {
            let sacrifice_funds: Balance = snapshot.inspect_asset_funds(sacrificed_mogwai_id);
            moves.push(FundMove::Withdraw { asset: *sacrificed_mogwai_id, amount: sacrifice_funds });
            moves.push(FundMove::Deposit { asset: *into_mogwai_id, amount: sacrifice_funds });
            let lifted = Mogwai {
                dna: into_mogwai.dna,
                generation: MogwaiGeneration::coerce_from(into_mogwai.generation.as_u16() + gen_jump),
                rarity: into_mogwai.rarity,
                phase: into_mogwai.phase,
            };
            into_asset_after = put_mogwai(into_asset, lifted);
        }
        let table = count_achievement(snapshot, table_id, AchievementKind::Sacrificer);
        let outputs = push_table(
            vec![
                TransitionOutput::Consumed(*sacrificed_mogwai_id),
                TransitionOutput::Mutated(*into_mogwai_id, into_asset_after),
            ],
            table_id,
            table,
        );
        let plan = plan_of(moves, outputs);
        proof {
            let expected = sacrificed_into(
                *snapshot,
                *sacrificed_mogwai_id,
                *into_mogwai_id,
                into_asset,
                *table_id,
                jump,
            );
            assert(plan@.outputs =~= expected.outputs);
            assert(plan@.moves =~= expected.moves);
        }
        Ok(plan)
    }

    pub fn sacrifice_mogwai_into<K: BreedingKernel>(
        snapshot: &HostSnapshot,
        sacrificed_mogwai_id: &BattleMogsId,
        into_mogwai_id: &BattleMogsId,
        table_id: &BattleMogsId,
    ) -> (result: Result<TransitionPlan, TransitionError>)
        ensures
            sacrifice_into_post::<K>(*snapshot, *sacrificed_mogwai_id, *into_mogwai_id, *table_id, result),
    {
        let (sacrificed_asset, into_asset) = Self::check_sacrifice_into(
            snapshot,
            sacrificed_mogwai_id,
            into_mogwai_id,
        )?;
        let mut sacrificed_asset = sacrificed_asset;
        let mut into_asset = into_asset;
        let sacrificed_mogwai = *sacrificed_asset.as_mogwai()?;
        let into_mogwai = *into_asset.as_mogwai()?;
        let jump = K::sacrifice(
            sacrificed_mogwai.generation,
            sacrificed_mogwai.rarity,
            &sacrificed_mogwai.dna,
            into_mogwai.generation,
            into_mogwai.rarity,
            &into_mogwai.dna,
        );
        Self::plan_sacrifice_into(snapshot, sacrificed_mogwai_id, into_mogwai_id, table_id, jump)
    }
}

} // verus!
