//! A player joins the game.

use vstd::prelude::*;
use crate::battlemogs::achievement_table::{AchievementState, AchievementTable};
use crate::battlemogs::asset::{BattleMogsAsset, BattleMogsVariant};
use crate::battlemogs::error::{TransitionError, PLAYER_ALREADY_HAS_ACHIEVEMENT_TABLE};
use crate::battlemogs::host::{
    BattleMogsTransitionConfig, HostSnapshot, RandomDraws, TransitionOutput, TransitionPlan, minted_id, new_asset_id,
    owns_table,
};
use crate::battlemogs::transitions::{BattleMogsTransition, PlanView, comes_to, outputs_only, plan_of};

verus! {

/// The table of a player who has achieved nothing yet, with the targets that `config` sets.
pub open spec fn fresh_table(config: BattleMogsTransitionConfig) -> AchievementTable {
    AchievementTable {
        egg_hatcher: AchievementState::InProgress { current: 0, target: config.target_egg_hatcher },
        sacrificer: AchievementState::InProgress { current: 0, target: config.target_sacrificer },
        morpheus: AchievementState::InProgress { current: 0, target: config.target_morpheus },
        legend_breeder: AchievementState::InProgress { current: 0, target: config.target_legend_breeder },
        promiscuous: AchievementState::InProgress { current: 0, target: config.target_promiscuous },
    }
}

/// What comes of joining the game: a fresh table, made at the height of
/// the move. A player who has a table gets no second one.
pub open spec fn registered(snapshot: HostSnapshot, draws: RandomDraws) -> Result<PlanView, TransitionError> {
    if owns_table(snapshot.records@) {
        Err(TransitionError::Transition { code: PLAYER_ALREADY_HAS_ACHIEVEMENT_TABLE })
    } else {
        Ok(
            outputs_only(
                seq![
                    TransitionOutput::Minted(
                        BattleMogsAsset {
                            id: minted_id(draws.mogwai_id, snapshot.block_number),
                            genesis: snapshot.block_number,
                            variant: BattleMogsVariant::AchievementTable(fresh_table(snapshot.config)),
                        },
                    ),
                ],
            ),
        )
    }
}

/// Whether `result` is what comes of joining the game.
pub open spec fn register_post(
    snapshot: HostSnapshot,
    draws: RandomDraws,
    result: Result<TransitionPlan, TransitionError>,
) -> bool {
    comes_to(result, registered(snapshot, draws))
}

impl BattleMogsTransition {
    pub fn register_player(snapshot: &HostSnapshot, draws: &RandomDraws) -> (result: Result<
        TransitionPlan,
        TransitionError,
    >)
        ensures
            register_post(*snapshot, *draws, result),
    {
        snapshot.ensure_has_not_achievement_table()?;
        let config = snapshot.config;
        let table = AchievementTable {
            egg_hatcher: AchievementState::InProgress { current: 0, target: config.target_egg_hatcher },
            sacrificer: AchievementState::InProgress { current: 0, target: config.target_sacrificer },
            morpheus: AchievementState::InProgress { current: 0, target: config.target_morpheus },
            legend_breeder: AchievementState::InProgress { current: 0, target: config.target_legend_breeder },
            promiscuous: AchievementState::InProgress { current: 0, target: config.target_promiscuous },
        };
        let block_number = snapshot.block_number;
        let table_id = new_asset_id(&draws.mogwai_id, block_number);
        let asset = BattleMogsAsset {
            id: table_id,
            genesis: block_number,
            variant: BattleMogsVariant::AchievementTable(table),
        };
        let plan = plan_of(Vec::new(), vec![TransitionOutput::Minted(asset)]);
        proof {
            let expected = registered(*snapshot, *draws)->Ok_0;
            assert(plan@.outputs =~= expected.outputs);
        }
        Ok(plan)
    }
}

} // verus!
