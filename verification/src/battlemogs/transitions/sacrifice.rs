//! A player sacrifices a mogwai and takes back a share of its funds.

use vstd::prelude::*;
use crate::battlemogs::achievement_table::AchievementKind;
use crate::battlemogs::asset::BattleMogsId;
use crate::battlemogs::config::{Balance, Pricing, intrinsic_divisor};
use crate::battlemogs::error::{BattleMogsError, TransitionError, MOGWAI_STILL_IN_BRED_PHASE};
use crate::battlemogs::host::{
    FundMove, HostSnapshot, TransitionOutput, TransitionPlan, funds_of, owned_mogwai_found,
};
use crate::battlemogs::mogwai::PhaseType;
use crate::battlemogs::transitions::{
    BattleMogsTransition, PlanView, comes_to, count_achievement, mogwai_of, plan_of, push_table, table_counted,
    with_table,
};

verus! {

/// The funds that a mogwai in `phase` gives back out of `funds`: the
/// funds divided by the divisor of the phase, rounded down, and nothing
/// where the phase has no divisor.
pub open spec fn intrinsic_share(funds: Balance, phase: PhaseType) -> Balance {
    if intrinsic_divisor(phase) == 0 {
        0
    } else {
        (funds as int / intrinsic_divisor(phase)) as Balance
    }
}

/// What comes of sacrificing the mogwai under `mogwai_id`: the account
/// takes the share of the funds out of the mogwai, and the mogwai is
/// consumed. The mogwai has to belong to the account and to have left its
/// bred phase. Where the table named by the move is a table of the
/// account, it is written behind with one sacrifice more.
pub open spec fn sacrificed(snapshot: HostSnapshot, mogwai_id: BattleMogsId, table_id: BattleMogsId) -> Result<
    PlanView,
    TransitionError,
> {
    match owned_mogwai_found(snapshot.records@, mogwai_id) {
        Err(error) => Err(error),
        Ok(asset) => if mogwai_of(asset).phase == PhaseType::Bred {
            Err(TransitionError::Transition { code: MOGWAI_STILL_IN_BRED_PHASE })
        } else {
            Ok(
                PlanView {
                    moves: seq![
                        FundMove::Withdraw {
                            asset: mogwai_id,
                            amount: intrinsic_share(funds_of(snapshot.records@, mogwai_id), mogwai_of(asset).phase),
                        },
                    ],
                    outputs: with_table(
                        seq![TransitionOutput::Consumed(mogwai_id)],
                        table_id,
                        table_counted(snapshot.records@, table_id, AchievementKind::Sacrificer),
                    ),
                },
            )
        },
    }
}

/// Whether `result` is what comes of sacrificing the mogwai under `mogwai_id`.
pub open spec fn sacrifice_post(
    snapshot: HostSnapshot,
    mogwai_id: BattleMogsId,
    table_id: BattleMogsId,
    result: Result<TransitionPlan, TransitionError>,
) -> bool {
    comes_to(result, sacrificed(snapshot, mogwai_id, table_id))
}

impl BattleMogsTransition {
    pub fn sacrifice_mogwai(snapshot: &HostSnapshot, mogwai_id: &BattleMogsId, table_id: &BattleMogsId) -> (result:
        Result<TransitionPlan, TransitionError>)
        ensures
            sacrifice_post(*snapshot, *mogwai_id, *table_id, result),
    {
        let mut asset = snapshot.get_owned_mogwai(mogwai_id)?;
        let mogwai = *asset.as_mogwai()?;
        if mogwai.phase == PhaseType::Bred {
            return Err(BattleMogsError::from(MOGWAI_STILL_IN_BRED_PHASE));
        }
        let intrinsic_to_deposit = {
            let mogwai_funds = snapshot.inspect_asset_funds(mogwai_id);
            let intrinsic_return = Pricing::intrinsic_return(mogwai.phase);
            match mogwai_funds.checked_div(intrinsic_return) {
                Some(share) => share,
                None => 0,
            }
        };
        let table = count_achievement(snapshot, table_id, AchievementKind::Sacrificer);
        let outputs = push_table(vec![TransitionOutput::Consumed(*mogwai_id)], table_id, table);
        let plan = plan_of(vec![FundMove::Withdraw { asset: *mogwai_id, amount: intrinsic_to_deposit }], outputs);
        proof {
            let expected = sacrificed(*snapshot, *mogwai_id, *table_id)->Ok_0;
            assert(plan@.outputs =~= expected.outputs);
            assert(plan@.moves =~= expected.moves);
        }
        Ok(plan)
    }
}

} // verus!
