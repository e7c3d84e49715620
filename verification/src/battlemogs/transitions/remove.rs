//! A player gives up a mogwai.

use vstd::prelude::*;
use crate::battlemogs::asset::BattleMogsId;
use crate::battlemogs::error::TransitionError;
use crate::battlemogs::host::{HostSnapshot, TransitionOutput, TransitionPlan, owned_mogwai_found};
use crate::battlemogs::transitions::{BattleMogsTransition, PlanView, comes_to, outputs_only, plan_of};

verus! {

/// What comes of giving up the mogwai under `mogwai_id`: it is consumed,
/// whatever its phase. It has to be a mogwai of the account.
pub open spec fn removed(snapshot: HostSnapshot, mogwai_id: BattleMogsId) -> Result<PlanView, TransitionError> {
    match owned_mogwai_found(snapshot.records@, mogwai_id) {
        Err(error) => Err(error),
        Ok(_) => Ok(outputs_only(seq![TransitionOutput::Consumed(mogwai_id)])),
    }
}

/// Whether `result` is what comes of giving up the mogwai under `mogwai_id`.
pub open spec fn remove_post(
    snapshot: HostSnapshot,
    mogwai_id: BattleMogsId,
    result: Result<TransitionPlan, TransitionError>,
) -> bool {
    comes_to(result, removed(snapshot, mogwai_id))
}

impl BattleMogsTransition {
    pub fn remove_mogwai(snapshot: &HostSnapshot, mogwai_id: &BattleMogsId) -> (result: Result<
        TransitionPlan,
        TransitionError,
    >)
        ensures
            remove_post(*snapshot, *mogwai_id, result),
    {
        snapshot.get_owned_mogwai(mogwai_id)?;
        let plan = plan_of(Vec::new(), vec![TransitionOutput::Consumed(*mogwai_id)]);
        proof {
            let expected = removed(*snapshot, *mogwai_id)->Ok_0;
            assert(plan@.outputs =~= expected.outputs);
        }
        Ok(plan)
    }
}

} // verus!
