//! What holds of every move.

use vstd::prelude::*;
use crate::battlemogs::asset::BattleMogsId;
use crate::battlemogs::error::{TransitionError, MOGWAI_NOT_IN_BRED_PHASE};
use crate::battlemogs::host::{
    AssetRecord, FundMove, HostSnapshot, RandomDraws, TransitionOutput, TransitionPlan, funds_of,
    owned_mogwai_found, record_from, record_of,
};
use crate::battlemogs::kernel::{
    BreedType, BreedingKernel, NextGeneration, baked, generated, jumped, paired, segmented,
};
use crate::battlemogs::mogwai::{Mogwai, MogwaiGeneration, PhaseType, RarityType};
use crate::battlemogs::transitions::breed::{breed_check, breed_plan};
use crate::battlemogs::transitions::create::{create_plan, room_for_mogwai};
use crate::battlemogs::transitions::hatch::{TIME_TILL_HATCH, hatch_check, hatch_plan, waited};
use crate::battlemogs::transitions::morph::{morph_check, morph_plan};
use crate::battlemogs::transitions::sacrifice_into::{jump_counts, sacrifice_into_check, sacrifice_into_plan};
use crate::battlemogs::transitions::{
    BattleMogsAction, BattleMogsTransition, KernelAnswers, PlanView, comes_to, mogwai_of, planned, subjects_drawn,
    transition_post, with_mogwai,
};

verus! {

/// A record that is found under an id is one of the records, and it is
/// the first one under that id.
pub proof fn lemma_record_found(records: Seq<AssetRecord>, id: BattleMogsId, from: int)
    requires
        0 <= from,
        record_from(records, id, from) is Some,
    ensures
        exists|i: int| from <= i < records.len() && #[trigger] records[i] == record_from(records, id, from)->Some_0,
        record_from(records, id, from)->Some_0.id == id,
    decreases records.len() - from,
{
    if records[from].id != id {
        lemma_record_found(records, id, from + 1);
    }
}

/// Whether no asset that the host keeps was made after the height of the move.
pub open spec fn snapshot_in_time(snapshot: HostSnapshot) -> bool {
    forall|i: int|
        0 <= i < snapshot.records@.len() ==> (#[trigger] snapshot.records@[i]).asset.genesis <= snapshot.block_number
}

/// What a move has come to, as contracts see it.
pub open spec fn outcome(result: Result<TransitionPlan, TransitionError>) -> Result<PlanView, TransitionError> {
    match result {
        Ok(plan) => Ok(plan@),
        Err(error) => Err(error),
    }
}

/// No asset is made ahead of its time: where no asset that the host keeps
/// was made after the height of the move, none that the move writes is.
/// What is made by the move is made at its height.
pub proof fn lemma_genesis_not_ahead<K: BreedingKernel>(
    action: BattleMogsAction,
    snapshot: HostSnapshot,
    draws: RandomDraws,
    result: Result<TransitionPlan, TransitionError>,
)
    requires
        snapshot_in_time(snapshot),
        transition_post::<K>(action, snapshot, draws, result),
        result is Ok,
    ensures
        forall|i: int|
            0 <= i < result->Ok_0@.outputs.len() ==> match #[trigger] result->Ok_0@.outputs[i] {
                TransitionOutput::Minted(asset) => asset.genesis == snapshot.block_number,
                TransitionOutput::Mutated(_, asset) => asset.genesis <= snapshot.block_number,
                TransitionOutput::Consumed(_) => true,
            },
{
    let records = snapshot.records@;
    match action {
        BattleMogsAction::Hatch { mogwai, table } => {
            lemma_record_found(records, mogwai, 0);
            if record_from(records, table, 0) is Some {
                lemma_record_found(records, table, 0);
            }
        },
        BattleMogsAction::Sacrifice { mogwai, table } => {
            lemma_record_found(records, mogwai, 0);
            if record_from(records, table, 0) is Some {
                lemma_record_found(records, table, 0);
            }
        },
        BattleMogsAction::SacrificeInto { mogwai, into, table } => {
            lemma_record_found(records, mogwai, 0);
            lemma_record_found(records, into, 0);
            if record_from(records, table, 0) is Some {
                lemma_record_found(records, table, 0);
            }
        },
        BattleMogsAction::Morph { mogwai, table } => {
            lemma_record_found(records, mogwai, 0);
            if record_from(records, table, 0) is Some {
                lemma_record_found(records, table, 0);
            }
        },
        BattleMogsAction::Breed { mogwai_1, mogwai_2, table } => {
            lemma_record_found(records, mogwai_1, 0);
            lemma_record_found(records, mogwai_2, 0);
            if record_from(records, table, 0) is Some {
                lemma_record_found(records, table, 0);
            }
        },
        _ => {},
    }
}

/// The phase of a mogwai never goes back: a mogwai that a move writes
/// anew is at least as far in its life as the host has kept it.
pub proof fn lemma_phase_goes_forward<K: BreedingKernel>(
    action: BattleMogsAction,
    snapshot: HostSnapshot,
    draws: RandomDraws,
    result: Result<TransitionPlan, TransitionError>,
)
    requires
        transition_post::<K>(action, snapshot, draws, result),
        result is Ok,
    ensures
        forall|i: int|
            0 <= i < result->Ok_0@.outputs.len() ==> match #[trigger] result->Ok_0@.outputs[i] {
                TransitionOutput::Mutated(id, after) => after.variant is Mogwai ==> {
                    &&& record_of(snapshot.records@, id) matches Some(record)
                    &&& record.asset.variant is Mogwai
                    &&& mogwai_of(after).phase.rank() >= mogwai_of(record.asset).phase.rank()
                },
                _ => true,
            },
{
}

/// A mogwai of the account that has waited long enough hatches exactly
/// where it is in its bred phase, whatever table the move names: a bred
/// mogwai comes out hatched, under its old id, made when it was made; a
/// mogwai in any other phase is turned down as not in its bred phase.
pub proof fn lemma_hatch_by_phase(
    snapshot: HostSnapshot,
    mogwai_id: BattleMogsId,
    table_id: BattleMogsId,
    dna: [[u8; 32]; 2],
    rarity: RarityType,
)
    requires
        owned_mogwai_found(snapshot.records@, mogwai_id) is Ok,
        waited(snapshot.block_number, owned_mogwai_found(snapshot.records@, mogwai_id)->Ok_0.genesis)
            >= TIME_TILL_HATCH,
    ensures
        ({
            let asset = owned_mogwai_found(snapshot.records@, mogwai_id)->Ok_0;
            let plan = hatch_plan(snapshot, mogwai_id, table_id, dna, rarity);
            &&& mogwai_of(asset).phase != PhaseType::Bred ==> plan == Err::<PlanView, TransitionError>(
                TransitionError::Transition { code: MOGWAI_NOT_IN_BRED_PHASE },
            )
            &&& mogwai_of(asset).phase == PhaseType::Bred ==> {
                &&& plan matches Ok(hatch)
                &&& hatch.moves.len() == 0
                &&& hatch.outputs.len() >= 1
                &&& hatch.outputs[0] == TransitionOutput::Mutated(
                    mogwai_id,
                    with_mogwai(asset, Mogwai { dna, rarity, phase: PhaseType::Hatched, ..mogwai_of(asset) }),
                )
                &&& forall|i: int|
                    1 <= i < hatch.outputs.len() ==> (match #[trigger] hatch.outputs[i] {
                        TransitionOutput::Mutated(id, table) => id == table_id && table.variant is AchievementTable,
                        _ => false,
                    })
            }
        }),
{
    let records = snapshot.records@;
    if record_from(records, table_id, 0) is Some {
        lemma_record_found(records, table_id, 0);
    }
}

/// The funds of the assets after `moves`, one after the other: a deposit
/// adds to the funds of its asset, a withdrawal takes from them.
pub open spec fn funds_after(funds: Map<BattleMogsId, int>, moves: Seq<FundMove>) -> Map<BattleMogsId, int>
    decreases moves.len(),
{
    if moves.len() == 0 {
        funds
    } else {
        let before = funds_after(funds, moves.drop_last());
        match moves.last() {
            FundMove::Deposit { asset, amount } => before.insert(asset, before[asset] + amount),
            FundMove::Withdraw { asset, amount } => before.insert(asset, before[asset] - amount),
        }
    }
}

/// A sacrifice whose jump counts moves all funds of the mogwai that is
/// given into the mogwai that gains, and no others: the first is left
/// with nothing, the second gains exactly what the first held. The two
/// have to be two mogwais.
pub proof fn lemma_sacrifice_conserves_funds(
    snapshot: HostSnapshot,
    sacrificed_mogwai_id: BattleMogsId,
    into_mogwai_id: BattleMogsId,
    table_id: BattleMogsId,
    jump: u8,
    funds: Map<BattleMogsId, int>,
)
    requires
        sacrifice_into_check(snapshot, sacrificed_mogwai_id, into_mogwai_id) is Ok,
        jump_counts(
            mogwai_of(sacrifice_into_check(snapshot, sacrificed_mogwai_id, into_mogwai_id)->Ok_0.1).generation,
            jump,
        ),
        sacrificed_mogwai_id != into_mogwai_id,
        funds.dom().contains(sacrificed_mogwai_id),
        funds.dom().contains(into_mogwai_id),
        funds[sacrificed_mogwai_id] == funds_of(snapshot.records@, sacrificed_mogwai_id),
    ensures
        sacrifice_into_plan(snapshot, sacrificed_mogwai_id, into_mogwai_id, table_id, jump) is Ok,
        ({
            let plan = sacrifice_into_plan(snapshot, sacrificed_mogwai_id, into_mogwai_id, table_id, jump)->Ok_0;
            let after = funds_after(funds, plan.moves);
            &&& after[sacrificed_mogwai_id] == 0
            &&& after[into_mogwai_id] == funds[into_mogwai_id] + funds[sacrificed_mogwai_id]
            &&& forall|other: BattleMogsId|
                other != sacrificed_mogwai_id && other != into_mogwai_id && funds.dom().contains(other)
                    ==> after[other] == funds[other]
        }),
{
    let plan = sacrifice_into_plan(snapshot, sacrificed_mogwai_id, into_mogwai_id, table_id, jump)->Ok_0;
    let moves = plan.moves;
    let first = moves.drop_last();
    reveal_with_fuel(funds_after, 3);
    assert(first.drop_last() =~= Seq::<FundMove>::empty());
    let after_first = funds_after(funds, first);
    assert(after_first == funds.insert(sacrificed_mogwai_id, 0));
    let after = funds_after(funds, moves);
    assert(after == after_first.insert(into_mogwai_id, after_first[into_mogwai_id] + funds[sacrificed_mogwai_id]));
}

/// Every move with a kernel comes to what the plan says for the answers
/// that the kernel gave.
pub proof fn lemma_transition_follows_plan<K: BreedingKernel>(
    action: BattleMogsAction,
    snapshot: HostSnapshot,
    draws: RandomDraws,
    result: Result<TransitionPlan, TransitionError>,
)
    requires
        transition_post::<K>(action, snapshot, draws, result),
    ensures
        exists|answers: KernelAnswers| comes_to(result, #[trigger] planned(action, snapshot, draws, answers)),
{
    let any = KernelAnswers { next_generation: arbitrary(), dna: arbitrary(), rarity: arbitrary(), jump: arbitrary() };
    match action {
        BattleMogsAction::CreateMogwai => {
            if room_for_mogwai(snapshot) is Ok {
                let (next, dna) = choose|next: NextGeneration, dna: [[u8; 32]; 2]|
                    comes_to(result, #[trigger] create_plan(snapshot, draws, next, dna));
                let answers = KernelAnswers { next_generation: next, dna, ..any };
                assert(comes_to(result, planned(action, snapshot, draws, answers)));
            } else {
                assert(comes_to(result, planned(action, snapshot, draws, any)));
            }
        },
        BattleMogsAction::Hatch { mogwai, table } => {
            if hatch_check(snapshot, mogwai) is Ok {
                let (dna, rarity) = choose|dna: [[u8; 32]; 2], rarity: RarityType|
                    comes_to(result, #[trigger] hatch_plan(snapshot, mogwai, table, dna, rarity));
                assert(comes_to(result, planned(action, snapshot, draws, KernelAnswers { dna, rarity, ..any })));
            } else {
                assert(comes_to(result, planned(action, snapshot, draws, any)));
            }
        },
        BattleMogsAction::Morph { mogwai, table } => {
            if morph_check(snapshot, mogwai) is Ok {
                let (dna, rarity) = choose|dna: [[u8; 32]; 2], rarity: RarityType|
                    comes_to(result, #[trigger] morph_plan(snapshot, mogwai, table, dna, rarity));
                assert(comes_to(result, planned(action, snapshot, draws, KernelAnswers { dna, rarity, ..any })));
            } else {
                assert(comes_to(result, planned(action, snapshot, draws, any)));
            }
        },
        BattleMogsAction::SacrificeInto { mogwai, into, table } => {
            if sacrifice_into_check(snapshot, mogwai, into) is Ok {
                let jump = choose|jump: u8|
                    comes_to(result, #[trigger] sacrifice_into_plan(snapshot, mogwai, into, table, jump));
                assert(comes_to(result, planned(action, snapshot, draws, KernelAnswers { jump, ..any })));
            } else {
                assert(comes_to(result, planned(action, snapshot, draws, any)));
            }
        },
        BattleMogsAction::Breed { mogwai_1, mogwai_2, table } => {
            if breed_check(snapshot, mogwai_1, mogwai_2) is Ok {
                let (next, dna) = choose|next: NextGeneration, dna: [[u8; 32]; 2]|
                    comes_to(result, #[trigger] breed_plan(snapshot, draws, mogwai_1, mogwai_2, table, next, dna));
                let answers = KernelAnswers { next_generation: next, dna, ..any };
                assert(comes_to(result, planned(action, snapshot, draws, answers)));
            } else {
                assert(comes_to(result, planned(action, snapshot, draws, any)));
            }
        },
        _ => {
            assert(comes_to(result, planned(action, snapshot, draws, any)));
        },
    }
}

/// The plan of a move reads the draws for the subjects of the move and no
/// others: two plans that differ only in what was drawn for other
/// subjects are one.
pub proof fn lemma_move_reads_its_draws(
    action: BattleMogsAction,
    snapshot: HostSnapshot,
    one: RandomDraws,
    other: RandomDraws,
    answers: KernelAnswers,
)
    requires
        forall|i: int|
            0 <= i < subjects_drawn(action).len() ==> one.drawn_for(#[trigger] subjects_drawn(action)[i])
                == other.drawn_for(subjects_drawn(action)[i]),
    ensures
        planned(action, snapshot, one, answers) == planned(action, snapshot, other, answers),
{
    let subjects = subjects_drawn(action);
    if subjects.len() > 0 {
        assert(one.drawn_for(subjects[0]) == other.drawn_for(subjects[0]));
    }
    if subjects.len() > 1 {
        assert(one.drawn_for(subjects[1]) == other.drawn_for(subjects[1]));
    }
    if subjects.len() > 2 {
        assert(one.drawn_for(subjects[2]) == other.drawn_for(subjects[2]));
    }
}

/// The same move on the same snapshot with the same draws and the same
/// answers of the kernel always comes to the same plan or the same error:
/// any two results that the plan may give are one.
pub proof fn lemma_plan_is_determined(
    action: BattleMogsAction,
    snapshot: HostSnapshot,
    draws: RandomDraws,
    answers: KernelAnswers,
    first: Result<TransitionPlan, TransitionError>,
    second: Result<TransitionPlan, TransitionError>,
)
    requires
        call_ensures(BattleMogsTransition::plan_transition, (&action, &snapshot, &draws, &answers), first),
        call_ensures(BattleMogsTransition::plan_transition, (&action, &snapshot, &draws, &answers), second),
    ensures
        outcome(first) == outcome(second),
        outcome(first) == planned(action, snapshot, draws, answers),
{
}

/// Whether the kernel `K` gives one answer to one question.
pub open spec fn kernel_is_function<K: BreedingKernel>() -> bool {
    &&& forall|breed_type: BreedType, left: [u8; 32], right: [u8; 32], one: [[u8; 32]; 2], other: [[u8; 32]; 2]|
        #![trigger paired::<K>(breed_type, left, right, one), paired::<K>(breed_type, left, right, other)]
        paired::<K>(breed_type, left, right, one) && paired::<K>(breed_type, left, right, other) ==> one == other
    &&& forall|dna: [[u8; 32]; 2], hash: [u8; 32], one: [[u8; 32]; 2], other: [[u8; 32]; 2]|
        #![trigger segmented::<K>(dna, hash, one), segmented::<K>(dna, hash, other)]
        segmented::<K>(dna, hash, one) && segmented::<K>(dna, hash, other) ==> one == other
    &&& forall|rarity: RarityType, hash: [u8; 32], one: RarityType, other: RarityType|
        #![trigger baked::<K>(rarity, hash, one), baked::<K>(rarity, hash, other)]
        baked::<K>(rarity, hash, one) && baked::<K>(rarity, hash, other) ==> one == other
    &&& forall|donor: Mogwai, target: Mogwai, one: u8, other: u8|
        #![trigger jumped::<K>(donor, target, one), jumped::<K>(donor, target, other)]
        jumped::<K>(donor, target, one) && jumped::<K>(donor, target, other) ==> one == other
    &&& forall|
        generation_1: MogwaiGeneration,
        rarity_1: RarityType,
        generation_2: MogwaiGeneration,
        rarity_2: RarityType,
        hash: [u8; 32],
        one: NextGeneration,
        other: NextGeneration,
    |
        #![trigger
            generated::<K>(generation_1, rarity_1, generation_2, rarity_2, hash, one),
            generated::<K>(generation_1, rarity_1, generation_2, rarity_2, hash, other)]
        generated::<K>(generation_1, rarity_1, generation_2, rarity_2, hash, one) && generated::<K>(
            generation_1,
            rarity_1,
            generation_2,
            rarity_2,
            hash,
            other,
        ) ==> one == other
}

/// With a kernel that gives one answer to one question, the same move on
/// the same snapshot with the same draws always comes to the same: any two
/// results that the move may give are one.
pub proof fn lemma_transition_is_determined<K: BreedingKernel>(
    action: BattleMogsAction,
    snapshot: HostSnapshot,
    draws: RandomDraws,
    first: Result<TransitionPlan, TransitionError>,
    second: Result<TransitionPlan, TransitionError>,
)
    requires
        kernel_is_function::<K>(),
        transition_post::<K>(action, snapshot, draws, first),
        transition_post::<K>(action, snapshot, draws, second),
    ensures
        outcome(first) == outcome(second),
{
}

} // verus!
