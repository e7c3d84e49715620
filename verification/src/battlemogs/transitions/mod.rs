//! The moves of the game.

use vstd::prelude::*;
use crate::battlemogs::achievement_table::AchievementKind;
use crate::battlemogs::asset::{BattleMogsAsset, BattleMogsId, BattleMogsVariant};
use crate::battlemogs::error::TransitionError;
use crate::battlemogs::host::{
    Asset, AssetRecord, FundMove, HostSnapshot, RandomDraws, RandomSubject, TransitionOutput, TransitionPlan,
    owned_table_found,
};
use crate::battlemogs::kernel::{BreedingKernel, NextGeneration};
use crate::battlemogs::mogwai::{Mogwai, RarityType, rarity_from};
use crate::battlemogs::transitions::breed::{breed_plan, breed_post};
use crate::battlemogs::transitions::create::{create_plan, create_post};
use crate::battlemogs::transitions::hatch::{hatch_plan, hatch_post};
use crate::battlemogs::transitions::morph::{morph_plan, morph_post};
use crate::battlemogs::transitions::register::{register_post, registered};
use crate::battlemogs::transitions::remove::{remove_post, removed};
use crate::battlemogs::transitions::sacrifice::{sacrifice_post, sacrificed};
use crate::battlemogs::transitions::sacrifice_into::{sacrifice_into_plan, sacrifice_into_post};

pub mod register;
pub mod create;
pub mod remove;
pub mod hatch;
pub mod sacrifice;
pub mod sacrifice_into;
pub mod morph;
pub mod breed;

verus! {

#[derive(Copy, Clone, Debug, PartialEq, Eq, Structural)]
pub enum BattleMogsAction {
    RegisterPlayer,
    CreateMogwai,
    Remove { mogwai: BattleMogsId },
    Hatch { mogwai: BattleMogsId, table: BattleMogsId },
    Sacrifice { mogwai: BattleMogsId, table: BattleMogsId },
    SacrificeInto { mogwai: BattleMogsId, into: BattleMogsId, table: BattleMogsId },
    Morph { mogwai: BattleMogsId, table: BattleMogsId },
    Breed { mogwai_1: BattleMogsId, mogwai_2: BattleMogsId, table: BattleMogsId },
}

/// The subjects for which `action` has the host draw a hash, in the
/// order in which they are drawn. A move reads no other draw.
pub open spec fn subjects_drawn(action: BattleMogsAction) -> Seq<RandomSubject> {
    match action {
        BattleMogsAction::RegisterPlayer => seq![RandomSubject::MogwaiId],
        BattleMogsAction::CreateMogwai => seq![
            RandomSubject::MogwaiId,
            RandomSubject::CreateMogwai,
            RandomSubject::ExtendMogwai,
        ],
        BattleMogsAction::Hatch { .. } => seq![RandomSubject::MogwaiHatch],
        BattleMogsAction::Morph { .. } => seq![RandomSubject::MogwaiMorph],
        BattleMogsAction::Breed { .. } => seq![RandomSubject::BreedMogwai, RandomSubject::BreedNextGen],
        _ => Seq::empty(),
    }
}

impl BattleMogsAction {
    /// The subjects for which the move has the host draw a hash.
    pub fn subjects(&self) -> (subjects: Vec<RandomSubject>)
        ensures
            subjects@ == subjects_drawn(*self),
    {
        let subjects = match self {
            BattleMogsAction::RegisterPlayer => vec![RandomSubject::MogwaiId],
            BattleMogsAction::CreateMogwai => vec![
                RandomSubject::MogwaiId,
                RandomSubject::CreateMogwai,
                RandomSubject::ExtendMogwai,
            ],
            BattleMogsAction::Hatch { .. } => vec![RandomSubject::MogwaiHatch],
            BattleMogsAction::Morph { .. } => vec![RandomSubject::MogwaiMorph],
            BattleMogsAction::Breed { .. } => vec![RandomSubject::BreedMogwai, RandomSubject::BreedNextGen],
            _ => Vec::new(),
        };
        assert(subjects@ =~= subjects_drawn(*self));
        subjects
    }
}

pub struct BattleMogsTransition;

/// What the breeding kernel has answered in the course of a move. A move
/// reads only the answers to what it asks.
#[derive(Copy, Clone, Debug, PartialEq, Eq)]
pub struct KernelAnswers {
    /// Rarity and generation of a child.
    pub next_generation: NextGeneration,
    /// The DNA of a child, or of a mogwai that hatches or morphs.
    pub dna: [[u8; 32]; 2],
    /// The rarity of a mogwai that hatches or morphs.
    pub rarity: RarityType,
    /// The generations that a sacrifice brings.
    pub jump: u8,
}

/// Whether `result` is `expected`: the same error, or a plan with the
/// same moves and the same outputs.
pub open spec fn comes_to(
    result: Result<TransitionPlan, TransitionError>,
    expected: Result<PlanView, TransitionError>,
) -> bool {
    match expected {
        Ok(plan) => result matches Ok(given) && given@ == plan,
        Err(error) => result matches Err(given) && given == error,
    }
}

/// What comes of `action` where the kernel has answered `answers`.
pub open spec fn planned(
    action: BattleMogsAction,
    snapshot: HostSnapshot,
    draws: RandomDraws,
    answers: KernelAnswers,
) -> Result<PlanView, TransitionError> {
    match action {
        BattleMogsAction::RegisterPlayer => registered(snapshot, draws),
        BattleMogsAction::CreateMogwai => create_plan(snapshot, draws, answers.next_generation, answers.dna),
        BattleMogsAction::Remove { mogwai } => removed(snapshot, mogwai),
        BattleMogsAction::Hatch { mogwai, table } => hatch_plan(snapshot, mogwai, table, answers.dna, answers.rarity),
        BattleMogsAction::Sacrifice { mogwai, table } => sacrificed(snapshot, mogwai, table),
        BattleMogsAction::SacrificeInto { mogwai, into, table } => sacrifice_into_plan(
            snapshot,
            mogwai,
            into,
            table,
            answers.jump,
        ),
        BattleMogsAction::Morph { mogwai, table } => morph_plan(snapshot, mogwai, table, answers.dna, answers.rarity),
        BattleMogsAction::Breed { mogwai_1, mogwai_2, table } => breed_plan(
            snapshot,
            draws,
            mogwai_1,
            mogwai_2,
            table,
            answers.next_generation,
            answers.dna,
        ),
    }
}

/// Whether `result` is what comes of `action` with the kernel `K`.
pub open spec fn transition_post<K: BreedingKernel>(
    action: BattleMogsAction,
    snapshot: HostSnapshot,
    draws: RandomDraws,
    result: Result<TransitionPlan, TransitionError>,
) -> bool {
    match action {
        BattleMogsAction::RegisterPlayer => register_post(snapshot, draws, result),
        BattleMogsAction::CreateMogwai => create_post::<K>(snapshot, draws, result),
        BattleMogsAction::Remove { mogwai } => remove_post(snapshot, mogwai, result),
        BattleMogsAction::Hatch { mogwai, table } => hatch_post::<K>(snapshot, draws, mogwai, table, result),
        BattleMogsAction::Sacrifice { mogwai, table } => sacrifice_post(snapshot, mogwai, table, result),
        BattleMogsAction::SacrificeInto { mogwai, into, table } => sacrifice_into_post::<K>(
            snapshot,
            mogwai,
            into,
            table,
            result,
        ),
        BattleMogsAction::Morph { mogwai, table } => morph_post::<K>(snapshot, draws, mogwai, table, result),
        BattleMogsAction::Breed { mogwai_1, mogwai_2, table } => breed_post::<K>(
            snapshot,
            draws,
            mogwai_1,
            mogwai_2,
            table,
            result,
        ),
    }
}

impl BattleMogsTransition {
    /// Plans the move `transition_id` of the account whose assets
    /// `snapshot` shows, for a kernel that has answered `answers`.
    pub fn plan_transition(
        transition_id: &BattleMogsAction,
        snapshot: &HostSnapshot,
        draws: &RandomDraws,
        answers: &KernelAnswers,
    ) -> (result: Result<TransitionPlan, TransitionError>)
        ensures
            comes_to(result, planned(*transition_id, *snapshot, *draws, *answers)),
    {
        match transition_id {
            BattleMogsAction::RegisterPlayer => Self::register_player(snapshot, draws),
            BattleMogsAction::CreateMogwai => Self::plan_create(
                snapshot,
                draws,
                answers.next_generation,
                answers.dna,
            ),
            BattleMogsAction::Remove { mogwai } => Self::remove_mogwai(snapshot, mogwai),
            BattleMogsAction::Hatch { mogwai, table } => Self::plan_hatch(
                snapshot,
                mogwai,
                table,
                answers.dna,
                answers.rarity,
            ),
            BattleMogsAction::Sacrifice { mogwai, table } => Self::sacrifice_mogwai(snapshot, mogwai, table),
            BattleMogsAction::SacrificeInto { mogwai, into, table } => Self::plan_sacrifice_into(
                snapshot,
                mogwai,
                into,
                table,
                answers.jump,
            ),
            BattleMogsAction::Morph { mogwai, table } => Self::plan_morph(
                snapshot,
                mogwai,
                table,
                answers.dna,
                answers.rarity,
            ),
            BattleMogsAction::Breed { mogwai_1, mogwai_2, table } => Self::plan_breed(
                snapshot,
                draws,
                mogwai_1,
                mogwai_2,
                table,
                answers.next_generation,
                answers.dna,
            ),
        }
    }

    /// Plans the move `transition_id` of the account whose assets `snapshot` shows.
    pub fn do_transition<K: BreedingKernel>(
        transition_id: &BattleMogsAction,
        snapshot: &HostSnapshot,
        draws: &RandomDraws,
    ) -> (result: Result<TransitionPlan, TransitionError>)
        ensures
            transition_post::<K>(*transition_id, *snapshot, *draws, result),
    {
        match transition_id {
            BattleMogsAction::RegisterPlayer => Self::register_player(snapshot, draws),
            BattleMogsAction::CreateMogwai => Self::create_mogwai::<K>(snapshot, draws),
            BattleMogsAction::Remove { mogwai } => Self::remove_mogwai(snapshot, mogwai),
            BattleMogsAction::Hatch { mogwai, table } => Self::hatch_mogwai::<K>(snapshot, draws, mogwai, table),
            BattleMogsAction::Sacrifice { mogwai, table } => Self::sacrifice_mogwai(snapshot, mogwai, table),
            BattleMogsAction::SacrificeInto { mogwai, into, table } => Self::sacrifice_mogwai_into::<K>(
                snapshot,
                mogwai,
                into,
                table,
            ),
            BattleMogsAction::Morph { mogwai, table } => Self::morph_mogwai::<K>(snapshot, draws, mogwai, table),
            BattleMogsAction::Breed { mogwai_1, mogwai_2, table } => Self::breed_mogwais::<K>(
                snapshot,
                draws,
                mogwai_1,
                mogwai_2,
                table,
            ),
        }
    }
}

/// A plan as contracts see it.
pub struct PlanView {
    pub moves: Seq<FundMove>,
    pub outputs: Seq<TransitionOutput<BattleMogsId, Asset>>,
}

impl View for TransitionPlan {
    type V = PlanView;

    open spec fn view(&self) -> PlanView {
        PlanView { moves: self.moves@, outputs: self.outputs@ }
    }
}

/// A plan that moves no funds.
pub open spec fn outputs_only(outputs: Seq<TransitionOutput<BattleMogsId, Asset>>) -> PlanView {
    PlanView { moves: Seq::empty(), outputs }
}

/// The table of the account under `table_id` with one more for the
/// achievement of kind `kind`. Where the account has no table under that
/// id, nothing is counted.
pub open spec fn table_counted(records: Seq<AssetRecord>, table_id: BattleMogsId, kind: AchievementKind) -> Option<
    Asset,
> {
    match owned_table_found(records, table_id) {
        Err(_) => None,
        Ok(asset) => Some(bumped_asset(asset, kind)),
    }
}

/// `outputs`, and behind them the table under `table_id` where there is one to write.
pub open spec fn with_table(
    outputs: Seq<TransitionOutput<BattleMogsId, Asset>>,
    table_id: BattleMogsId,
    table: Option<Asset>,
) -> Seq<TransitionOutput<BattleMogsId, Asset>> {
    match table {
        Some(asset) => outputs.push(TransitionOutput::Mutated(table_id, asset)),
        None => outputs,
    }
}

/// `asset` with one more for the achievement of kind `kind`, where it is a table.
pub open spec fn bumped_asset(asset: Asset, kind: AchievementKind) -> Asset {
    match asset.variant {
        BattleMogsVariant::AchievementTable(table) => BattleMogsAsset {
            variant: BattleMogsVariant::AchievementTable(table.bumped(kind, 1)),
            ..asset
        },
        BattleMogsVariant::Mogwai(_) => asset,
    }
}

/// Counts one more for the achievement of kind `kind` in `asset`, where it is a table.
pub fn bump_asset(asset: Asset, kind: AchievementKind) -> (bumped: Asset)
    ensures
        bumped == bumped_asset(asset, kind),
{
    match asset.variant {
        BattleMogsVariant::AchievementTable(table) => BattleMogsAsset {
            id: asset.id,
            genesis: asset.genesis,
            variant: BattleMogsVariant::AchievementTable(table.bump(kind, 1)),
        },
        BattleMogsVariant::Mogwai(_) => asset,
    }
}

/// The table of the account under `table_id` with one more for the
/// achievement of kind `kind`, where the account has such a table.
pub fn count_achievement(snapshot: &HostSnapshot, table_id: &BattleMogsId, kind: AchievementKind) -> (table: Option<
    Asset,
>)
    ensures
        table == table_counted(snapshot.records@, *table_id, kind),
{
    match snapshot.get_owned_achievement_table(table_id) {
        Ok(asset) => Some(bump_asset(asset, kind)),
        Err(_) => None,
    }
}

/// Puts the table under `table_id` behind `outputs`, where there is one to write.
pub fn push_table(
    outputs: Vec<TransitionOutput<BattleMogsId, Asset>>,
    table_id: &BattleMogsId,
    table: Option<Asset>,
) -> (all: Vec<TransitionOutput<BattleMogsId, Asset>>)
    ensures
        all@ == with_table(outputs@, *table_id, table),
{
    let mut all = outputs;
    match table {
        Some(asset) => {
            all.push(TransitionOutput::Mutated(*table_id, asset));
        },
        None => {},
    }
    all
}

/// Rarity of a child and the highest rarity in reach, packed into one
/// byte: the first in the low half, the second in the high half.
pub fn packed_rarity(rarity: RarityType, max_rarity: RarityType) -> (packed: u8)
    ensures
        packed & 0x0f == rarity.number(),
        packed == max_rarity.number() * 16 + rarity.number(),
{
    let low: u8 = rarity.as_u8();
    let high: u8 = max_rarity.as_u8();
    let packed: u8 = (high << 4) | low;
    assert(((high << 4) | low) & 0x0f == low && ((high << 4) | low) == high * 16 + low) by (bit_vector)
        requires
            low <= 5,
            high <= 5,
    ;
    packed
}

/// The rarity in the low half of `packed`.
pub fn unpacked_rarity(packed: u8) -> (rarity: RarityType)
    ensures
        rarity == rarity_from((packed & 0x0f) as int),
{
    RarityType::from(packed & 0x0f)
}

/// The mogwai in `asset`; where it holds none, this says nothing.
pub open spec fn mogwai_of(asset: Asset) -> Mogwai {
    asset.variant->Mogwai_0
}

/// `asset` with `mogwai` in it.
pub open spec fn with_mogwai(asset: Asset, mogwai: Mogwai) -> Asset {
    BattleMogsAsset { variant: BattleMogsVariant::Mogwai(mogwai), ..asset }
}

/// Puts `mogwai` into `asset`.
pub fn put_mogwai(asset: Asset, mogwai: Mogwai) -> (changed: Asset)
    ensures
        changed == with_mogwai(asset, mogwai),
{
    BattleMogsAsset { id: asset.id, genesis: asset.genesis, variant: BattleMogsVariant::Mogwai(mogwai) }
}

/// A plan from its parts.
pub fn plan_of(moves: Vec<FundMove>, outputs: Vec<TransitionOutput<BattleMogsId, Asset>>) -> (plan: TransitionPlan)
    ensures
        plan@ == (PlanView { moves: moves@, outputs: outputs@ }),
{
    TransitionPlan { moves, outputs }
}

} // verus!
