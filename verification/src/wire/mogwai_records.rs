//! The records of the breeding game in the format.

use vstd::prelude::*;
use crate::battlemogs::achievement_table::{AchievementState, AchievementTable};
use crate::battlemogs::asset::{BattleMogsAsset, BattleMogsId, BattleMogsVariant};
use crate::battlemogs::config::GameEventType;
use crate::battlemogs::host::{BattleMogsTransitionConfig, TransitionOutput};
use crate::battlemogs::kernel::BreedType;
use crate::battlemogs::mogwai::{Mogwai, MogwaiGeneration, PhaseType, RarityType};
use crate::battlemogs::transitions::BattleMogsAction;
use crate::wire::format::{
    Wire, decode_list, encode_list, lemma_starts_with_both, lemma_starts_with_joined, list_wire, starts_with,
};

verus! {

impl Wire for MogwaiGeneration {
    open spec fn wire(&self) -> Seq<u8> {
        (self.number() as u8).wire()
    }

    fn encode_to(&self, out: &mut Vec<u8>) {
        let tag: u8 = self.as_u16() as u8;
        tag.encode_to(out);
    }

    fn decode_from(bytes: &[u8], start: usize) -> (decoded: Option<(Self, usize)>) {
        match u8::decode_from(bytes, start) {
            Some((1, end)) => Some((MogwaiGeneration::First, end)),
            Some((2, end)) => Some((MogwaiGeneration::Second, end)),
            Some((3, end)) => Some((MogwaiGeneration::Third, end)),
            Some((4, end)) => Some((MogwaiGeneration::Fourth, end)),
            Some((5, end)) => Some((MogwaiGeneration::Fifth, end)),
            Some((6, end)) => Some((MogwaiGeneration::Sixth, end)),
            Some((7, end)) => Some((MogwaiGeneration::Seventh, end)),
            Some((8, end)) => Some((MogwaiGeneration::Eighth, end)),
            Some((9, end)) => Some((MogwaiGeneration::Ninth, end)),
            Some((10, end)) => Some((MogwaiGeneration::Tenth, end)),
            Some((11, end)) => Some((MogwaiGeneration::Eleventh, end)),
            Some((12, end)) => Some((MogwaiGeneration::Twelfth, end)),
            Some((13, end)) => Some((MogwaiGeneration::Thirteenth, end)),
            Some((14, end)) => Some((MogwaiGeneration::Fourteenth, end)),
            Some((15, end)) => Some((MogwaiGeneration::Fifteenth, end)),
            Some((16, end)) => Some((MogwaiGeneration::Sixteenth, end)),
            _ => None,
        }
    }
}

impl Wire for RarityType {
    open spec fn wire(&self) -> Seq<u8> {
        (self.number() as u8).wire()
    }

    fn encode_to(&self, out: &mut Vec<u8>) {
        self.as_u8().encode_to(out);
    }

    fn decode_from(bytes: &[u8], start: usize) -> (decoded: Option<(Self, usize)>) {
        match u8::decode_from(bytes, start) {
            Some((0, end)) => Some((RarityType::Common, end)),
            Some((1, end)) => Some((RarityType::Uncommon, end)),
            Some((2, end)) => Some((RarityType::Rare, end)),
            Some((3, end)) => Some((RarityType::Epic, end)),
            Some((4, end)) => Some((RarityType::Legendary, end)),
            Some((5, end)) => Some((RarityType::Mythical, end)),
            _ => None,
        }
    }
}

impl Wire for PhaseType {
    open spec fn wire(&self) -> Seq<u8> {
        (self.rank() as u8).wire()
    }

    fn encode_to(&self, out: &mut Vec<u8>) {
        let tag: u8 = match self {
            PhaseType::NoPhase => 0,
            PhaseType::Bred => 1,
            PhaseType::Hatched => 2,
            PhaseType::Matured => 3,
            PhaseType::Mastered => 4,
            PhaseType::Exalted => 5,
        };
        tag.encode_to(out);
    }

    fn decode_from(bytes: &[u8], start: usize) -> (decoded: Option<(Self, usize)>) {
        match u8::decode_from(bytes, start) {
            Some((0, end)) => Some((PhaseType::NoPhase, end)),
            Some((1, end)) => Some((PhaseType::Bred, end)),
            Some((2, end)) => Some((PhaseType::Hatched, end)),
            Some((3, end)) => Some((PhaseType::Matured, end)),
            Some((4, end)) => Some((PhaseType::Mastered, end)),
            Some((5, end)) => Some((PhaseType::Exalted, end)),
            _ => None,
        }
    }
}

/// The byte that stands for `breed_type`.
pub open spec fn breed_tag(breed_type: BreedType) -> u8 {
    match breed_type {
        BreedType::DomDom => 0,
        BreedType::DomRez => 1,
        BreedType::RezDom => 2,
        BreedType::RezRez => 3,
    }
}

impl Wire for BreedType {
    open spec fn wire(&self) -> Seq<u8> {
        breed_tag(*self).wire()
    }

    fn encode_to(&self, out: &mut Vec<u8>) {
        let tag: u8 = match self {
            BreedType::DomDom => 0,
            BreedType::DomRez => 1,
            BreedType::RezDom => 2,
            BreedType::RezRez => 3,
        };
        tag.encode_to(out);
    }

    fn decode_from(bytes: &[u8], start: usize) -> (decoded: Option<(Self, usize)>) {
        match u8::decode_from(bytes, start) {
            Some((0, end)) => Some((BreedType::DomDom, end)),
            Some((1, end)) => Some((BreedType::DomRez, end)),
            Some((2, end)) => Some((BreedType::RezDom, end)),
            Some((3, end)) => Some((BreedType::RezRez, end)),
            _ => None,
        }
    }
}

/// The byte that stands for `event`.
pub open spec fn event_tag(event: GameEventType) -> u8 {
    match event {
        GameEventType::Default => 0,
        GameEventType::Hatch => 1,
    }
}

impl Wire for GameEventType {
    open spec fn wire(&self) -> Seq<u8> {
        event_tag(*self).wire()
    }

    fn encode_to(&self, out: &mut Vec<u8>) {
        let tag: u8 = match self {
            GameEventType::Default => 0,
            GameEventType::Hatch => 1,
        };
        tag.encode_to(out);
    }

    fn decode_from(bytes: &[u8], start: usize) -> (decoded: Option<(Self, usize)>) {
        match u8::decode_from(bytes, start) {
            Some((0, end)) => Some((GameEventType::Default, end)),
            Some((1, end)) => Some((GameEventType::Hatch, end)),
            _ => None,
        }
    }
}

impl Wire for Mogwai {
    open spec fn wire(&self) -> Seq<u8> {
        (self.dna, (self.generation, (self.rarity, self.phase))).wire()
    }

    fn encode_to(&self, out: &mut Vec<u8>) {
        (self.dna, (self.generation, (self.rarity, self.phase))).encode_to(out);
    }

    fn decode_from(bytes: &[u8], start: usize) -> (decoded: Option<(Self, usize)>) {
        match <([[u8; 32]; 2], (MogwaiGeneration, (RarityType, PhaseType)))>::decode_from(bytes, start) {
            Some(((dna, (generation, (rarity, phase))), end)) => Some(
                (Mogwai { dna, generation, rarity, phase }, end),
            ),
            None => None,
        }
    }
}

impl Wire for AchievementState {
    open spec fn wire(&self) -> Seq<u8> {
        match *self {
            AchievementState::InProgress { current, target } => 0u8.wire() + (current, target).wire(),
            AchievementState::Completed => 1u8.wire(),
        }
    }

    fn encode_to(&self, out: &mut Vec<u8>) {
        match self {
            AchievementState::InProgress { current, target } => {
                0u8.encode_to(out);
                (*current, *target).encode_to(out);
            },
            AchievementState::Completed => {
                1u8.encode_to(out);
            },
        }
    }

    fn decode_from(bytes: &[u8], start: usize) -> (decoded: Option<(Self, usize)>) {
        proof {
            assert forall|value: Self| #[trigger] starts_with(bytes@, start as int, value.wire()) implies match value {
                AchievementState::InProgress { current, target } => starts_with(bytes@, start as int, 0u8.wire())
                    && starts_with(bytes@, start + 1, (current, target).wire()),
                AchievementState::Completed => starts_with(bytes@, start as int, 1u8.wire()),
            } by {
                match value {
                    AchievementState::InProgress { current, target } => {
                        lemma_starts_with_both(bytes@, start as int, 0u8.wire(), (current, target).wire());
                    },
                    _ => {},
                }
            }
        }
        match u8::decode_from(bytes, start) {
            Some((0, middle)) => match <(u16, u16)>::decode_from(bytes, middle) {
                Some(((current, target), end)) => {
                    proof {
                        lemma_starts_with_joined(bytes@, start as int, 0u8.wire(), (current, target).wire());
                    }
                    Some((AchievementState::InProgress { current, target }, end))
                },
                None => None,
            },
            Some((1, end)) => Some((AchievementState::Completed, end)),
            _ => None,
        }
    }
}

impl Wire for AchievementTable {
    open spec fn wire(&self) -> Seq<u8> {
        (self.egg_hatcher, (self.sacrificer, (self.morpheus, (self.legend_breeder, self.promiscuous)))).wire()
    }

    fn encode_to(&self, out: &mut Vec<u8>) {
        (self.egg_hatcher, (self.sacrificer, (self.morpheus, (self.legend_breeder, self.promiscuous)))).encode_to(
            out,
        );
    }

    fn decode_from(bytes: &[u8], start: usize) -> (decoded: Option<(Self, usize)>) {
        match <(
            AchievementState,
            (AchievementState, (AchievementState, (AchievementState, AchievementState))),
        )>::decode_from(bytes, start) {
            Some(((egg_hatcher, (sacrificer, (morpheus, (legend_breeder, promiscuous)))), end)) => Some(
                (AchievementTable { egg_hatcher, sacrificer, morpheus, legend_breeder, promiscuous }, end),
            ),
            None => None,
        }
    }
}

impl Wire for BattleMogsVariant {
    open spec fn wire(&self) -> Seq<u8> {
        match *self {
            BattleMogsVariant::Mogwai(mogwai) => 0u8.wire() + mogwai.wire(),
            BattleMogsVariant::AchievementTable(table) => 1u8.wire() + table.wire(),
        }
    }

    fn encode_to(&self, out: &mut Vec<u8>) {
        match self {
            BattleMogsVariant::Mogwai(mogwai) => {
                0u8.encode_to(out);
                mogwai.encode_to(out);
            },
            BattleMogsVariant::AchievementTable(table) => {
                1u8.encode_to(out);
                table.encode_to(out);
            },
        }
    }

    fn decode_from(bytes: &[u8], start: usize) -> (decoded: Option<(Self, usize)>) {
        proof {
            assert forall|value: Self| #[trigger] starts_with(bytes@, start as int, value.wire()) implies match value {
                BattleMogsVariant::Mogwai(mogwai) => starts_with(bytes@, start as int, 0u8.wire()) && starts_with(
                    bytes@,
                    start + 1,
                    mogwai.wire(),
                ),
                BattleMogsVariant::AchievementTable(table) => starts_with(bytes@, start as int, 1u8.wire())
                    && starts_with(bytes@, start + 1, table.wire()),
            } by {
                match value {
                    BattleMogsVariant::Mogwai(mogwai) => {
                        lemma_starts_with_both(bytes@, start as int, 0u8.wire(), mogwai.wire());
                    },
                    BattleMogsVariant::AchievementTable(table) => {
                        lemma_starts_with_both(bytes@, start as int, 1u8.wire(), table.wire());
                    },
                }
            }
        }
        match u8::decode_from(bytes, start) {
            Some((0, middle)) => match Mogwai::decode_from(bytes, middle) {
                Some((mogwai, end)) => {
                    proof {
                        lemma_starts_with_joined(bytes@, start as int, 0u8.wire(), mogwai.wire());
                    }
                    Some((BattleMogsVariant::Mogwai(mogwai), end))
                },
                None => None,
            },
            Some((1, middle)) => match AchievementTable::decode_from(bytes, middle) {
                Some((table, end)) => {
                    proof {
                        lemma_starts_with_joined(bytes@, start as int, 1u8.wire(), table.wire());
                    }
                    Some((BattleMogsVariant::AchievementTable(table), end))
                },
                None => None,
            },
            _ => None,
        }
    }
}

impl<BlockNumber: Wire + Copy> Wire for BattleMogsAsset<BlockNumber> {
    open spec fn wire(&self) -> Seq<u8> {
        (self.id, (self.genesis, self.variant)).wire()
    }

    fn encode_to(&self, out: &mut Vec<u8>) {
        (self.id, (self.genesis, self.variant)).encode_to(out);
    }

    fn decode_from(bytes: &[u8], start: usize) -> (decoded: Option<(Self, usize)>) {
        match <(BattleMogsId, (BlockNumber, BattleMogsVariant))>::decode_from(bytes, start) {
            Some(((id, (genesis, variant)), end)) => Some((BattleMogsAsset { id, genesis, variant }, end)),
            None => None,
        }
    }
}

impl Wire for BattleMogsTransitionConfig {
    open spec fn wire(&self) -> Seq<u8> {
        (
            self.max_mogwais,
            (
                self.target_egg_hatcher,
                (
                    self.target_sacrificer,
                    (self.target_morpheus, (self.target_legend_breeder, self.target_promiscuous)),
                ),
            ),
        ).wire()
    }

    fn encode_to(&self, out: &mut Vec<u8>) {
        (
            self.max_mogwais,
            (
                self.target_egg_hatcher,
                (
                    self.target_sacrificer,
                    (self.target_morpheus, (self.target_legend_breeder, self.target_promiscuous)),
                ),
            ),
        ).encode_to(out);
    }

    fn decode_from(bytes: &[u8], start: usize) -> (decoded: Option<(Self, usize)>) {
        match <(u16, (u16, (u16, (u16, (u16, u16)))))>::decode_from(bytes, start) {
            Some(
                (
                    (
                        max_mogwais,
                        (
                            target_egg_hatcher,
                            (target_sacrificer, (target_morpheus, (target_legend_breeder, target_promiscuous))),
                        ),
                    ),
                    end,
                ),
            ) => Some(
                (
                    BattleMogsTransitionConfig {
                        max_mogwais,
                        target_egg_hatcher,
                        target_sacrificer,
                        target_morpheus,
                        target_legend_breeder,
                        target_promiscuous,
                    },
                    end,
                ),
            ),
            None => None,
        }
    }
}

impl Wire for BattleMogsAction {
    open spec fn wire(&self) -> Seq<u8> {
        match *self {
            BattleMogsAction::RegisterPlayer => 0u8.wire(),
            BattleMogsAction::CreateMogwai => 1u8.wire(),
            BattleMogsAction::Remove { mogwai } => 2u8.wire() + mogwai.wire(),
            BattleMogsAction::Hatch { mogwai, table } => 3u8.wire() + (mogwai, table).wire(),
            BattleMogsAction::Sacrifice { mogwai, table } => 4u8.wire() + (mogwai, table).wire(),
            BattleMogsAction::SacrificeInto { mogwai, into, table } => 5u8.wire() + (mogwai, (into, table)).wire(),
            BattleMogsAction::Morph { mogwai, table } => 6u8.wire() + (mogwai, table).wire(),
            BattleMogsAction::Breed { mogwai_1, mogwai_2, table } => 7u8.wire() + (mogwai_1, (mogwai_2, table)).wire(),
        }
    }

    fn encode_to(&self, out: &mut Vec<u8>) {
        match self {
            BattleMogsAction::RegisterPlayer => {
                0u8.encode_to(out);
            },
            BattleMogsAction::CreateMogwai => {
                1u8.encode_to(out);
            },
            BattleMogsAction::Remove { mogwai } => {
                2u8.encode_to(out);
                mogwai.encode_to(out);
            },
            BattleMogsAction::Hatch { mogwai, table } => {
                3u8.encode_to(out);
                (*mogwai, *table).encode_to(out);
            },
            BattleMogsAction::Sacrifice { mogwai, table } => {
                4u8.encode_to(out);
                (*mogwai, *table).encode_to(out);
            },
            BattleMogsAction::SacrificeInto { mogwai, into, table } => {
                5u8.encode_to(out);
                (*mogwai, (*into, *table)).encode_to(out);
            },
            BattleMogsAction::Morph { mogwai, table } => {
                6u8.encode_to(out);
                (*mogwai, *table).encode_to(out);
            },
            BattleMogsAction::Breed { mogwai_1, mogwai_2, table } => {
                7u8.encode_to(out);
                (*mogwai_1, (*mogwai_2, *table)).encode_to(out);
            },
        }
    }

    fn decode_from(bytes: &[u8], start: usize) -> (decoded: Option<(Self, usize)>) {
        proof {
            assert forall|value: Self| #[trigger] starts_with(bytes@, start as int, value.wire()) implies match value {
                BattleMogsAction::RegisterPlayer => starts_with(bytes@, start as int, 0u8.wire()),
                BattleMogsAction::CreateMogwai => starts_with(bytes@, start as int, 1u8.wire()),
                BattleMogsAction::Remove { mogwai } => starts_with(bytes@, start as int, 2u8.wire()) && starts_with(
                    bytes@,
                    start + 1,
                    mogwai.wire(),
                ),
                BattleMogsAction::Hatch { mogwai, table } => starts_with(bytes@, start as int, 3u8.wire())
                    && starts_with(bytes@, start + 1, (mogwai, table).wire()),
                BattleMogsAction::Sacrifice { mogwai, table } => starts_with(bytes@, start as int, 4u8.wire())
                    && starts_with(bytes@, start + 1, (mogwai, table).wire()),
                BattleMogsAction::SacrificeInto { mogwai, into, table } => starts_with(
                    bytes@,
                    start as int,
                    5u8.wire(),
                ) && starts_with(bytes@, start + 1, (mogwai, (into, table)).wire()),
                BattleMogsAction::Morph { mogwai, table } => starts_with(bytes@, start as int, 6u8.wire())
                    && starts_with(bytes@, start + 1, (mogwai, table).wire()),
                BattleMogsAction::Breed { mogwai_1, mogwai_2, table } => starts_with(
                    bytes@,
                    start as int,
                    7u8.wire(),
                ) && starts_with(bytes@, start + 1, (mogwai_1, (mogwai_2, table)).wire()),
            } by {
                match value {
                    BattleMogsAction::RegisterPlayer => {},
                    BattleMogsAction::CreateMogwai => {},
                    BattleMogsAction::Remove { mogwai } => {
                        lemma_starts_with_both(bytes@, start as int, 2u8.wire(), mogwai.wire());
                    },
                    BattleMogsAction::Hatch { mogwai, table } => {
                        lemma_starts_with_both(bytes@, start as int, 3u8.wire(), (mogwai, table).wire());
                    },
                    BattleMogsAction::Sacrifice { mogwai, table } => {
                        lemma_starts_with_both(bytes@, start as int, 4u8.wire(), (mogwai, table).wire());
                    },
                    BattleMogsAction::SacrificeInto { mogwai, into, table } => {
                        lemma_starts_with_both(bytes@, start as int, 5u8.wire(), (mogwai, (into, table)).wire());
                    },
                    BattleMogsAction::Morph { mogwai, table } => {
                        lemma_starts_with_both(bytes@, start as int, 6u8.wire(), (mogwai, table).wire());
                    },
                    BattleMogsAction::Breed { mogwai_1, mogwai_2, table } => {
                        lemma_starts_with_both(
                            bytes@,
                            start as int,
                            7u8.wire(),
                            (mogwai_1, (mogwai_2, table)).wire(),
                        );
                    },
                }
            }
        }
        let (tag, middle) = match u8::decode_from(bytes, start) {
            Some(read) => read,
            None => {
                return None;
            },
        };
        if tag == 0 {
            Some((BattleMogsAction::RegisterPlayer, middle))
        } else if tag == 1 {
            Some((BattleMogsAction::CreateMogwai, middle))
        } else if tag == 2 {
            match u64::decode_from(bytes, middle) {
                Some((mogwai, end)) => {
                    proof {
                        lemma_starts_with_joined(bytes@, start as int, 2u8.wire(), mogwai.wire());
                    }
                    Some((BattleMogsAction::Remove { mogwai }, end))
                },
                None => None,
            }
        } else if tag == 3 || tag == 4 || tag == 6 {
            match <(u64, u64)>::decode_from(bytes, middle) {
                Some(((mogwai, table), end)) => {
                    proof {
                        lemma_starts_with_joined(bytes@, start as int, tag.wire(), (mogwai, table).wire());
                    }
                    if tag == 3 {
                        Some((BattleMogsAction::Hatch { mogwai, table }, end))
                    } else if tag == 4 {
                        Some((BattleMogsAction::Sacrifice { mogwai, table }, end))
                    } else {
                        Some((BattleMogsAction::Morph { mogwai, table }, end))
                    }
                },
                None => None,
            }
        } else if tag == 5 || tag == 7 {
            match <(u64, (u64, u64))>::decode_from(bytes, middle) {
                Some(((first, (second, table)), end)) => {
                    proof {
                        lemma_starts_with_joined(bytes@, start as int, tag.wire(), (first, (second, table)).wire());
                    }
                    if tag == 5 {
                        Some((BattleMogsAction::SacrificeInto { mogwai: first, into: second, table }, end))
                    } else {
                        Some((BattleMogsAction::Breed { mogwai_1: first, mogwai_2: second, table }, end))
                    }
                },
                None => None,
            }
        } else {
            None
        }
    }
}

impl<AssetId: Wire, Asset: Wire> Wire for TransitionOutput<AssetId, Asset> {
    open spec fn wire(&self) -> Seq<u8> {
        match *self {
            TransitionOutput::Minted(asset) => 0u8.wire() + asset.wire(),
            TransitionOutput::Mutated(id, asset) => 1u8.wire() + (id, asset).wire(),
            TransitionOutput::Consumed(id) => 2u8.wire() + id.wire(),
        }
    }

    fn encode_to(&self, out: &mut Vec<u8>) {
        match self {
            TransitionOutput::Minted(asset) => {
                0u8.encode_to(out);
                asset.encode_to(out);
            },
            TransitionOutput::Mutated(id, asset) => {
                1u8.encode_to(out);
                id.encode_to(out);
                asset.encode_to(out);
            },
            TransitionOutput::Consumed(id) => {
                2u8.encode_to(out);
                id.encode_to(out);
            },
        }
    }

    fn decode_from(bytes: &[u8], start: usize) -> (decoded: Option<(Self, usize)>) {
        proof {
            assert forall|value: Self| #[trigger] starts_with(bytes@, start as int, value.wire()) implies match value {
                TransitionOutput::Minted(asset) => starts_with(bytes@, start as int, 0u8.wire()) && starts_with(
                    bytes@,
                    start + 1,
                    asset.wire(),
                ),
                TransitionOutput::Mutated(id, asset) => starts_with(bytes@, start as int, 1u8.wire())
                    && starts_with(bytes@, start + 1, (id, asset).wire()),
                TransitionOutput::Consumed(id) => starts_with(bytes@, start as int, 2u8.wire()) && starts_with(
                    bytes@,
                    start + 1,
                    id.wire(),
                ),
            } by {
                match value {
                    TransitionOutput::Minted(asset) => {
                        lemma_starts_with_both(bytes@, start as int, 0u8.wire(), asset.wire());
                    },
                    TransitionOutput::Mutated(id, asset) => {
                        lemma_starts_with_both(bytes@, start as int, 1u8.wire(), (id, asset).wire());
                    },
                    TransitionOutput::Consumed(id) => {
                        lemma_starts_with_both(bytes@, start as int, 2u8.wire(), id.wire());
                    },
                }
            }
        }
        match u8::decode_from(bytes, start) {
            Some((0, middle)) => match Asset::decode_from(bytes, middle) {
                Some((asset, end)) => {
                    proof {
                        lemma_starts_with_joined(bytes@, start as int, 0u8.wire(), asset.wire());
                    }
                    Some((TransitionOutput::Minted(asset), end))
                },
                None => None,
            },
            Some((1, middle)) => match <(AssetId, Asset)>::decode_from(bytes, middle) {
                Some(((id, asset), end)) => {
                    proof {
                        lemma_starts_with_joined(bytes@, start as int, 1u8.wire(), (id, asset).wire());
                    }
                    Some((TransitionOutput::Mutated(id, asset), end))
                },
                None => None,
            },
            Some((2, middle)) => match AssetId::decode_from(bytes, middle) {
                Some((id, end)) => {
                    proof {
                        lemma_starts_with_joined(bytes@, start as int, 2u8.wire(), id.wire());
                    }
                    Some((TransitionOutput::Consumed(id), end))
                },
                None => None,
            },
            _ => None,
        }
    }
}

/// The bytes of the outputs of a move.
pub fn encode_outputs<AssetId: Wire, Asset: Wire>(outputs: &Vec<TransitionOutput<AssetId, Asset>>) -> (bytes: Vec<u8>)
    requires
        outputs.len() <= u32::MAX,
    ensures
        bytes@ == list_wire(outputs@),
{
    let mut bytes: Vec<u8> = Vec::new();
    encode_list(outputs, &mut bytes);
    bytes
}

/// The outputs whose bytes `bytes` are, where they are the bytes of a list of outputs.
pub fn decode_outputs<AssetId: Wire, Asset: Wire>(bytes: &[u8]) -> (decoded: Option<
    Vec<TransitionOutput<AssetId, Asset>>,
>)
    ensures
        decoded matches Some(outputs) ==> bytes@ == list_wire(outputs@),
        forall|outputs: Seq<TransitionOutput<AssetId, Asset>>|
            #![trigger list_wire(outputs)]
            bytes@ == list_wire(outputs) && outputs.len() <= u32::MAX ==> (decoded matches Some(read) && read@
                == outputs),
{
    proof {
        assert forall|outputs: Seq<TransitionOutput<AssetId, Asset>>|
            #![trigger list_wire(outputs)]
            bytes@ == list_wire(outputs) implies starts_with(bytes@, 0, list_wire(outputs)) by {
            assert(bytes@.subrange(0, bytes@.len() as int) =~= bytes@);
        }
    }
    match decode_list::<TransitionOutput<AssetId, Asset>>(bytes, 0) {
        Some((outputs, end)) => {
            if end == bytes.len() {
                Some(outputs)
            } else {
                None
            }
        },
        None => None,
    }
}

/// The outputs of a move that are written can be read again, and are then what they were.
pub proof fn lemma_outputs_round_trip<AssetId: Wire, Asset: Wire>(
    outputs: Vec<TransitionOutput<AssetId, Asset>>,
    written: Vec<u8>,
    read: &[u8],
    decoded: Option<Vec<TransitionOutput<AssetId, Asset>>>,
)
    requires
        outputs.len() <= u32::MAX,
        call_ensures(encode_outputs::<AssetId, Asset>, (&outputs,), written),
        read@ == written@,
        call_ensures(decode_outputs::<AssetId, Asset>, (read,), decoded),
    ensures
        decoded matches Some(again) && again@ == outputs@,
{
}

} // verus!
