use onchain_games::battlemogs::achievement_table::{AchievementKind, AchievementState, AchievementTable};
use onchain_games::battlemogs::asset::{BattleMogsAsset, BattleMogsVariant};
use onchain_games::battlemogs::config::{FeeType, GameEventType, Pricing, MILLIARD};
use onchain_games::battlemogs::error::{BattleMogsError, TransitionError};
use onchain_games::battlemogs::host::{
    get_payment_id, new_asset_id, prefix_of, AssetRecord, BattleMogsTransitionConfig, FundMove, HostSnapshot,
    RandomDraws, RandomSubject, TransitionOutput,
};
use onchain_games::battlemogs::kernel::{BreedType, BreedingKernel, NextGeneration};
use onchain_games::battlemogs::mogwai::{Mogwai, MogwaiGeneration, PhaseType, RarityType};
use onchain_games::battlemogs::transitions::{
    packed_rarity, unpacked_rarity, BattleMogsAction, BattleMogsTransition, KernelAnswers,
};

/// A kernel that is easy to follow: it copies rows, and answers with what its inputs spell out.
struct PlainKernel;

impl BreedingKernel for PlainKernel {
    fn pairing(_breed_type: BreedType, left: &[u8; 32], right: &[u8; 32]) -> [[u8; 32]; 2] {
        [*left, *right]
    }

    fn segmenting(dna: [[u8; 32]; 2], hash: [u8; 32]) -> [[u8; 32]; 2] {
        [dna[1], hash]
    }

    fn bake(rarity: RarityType, hash: [u8; 32]) -> RarityType {
        if hash[0] % 2 == 1 {
            RarityType::from(rarity.as_u8() + 1)
        } else {
            rarity
        }
    }

    fn sacrifice(
        _donor_generation: MogwaiGeneration,
        _donor_rarity: RarityType,
        donor_dna: &[[u8; 32]; 2],
        _target_generation: MogwaiGeneration,
        _target_rarity: RarityType,
        _target_dna: &[[u8; 32]; 2],
    ) -> u8 {
        donor_dna[0][0]
    }

    fn next_gen(
        generation_1: MogwaiGeneration,
        rarity_1: RarityType,
        generation_2: MogwaiGeneration,
        rarity_2: RarityType,
        hash: &[u8; 32],
    ) -> NextGeneration {
        let generation = if generation_1.as_u16() >= generation_2.as_u16() { generation_1 } else { generation_2 };
        let max_rarity = if rarity_1.as_u8() >= rarity_2.as_u8() { rarity_1 } else { rarity_2 };
        NextGeneration { rarity: RarityType::from(hash[0] % 6), generation, max_rarity }
    }
}

const ALICE_TABLE: u64 = 7;

fn draws() -> RandomDraws {
    RandomDraws {
        mogwai_id: [1; 32],
        create_mogwai: [2; 32],
        extend_mogwai: [3; 32],
        breed_mogwai: [4; 32],
        breed_next_gen: [5; 32],
        mogwai_hatch: [6; 32],
        mogwai_morph: [7; 32],
    }
}

fn mogwai(first_byte: u8, generation: MogwaiGeneration, rarity: RarityType, phase: PhaseType) -> Mogwai {
    let mut dna = [[0u8; 32]; 2];
    dna[0][0] = first_byte;
    dna[1][0] = 0xaa;
    Mogwai { dna, generation, rarity, phase }
}

fn mogwai_record(id: u64, owned: bool, funds: u128, genesis: u64, mogwai: Mogwai) -> AssetRecord {
    AssetRecord { id, owned, funds, asset: BattleMogsAsset { id, genesis, variant: BattleMogsVariant::Mogwai(mogwai) } }
}

fn table_record(id: u64, owned: bool) -> AssetRecord {
    let state = AchievementState::new(100);
    let table = AchievementTable {
        egg_hatcher: state,
        sacrificer: state,
        morpheus: state,
        legend_breeder: state,
        promiscuous: state,
    };
    AssetRecord {
        id,
        owned,
        funds: 0,
        asset: BattleMogsAsset { id, genesis: 1, variant: BattleMogsVariant::AchievementTable(table) },
    }
}

fn snapshot(block_number: u64, records: Vec<AssetRecord>) -> HostSnapshot {
    HostSnapshot { block_number, config: BattleMogsTransitionConfig::default(), records }
}

fn code(code: u8) -> TransitionError {
    TransitionError::Transition { code }
}

fn table_of(asset: &BattleMogsAsset<u64>) -> AchievementTable {
    match asset.variant {
        BattleMogsVariant::AchievementTable(table) => table,
        BattleMogsVariant::Mogwai(_) => panic!("not a table"),
    }
}

fn mogwai_in(asset: &BattleMogsAsset<u64>) -> Mogwai {
    match asset.variant {
        BattleMogsVariant::Mogwai(mogwai) => mogwai,
        BattleMogsVariant::AchievementTable(_) => panic!("not a mogwai"),
    }
}

#[test]
fn achievement_counts_up_to_its_target() {
    let state = AchievementState::new(3);
    assert_eq!(state, AchievementState::InProgress { current: 0, target: 3 });
    let state = state.update(2);
    assert_eq!(state, AchievementState::InProgress { current: 2, target: 3 });
    let state = state.update(1);
    assert_eq!(state, AchievementState::Completed);
}

#[test]
fn completed_achievement_stays_completed() {
    assert_eq!(AchievementState::Completed.update(1), AchievementState::Completed);
    assert_eq!(AchievementState::Completed.update(u16::MAX), AchievementState::Completed);
    let mut completed = AchievementState::Completed;
    assert_eq!(completed.increase_by(5), AchievementState::Completed);
}

#[test]
fn achievement_update_saturates() {
    let state = AchievementState::InProgress { current: u16::MAX - 1, target: u16::MAX };
    assert_eq!(state.update(u16::MAX), AchievementState::Completed);
    let mut state = AchievementState::InProgress { current: 10, target: 20 };
    assert_eq!(state.increase_by(9), AchievementState::InProgress { current: 19, target: 20 });
    assert_eq!(state, AchievementState::InProgress { current: 10, target: 20 });
    assert_eq!(state.increase_by(10), AchievementState::Completed);
}

#[test]
fn table_bump_touches_one_achievement() {
    let table = table_of(&table_record(ALICE_TABLE, true).asset);
    let bumped = table.bump(AchievementKind::Morpheus, 1);
    assert_eq!(bumped.morpheus, AchievementState::InProgress { current: 1, target: 100 });
    assert_eq!(bumped.egg_hatcher, table.egg_hatcher);
    assert_eq!(bumped.sacrificer, table.sacrificer);
    assert_eq!(bumped.legend_breeder, table.legend_breeder);
    assert_eq!(bumped.promiscuous, table.promiscuous);
}

#[test]
fn generation_coercion_saturates() {
    assert_eq!(MogwaiGeneration::coerce_from(0), MogwaiGeneration::First);
    assert_eq!(MogwaiGeneration::coerce_from(1), MogwaiGeneration::First);
    assert_eq!(MogwaiGeneration::coerce_from(9), MogwaiGeneration::Ninth);
    assert_eq!(MogwaiGeneration::coerce_from(16), MogwaiGeneration::Sixteenth);
    assert_eq!(MogwaiGeneration::coerce_from(17), MogwaiGeneration::Sixteenth);
    assert_eq!(MogwaiGeneration::coerce_from(u16::MAX), MogwaiGeneration::Sixteenth);
}

#[test]
fn generation_and_rarity_from_numbers() {
    assert_eq!(MogwaiGeneration::from(3u8), MogwaiGeneration::Third);
    assert_eq!(MogwaiGeneration::from(16u16), MogwaiGeneration::Sixteenth);
    assert_eq!(MogwaiGeneration::from(0u16), MogwaiGeneration::First);
    assert_eq!(MogwaiGeneration::from(17u16), MogwaiGeneration::Sixteenth);
    assert_eq!(MogwaiGeneration::from(u16::MAX), MogwaiGeneration::Sixteenth);
    assert_eq!(MogwaiGeneration::from(1u16), MogwaiGeneration::First);
    assert_eq!(MogwaiGeneration::from(0u8), MogwaiGeneration::First);
    assert_eq!(MogwaiGeneration::from(17u8), MogwaiGeneration::Sixteenth);
    assert_eq!(MogwaiGeneration::from(u8::MAX), MogwaiGeneration::Sixteenth);
    for num in 0..=40u16 {
        assert_eq!(MogwaiGeneration::from(num), MogwaiGeneration::from_u16(num));
        assert_eq!(MogwaiGeneration::from(num as u8), MogwaiGeneration::coerce_from(num));
    }
    assert_eq!(MogwaiGeneration::Twelfth.as_u16(), 12);
    assert_eq!(RarityType::from(0u8), RarityType::Common);
    assert_eq!(RarityType::from(5u8), RarityType::Mythical);
    assert_eq!(RarityType::from(6u16), RarityType::Common);
    assert_eq!(RarityType::Legendary.as_u8(), 4);
    assert_eq!(MogwaiGeneration::default(), MogwaiGeneration::First);
    assert_eq!(RarityType::default(), RarityType::Common);
    assert_eq!(PhaseType::default(), PhaseType::NoPhase);
}

#[test]
fn rarity_is_packed_into_the_low_half() {
    assert_eq!(packed_rarity(RarityType::Epic, RarityType::Mythical), 0x53);
    assert_eq!(unpacked_rarity(0x53), RarityType::Epic);
    assert_eq!(unpacked_rarity(0x50), RarityType::Common);
    assert_eq!(unpacked_rarity(0x05), RarityType::Mythical);
}

#[test]
fn phases_morph_forward() {
    assert_eq!(PhaseType::Hatched.next_phase(), PhaseType::Matured);
    assert_eq!(PhaseType::Matured.next_phase(), PhaseType::Mastered);
    assert_eq!(PhaseType::Mastered.next_phase(), PhaseType::Exalted);
    assert_eq!(PhaseType::Exalted.next_phase(), PhaseType::Exalted);
}

#[test]
fn prices_are_as_listed() {
    assert_eq!(MILLIARD, 1_000_000_000);
    assert_eq!(Pricing::fee_price(FeeType::Default), 1_000_000_000);
    assert_eq!(Pricing::fee_price(FeeType::Remove), 50_000_000_000);
    assert_eq!(Pricing::intrinsic_return(PhaseType::NoPhase), 0);
    assert_eq!(Pricing::intrinsic_return(PhaseType::Bred), 20_000_000_000);
    assert_eq!(Pricing::intrinsic_return(PhaseType::Hatched), 5_000_000_000);
    assert_eq!(Pricing::intrinsic_return(PhaseType::Matured), 3_000_000_000);
    assert_eq!(Pricing::intrinsic_return(PhaseType::Mastered), 2_000_000_000);
    assert_eq!(Pricing::intrinsic_return(PhaseType::Exalted), 1_000_000_000);
    assert_eq!(Pricing::pairing(RarityType::Common, RarityType::Common), 10_000_000_000);
    assert_eq!(Pricing::pairing(RarityType::Common, RarityType::Uncommon), 100_000_000_000);
    assert_eq!(Pricing::pairing(RarityType::Uncommon, RarityType::Uncommon), 200_000_000_000);
    assert_eq!(Pricing::pairing(RarityType::Rare, RarityType::Uncommon), 300_000_000_000);
    assert_eq!(Pricing::pairing(RarityType::Rare, RarityType::Rare), 400_000_000_000);
    assert_eq!(Pricing::pairing(RarityType::Epic, RarityType::Rare), 500_000_000_000);
    assert_eq!(Pricing::pairing(RarityType::Epic, RarityType::Epic), 1_000_000_000_000);
    assert_eq!(Pricing::pairing(RarityType::Legendary, RarityType::Epic), 1_500_000_000_000);
    assert_eq!(Pricing::pairing(RarityType::Legendary, RarityType::Legendary), 2_000_000_000_000);
    assert_eq!(Pricing::pairing(RarityType::Mythical, RarityType::Legendary), 10_000_000_000_000);
    assert_eq!(Pricing::pairing(RarityType::Mythical, RarityType::Mythical), 10_000_000_000_000);
    assert_eq!(Pricing::config_max_mogwais(0), 0);
    assert_eq!(Pricing::config_max_mogwais(1), 5_000_000_000_000_000);
    assert_eq!(Pricing::config_max_mogwais(2), 10_000_000_000_000_000);
    assert_eq!(Pricing::config_max_mogwais(3), 20_000_000_000_000_000);
    assert_eq!(Pricing::config_max_mogwais(4), 0);
}

#[test]
fn waiting_times_are_as_listed() {
    assert_eq!(GameEventType::time_till(GameEventType::Hatch), 100);
    assert_eq!(GameEventType::time_till(GameEventType::Default), 0);
    assert_eq!(GameEventType::default(), GameEventType::Default);
}

#[test]
fn default_config_is_as_listed() {
    let config = BattleMogsTransitionConfig::default();
    assert_eq!(config.max_mogwais, 10);
    assert_eq!(config.target_egg_hatcher, 100);
    assert_eq!(config.target_sacrificer, 100);
    assert_eq!(config.target_morpheus, 100);
    assert_eq!(config.target_legend_breeder, 100);
    assert_eq!(config.target_promiscuous, 100);
}

#[test]
fn breed_type_follows_the_height() {
    assert_eq!(BreedType::calculate_breed_type(0), BreedType::DomDom);
    assert_eq!(BreedType::calculate_breed_type(19), BreedType::DomDom);
    assert_eq!(BreedType::calculate_breed_type(20), BreedType::DomRez);
    assert_eq!(BreedType::calculate_breed_type(39), BreedType::DomRez);
    assert_eq!(BreedType::calculate_breed_type(40), BreedType::RezDom);
    assert_eq!(BreedType::calculate_breed_type(59), BreedType::RezDom);
    assert_eq!(BreedType::calculate_breed_type(60), BreedType::RezRez);
    assert_eq!(BreedType::calculate_breed_type(79), BreedType::RezRez);
    assert_eq!(BreedType::calculate_breed_type(80), BreedType::DomDom);
    assert_eq!(BreedType::calculate_breed_type(1_000_045), BreedType::RezDom);
}

#[test]
fn new_id_is_the_head_of_the_hash_plus_nonce() {
    let mut hash = [0u8; 32];
    hash[0] = 0x01;
    hash[1] = 0x02;
    hash[7] = 0x09;
    hash[8] = 0xee;
    hash[31] = 0xff;
    assert_eq!(prefix_of(&hash), 0x0102_0000_0000_0009);
    assert_eq!(new_asset_id(&hash, 0), 0x0102_0000_0000_0009);
    assert_eq!(new_asset_id(&hash, 5), 0x0102_0000_0000_000e);
    assert_eq!(new_asset_id(&[0xff; 32], 1), u64::MAX);
    assert_eq!(new_asset_id(&[0xff; 32], 0), u64::MAX);
    assert_eq!(new_asset_id(&[0; 32], 77), 77);
}

#[test]
fn subjects_are_named() {
    assert_eq!(RandomSubject::MogwaiId.name(), "mogwai_id");
    assert_eq!(RandomSubject::CreateMogwai.name(), "create_mogwai");
    assert_eq!(RandomSubject::ExtendMogwai.name(), "extend_mogwai");
    assert_eq!(RandomSubject::BreedMogwai.name(), "breed_mogwai");
    assert_eq!(RandomSubject::BreedNextGen.name(), "breed_next_gen");
    assert_eq!(RandomSubject::MogwaiHatch.name(), "mogwai_hatch");
    assert_eq!(RandomSubject::MogwaiMorph.name(), "mogwai_morph");
}

#[test]
fn payment_falls_back_to_the_native_fund() {
    assert_eq!(get_payment_id(Some(4u32), 0u32), 4);
    assert_eq!(get_payment_id(None, 9u32), 9);
}

#[test]
fn errors_carry_their_code() {
    assert_eq!(BattleMogsError::from(5), TransitionError::Transition { code: 5 });
    assert_eq!(FundMove::Deposit { asset: 1, amount: 2 }.failure(), code(100));
    assert_eq!(FundMove::Withdraw { asset: 1, amount: 2 }.failure(), code(101));
}

#[test]
fn assets_know_their_kind() {
    let bred = mogwai(0, MogwaiGeneration::First, RarityType::Rare, PhaseType::Bred);
    let mut mogwai_asset = mogwai_record(1, true, 0, 0, bred).asset;
    let mut table_asset = table_record(2, true).asset;
    assert!(mogwai_asset.is_mogwai());
    assert!(!mogwai_asset.is_achievement());
    assert!(table_asset.is_achievement());
    assert!(!table_asset.is_mogwai());
    assert_eq!(mogwai_asset.get_id(), 1);
    assert_eq!(mogwai_asset.as_achievement().unwrap_err(), code(4));
    assert_eq!(table_asset.as_mogwai().unwrap_err(), code(3));
    mogwai_asset.as_mogwai().unwrap().phase = PhaseType::Hatched;
    assert_eq!(mogwai_in(&mogwai_asset).phase, PhaseType::Hatched);
    table_asset.as_achievement().unwrap().morpheus = AchievementState::Completed;
    assert_eq!(table_of(&table_asset).morpheus, AchievementState::Completed);
}

#[test]
fn player_registers_once() {
    let host = snapshot(12, vec![]);
    let plan = BattleMogsTransition::register_player(&host, &draws()).unwrap();
    assert!(plan.moves.is_empty());
    assert_eq!(plan.outputs.len(), 1);
    match plan.outputs[0] {
        TransitionOutput::Minted(asset) => {
            assert_eq!(asset.id, 0x0101_0101_0101_0101 + 12);
            assert_eq!(asset.genesis, 12);
            let table = table_of(&asset);
            assert_eq!(table.egg_hatcher, AchievementState::InProgress { current: 0, target: 100 });
            assert_eq!(table.promiscuous, AchievementState::InProgress { current: 0, target: 100 });
        },
        _ => panic!("a table should be minted"),
    }
    let host = snapshot(12, vec![table_record(ALICE_TABLE, true)]);
    assert_eq!(BattleMogsTransition::register_player(&host, &draws()).unwrap_err(), code(2));
    let host = snapshot(12, vec![table_record(ALICE_TABLE, false)]);
    assert!(BattleMogsTransition::register_player(&host, &draws()).is_ok());
}

#[test]
fn mogwai_is_created_in_bred_phase() {
    let host = snapshot(25, vec![]);
    let plan = BattleMogsTransition::create_mogwai::<PlainKernel>(&host, &draws()).unwrap();
    assert!(plan.moves.is_empty());
    assert_eq!(plan.outputs.len(), 1);
    match plan.outputs[0] {
        TransitionOutput::Minted(asset) => {
            assert_eq!(asset.id, 0x0101_0101_0101_0101 + 25);
            assert_eq!(asset.genesis, 25);
            let mogwai = mogwai_in(&asset);
            assert_eq!(mogwai.phase, PhaseType::Bred);
            assert_eq!(mogwai.generation, MogwaiGeneration::First);
            assert_eq!(mogwai.rarity, RarityType::Rare);
            assert_eq!(mogwai.dna, [[2; 32], [3; 32]]);
        },
        _ => panic!("a mogwai should be minted"),
    }
}

#[test]
fn mogwai_limit_is_kept() {
    let bred = mogwai(0, MogwaiGeneration::First, RarityType::Common, PhaseType::Bred);
    let mut records: Vec<AssetRecord> = (0..10).map(|id| mogwai_record(id, true, 0, 0, bred)).collect();
    records.push(mogwai_record(50, false, 0, 0, bred));
    records.push(table_record(ALICE_TABLE, true));
    assert!(BattleMogsTransition::create_mogwai::<PlainKernel>(&snapshot(1, records.clone()), &draws()).is_ok());
    records.push(mogwai_record(10, true, 0, 0, bred));
    assert_eq!(
        BattleMogsTransition::create_mogwai::<PlainKernel>(&snapshot(1, records), &draws()).unwrap_err(),
        code(1)
    );
}

#[test]
fn mogwai_is_removed_in_any_phase() {
    let bred = mogwai(0, MogwaiGeneration::First, RarityType::Common, PhaseType::Bred);
    let host = snapshot(
        1,
        vec![mogwai_record(3, true, 0, 0, bred), mogwai_record(4, false, 0, 0, bred), table_record(5, true)],
    );
    let plan = BattleMogsTransition::remove_mogwai(&host, &3).unwrap();
    assert!(plan.moves.is_empty());
    assert_eq!(plan.outputs, vec![TransitionOutput::Consumed(3)]);
    assert_eq!(BattleMogsTransition::remove_mogwai(&host, &4).unwrap_err(), TransitionError::AssetOwnership);
    assert_eq!(BattleMogsTransition::remove_mogwai(&host, &9).unwrap_err(), TransitionError::AssetOwnership);
    assert_eq!(BattleMogsTransition::remove_mogwai(&host, &5).unwrap_err(), code(3));
}

#[test]
fn board_hatching_timer() {
    let created = BattleMogsTransition::create_mogwai::<PlainKernel>(&snapshot(100, vec![]), &draws()).unwrap();
    let asset = match created.outputs[0] {
        TransitionOutput::Minted(asset) => asset,
        _ => panic!("a mogwai should be minted"),
    };
    assert_eq!(asset.genesis, 100);
    let records = vec![
        AssetRecord { id: asset.id, owned: true, funds: 0, asset },
        table_record(ALICE_TABLE, true),
    ];
    let action = BattleMogsAction::Hatch { mogwai: asset.id, table: ALICE_TABLE };

    let early = BattleMogsTransition::do_transition::<PlainKernel>(&action, &snapshot(199, records.clone()), &draws());
    assert_eq!(early.unwrap_err(), code(100));

    let plan = BattleMogsTransition::do_transition::<PlainKernel>(&action, &snapshot(200, records), &draws()).unwrap();
    assert!(plan.moves.is_empty());
    assert_eq!(plan.outputs.len(), 2);
    match plan.outputs[0] {
        TransitionOutput::Mutated(id, hatched) => {
            assert_eq!(id, asset.id);
            assert_eq!(hatched.id, asset.id);
            assert_eq!(hatched.genesis, 100);
            let before = mogwai_in(&asset);
            let after = mogwai_in(&hatched);
            assert_eq!(after.phase, PhaseType::Hatched);
            assert_eq!(after.generation, before.generation);
            assert_eq!(after.dna, [before.dna[1], [6; 32]]);
            assert_eq!(after.rarity, before.rarity);
        },
        _ => panic!("the mogwai should be mutated"),
    }
    match plan.outputs[1] {
        TransitionOutput::Mutated(id, table) => {
            assert_eq!(id, ALICE_TABLE);
            assert_eq!(table_of(&table).egg_hatcher, AchievementState::InProgress { current: 1, target: 100 });
        },
        _ => panic!("the table should be mutated"),
    }
}

#[test]
fn hatch_needs_a_bred_mogwai_of_the_account() {
    let hatched = mogwai(0, MogwaiGeneration::First, RarityType::Common, PhaseType::Hatched);
    let bred = mogwai(0, MogwaiGeneration::First, RarityType::Common, PhaseType::Bred);
    let host = snapshot(
        500,
        vec![
            mogwai_record(1, true, 0, 0, hatched),
            mogwai_record(2, false, 0, 0, bred),
            mogwai_record(3, true, 0, 0, bred),
            table_record(ALICE_TABLE, true),
            table_record(8, false),
        ],
    );
    let hatch = |mogwai: u64, table: u64| BattleMogsTransition::hatch_mogwai::<PlainKernel>(
        &host,
        &draws(),
        &mogwai,
        &table,
    );
    assert_eq!(hatch(1, ALICE_TABLE).unwrap_err(), code(7));
    assert_eq!(hatch(2, ALICE_TABLE).unwrap_err(), TransitionError::AssetOwnership);
    assert_eq!(hatch(ALICE_TABLE, ALICE_TABLE).unwrap_err(), code(3));
    assert_eq!(hatch(99, ALICE_TABLE).unwrap_err(), TransitionError::AssetOwnership);
    assert_eq!(hatch(3, ALICE_TABLE).unwrap().outputs.len(), 2);
}

#[test]
fn moves_go_on_without_a_table_to_count_in() {
    let hatched = mogwai(2, MogwaiGeneration::First, RarityType::Rare, PhaseType::Hatched);
    let bred = mogwai(0, MogwaiGeneration::First, RarityType::Common, PhaseType::Bred);
    let host = snapshot(
        500,
        vec![
            mogwai_record(1, true, 30_000_000_000, 0, hatched),
            mogwai_record(2, true, 0, 0, hatched),
            mogwai_record(3, true, 0, 0, bred),
            mogwai_record(4, false, 0, 0, hatched),
            table_record(8, false),
        ],
    );
    for table in [8u64, 1, 77] {
        let plan = BattleMogsTransition::hatch_mogwai::<PlainKernel>(&host, &draws(), &3, &table).unwrap();
        assert_eq!(plan.outputs.len(), 1);
        match plan.outputs[0] {
            TransitionOutput::Mutated(id, asset) => {
                assert_eq!(id, 3);
                assert_eq!(mogwai_in(&asset).phase, PhaseType::Hatched);
            },
            _ => panic!("the mogwai should be mutated"),
        }
        let plan = BattleMogsTransition::sacrifice_mogwai(&host, &1, &table).unwrap();
        assert_eq!(plan.moves, vec![FundMove::Withdraw { asset: 1, amount: 6 }]);
        assert_eq!(plan.outputs, vec![TransitionOutput::Consumed(1)]);
        let plan = BattleMogsTransition::sacrifice_mogwai_into::<PlainKernel>(&host, &1, &2, &table).unwrap();
        assert_eq!(plan.outputs.len(), 2);
        assert_eq!(plan.outputs[0], TransitionOutput::Consumed(1));
        let plan = BattleMogsTransition::morph_mogwai::<PlainKernel>(&host, &draws(), &1, &table).unwrap();
        assert_eq!(plan.outputs.len(), 1);
        let plan = BattleMogsTransition::breed_mogwais::<PlainKernel>(&host, &draws(), &1, &4, &table).unwrap();
        assert_eq!(plan.outputs.len(), 1);
        assert_eq!(plan.moves.len(), 1);
    }
}

#[test]
fn plan_takes_the_answers_of_the_kernel_as_they_are() {
    let hatched = mogwai(2, MogwaiGeneration::Fourth, RarityType::Rare, PhaseType::Hatched);
    let bred = mogwai(0, MogwaiGeneration::First, RarityType::Common, PhaseType::Bred);
    let host = snapshot(
        500,
        vec![
            mogwai_record(1, true, 9, 0, hatched),
            mogwai_record(2, true, 0, 0, hatched),
            mogwai_record(3, true, 0, 0, bred),
            table_record(ALICE_TABLE, true),
        ],
    );
    let answers = KernelAnswers {
        next_generation: NextGeneration {
            rarity: RarityType::Legendary,
            generation: MogwaiGeneration::Ninth,
            max_rarity: RarityType::Mythical,
        },
        dna: [[0x11; 32], [0x22; 32]],
        rarity: RarityType::Epic,
        jump: 5,
    };
    let plan = |action: BattleMogsAction| BattleMogsTransition::plan_transition(&action, &host, &draws(), &answers);

    let hatch = plan(BattleMogsAction::Hatch { mogwai: 3, table: ALICE_TABLE }).unwrap();
    match hatch.outputs[0] {
        TransitionOutput::Mutated(3, asset) => {
            assert_eq!(mogwai_in(&asset).dna, answers.dna);
            assert_eq!(mogwai_in(&asset).rarity, RarityType::Epic);
            assert_eq!(mogwai_in(&asset).phase, PhaseType::Hatched);
        },
        _ => panic!("the mogwai should be mutated"),
    }
    assert_eq!(hatch, BattleMogsTransition::plan_hatch(&host, &3, &ALICE_TABLE, answers.dna, answers.rarity).unwrap());
    assert_eq!(plan(BattleMogsAction::Hatch { mogwai: 1, table: ALICE_TABLE }).unwrap_err(), code(7));

    let morph = plan(BattleMogsAction::Morph { mogwai: 1, table: ALICE_TABLE }).unwrap();
    match morph.outputs[0] {
        TransitionOutput::Mutated(1, asset) => {
            assert_eq!(mogwai_in(&asset).dna, answers.dna);
            assert_eq!(mogwai_in(&asset).phase, PhaseType::Matured);
        },
        _ => panic!("the mogwai should be mutated"),
    }

    let into = plan(BattleMogsAction::SacrificeInto { mogwai: 1, into: 2, table: ALICE_TABLE }).unwrap();
    assert_eq!(into.moves, vec![FundMove::Withdraw { asset: 1, amount: 9 }, FundMove::Deposit { asset: 2, amount: 9 }]);
    match into.outputs[1] {
        TransitionOutput::Mutated(2, asset) => assert_eq!(mogwai_in(&asset).generation, MogwaiGeneration::Ninth),
        _ => panic!("the target should be mutated"),
    }
    let too_far = BattleMogsTransition::plan_sacrifice_into(&host, &1, &2, &ALICE_TABLE, 13).unwrap();
    assert!(too_far.moves.is_empty());
    assert_eq!(too_far.outputs[1], TransitionOutput::Mutated(2, host.records[1].asset));

    let child = plan(BattleMogsAction::Breed { mogwai_1: 1, mogwai_2: 2, table: ALICE_TABLE }).unwrap();
    assert_eq!(child.outputs.len(), 1);
    match child.outputs[0] {
        TransitionOutput::Minted(asset) => {
            assert_eq!(mogwai_in(&asset).generation, MogwaiGeneration::Ninth);
            assert_eq!(mogwai_in(&asset).rarity, RarityType::Legendary);
            assert_eq!(mogwai_in(&asset).dna, answers.dna);
        },
        _ => panic!("a child should be minted"),
    }
    let made = plan(BattleMogsAction::CreateMogwai).unwrap();
    assert_eq!(made, BattleMogsTransition::plan_create(&host, &draws(), answers.next_generation, answers.dna).unwrap());
    assert_eq!(plan(BattleMogsAction::RegisterPlayer).unwrap_err(), code(2));
    assert_eq!(plan(BattleMogsAction::Remove { mogwai: 3 }).unwrap().outputs, vec![TransitionOutput::Consumed(3)]);
    assert_eq!(plan(BattleMogsAction::Sacrifice { mogwai: 3, table: ALICE_TABLE }).unwrap_err(), code(6));
    assert_eq!(plan(BattleMogsAction::Morph { mogwai: 3, table: ALICE_TABLE }).unwrap_err(), code(6));
    assert_eq!(
        plan(BattleMogsAction::Morph { mogwai: 1, table: ALICE_TABLE }),
        BattleMogsTransition::plan_morph(&host, &1, &ALICE_TABLE, answers.dna, answers.rarity)
    );
    assert_eq!(
        plan(BattleMogsAction::Breed { mogwai_1: 1, mogwai_2: 2, table: ALICE_TABLE }),
        BattleMogsTransition::plan_breed(&host, &draws(), &1, &2, &ALICE_TABLE, answers.next_generation, answers.dna)
    );
}

#[test]
fn breed_same_asset_rejection() {
    let host = snapshot(1, vec![]);
    let action = BattleMogsAction::Breed { mogwai_1: 42, mogwai_2: 42, table: 7 };
    let result = BattleMogsTransition::do_transition::<PlainKernel>(&action, &host, &draws());
    assert_eq!(result.unwrap_err(), TransitionError::Transition { code: 5 });
}

#[test]
fn breeding_mints_a_child_and_pays_the_second_parent() {
    let mother = mogwai(1, MogwaiGeneration::Third, RarityType::Epic, PhaseType::Hatched);
    let father = mogwai(2, MogwaiGeneration::Fifth, RarityType::Rare, PhaseType::Matured);
    let host = snapshot(
        65,
        vec![
            mogwai_record(40, true, 0, 0, mother),
            mogwai_record(30, false, 0, 0, father),
            table_record(ALICE_TABLE, true),
        ],
    );
    let mut hashes = draws();
    hashes.breed_next_gen = [11; 32];
    let plan = BattleMogsTransition::breed_mogwais::<PlainKernel>(&host, &hashes, &40, &30, &ALICE_TABLE).unwrap();
    assert_eq!(plan.moves, vec![FundMove::Deposit { asset: 30, amount: 500_000_000_000 }]);
    assert_eq!(plan.outputs.len(), 2);
    match plan.outputs[0] {
        TransitionOutput::Minted(child) => {
            assert_eq!(child.id, 0x0404_0404_0404_0404 + (40 + 30) % 31);
            assert_eq!(child.genesis, 65);
            let mogwai = mogwai_in(&child);
            assert_eq!(mogwai.phase, PhaseType::Bred);
            assert_eq!(mogwai.generation, MogwaiGeneration::Fifth);
            assert_eq!(mogwai.rarity, RarityType::Mythical);
            assert_eq!(mogwai.dna, [mother.dna[0], father.dna[0]]);
        },
        _ => panic!("a child should be minted"),
    }
    match plan.outputs[1] {
        TransitionOutput::Mutated(id, table) => {
            assert_eq!(id, ALICE_TABLE);
            let table = table_of(&table);
            assert_eq!(table.legend_breeder, AchievementState::InProgress { current: 1, target: 100 });
            assert_eq!(table.promiscuous, AchievementState::InProgress { current: 1, target: 100 });
            assert_eq!(table.egg_hatcher, AchievementState::InProgress { current: 0, target: 100 });
        },
        _ => panic!("the table should be mutated"),
    }
}

#[test]
fn breeding_own_mogwais_without_a_legend_leaves_the_table() {
    let mother = mogwai(1, MogwaiGeneration::Third, RarityType::Common, PhaseType::Hatched);
    let father = mogwai(2, MogwaiGeneration::Second, RarityType::Common, PhaseType::Matured);
    let host = snapshot(
        5,
        vec![
            mogwai_record(40, true, 0, 0, mother),
            mogwai_record(30, true, 0, 0, father),
            table_record(ALICE_TABLE, true),
        ],
    );
    let mut hashes = draws();
    hashes.breed_next_gen = [6; 32];
    let plan = BattleMogsTransition::breed_mogwais::<PlainKernel>(&host, &hashes, &40, &30, &ALICE_TABLE).unwrap();
    assert_eq!(plan.moves, vec![FundMove::Deposit { asset: 30, amount: 10_000_000_000 }]);
    assert_eq!(plan.outputs.len(), 1);
    match plan.outputs[0] {
        TransitionOutput::Minted(child) => {
            assert_eq!(mogwai_in(&child).rarity, RarityType::Common);
            assert_eq!(mogwai_in(&child).generation, MogwaiGeneration::Third);
        },
        _ => panic!("a child should be minted"),
    }
}

#[test]
fn breeding_is_turned_down() {
    let hatched = mogwai(1, MogwaiGeneration::Third, RarityType::Common, PhaseType::Hatched);
    let bred = mogwai(2, MogwaiGeneration::Second, RarityType::Common, PhaseType::Bred);
    let host = snapshot(
        5,
        vec![
            mogwai_record(1, true, 0, 0, hatched),
            mogwai_record(2, true, 0, 0, bred),
            mogwai_record(3, false, 0, 0, hatched),
            mogwai_record(4, false, 0, 0, bred),
            table_record(ALICE_TABLE, true),
            table_record(8, false),
        ],
    );
    let breed = |first: u64, second: u64, table: u64| {
        BattleMogsTransition::breed_mogwais::<PlainKernel>(&host, &draws(), &first, &second, &table)
    };
    assert_eq!(breed(1, 1, ALICE_TABLE).unwrap_err(), code(5));
    assert_eq!(breed(3, 1, ALICE_TABLE).unwrap_err(), TransitionError::AssetOwnership);
    assert_eq!(breed(2, 1, ALICE_TABLE).unwrap_err(), code(6));
    assert_eq!(breed(1, 99, ALICE_TABLE).unwrap_err(), code(0));
    assert_eq!(breed(1, ALICE_TABLE, ALICE_TABLE).unwrap_err(), code(3));
    assert_eq!(breed(1, 4, ALICE_TABLE).unwrap_err(), code(6));
    assert_eq!(breed(1, 3, 8).unwrap().outputs.len(), 1);
    assert_eq!(breed(1, 3, 3).unwrap().outputs.len(), 1);
    assert_eq!(breed(1, 3, 1).unwrap().outputs.len(), 1);
    assert_eq!(breed(1, 3, ALICE_TABLE).unwrap().outputs.len(), 2);
}

#[test]
fn sacrifice_returns_a_share_of_the_funds() {
    let matured = mogwai(1, MogwaiGeneration::Third, RarityType::Common, PhaseType::Matured);
    let bred = mogwai(1, MogwaiGeneration::Third, RarityType::Common, PhaseType::Bred);
    let unborn = mogwai(1, MogwaiGeneration::Third, RarityType::Common, PhaseType::NoPhase);
    let host = snapshot(
        5,
        vec![
            mogwai_record(1, true, 10_000_000_000, 0, matured),
            mogwai_record(2, true, 10_000_000_000, 0, bred),
            mogwai_record(3, true, 10_000_000_000, 0, unborn),
            table_record(ALICE_TABLE, true),
        ],
    );
    let plan = BattleMogsTransition::sacrifice_mogwai(&host, &1, &ALICE_TABLE).unwrap();
    assert_eq!(plan.moves, vec![FundMove::Withdraw { asset: 1, amount: 3 }]);
    assert_eq!(plan.outputs.len(), 2);
    assert_eq!(plan.outputs[0], TransitionOutput::Consumed(1));
    match plan.outputs[1] {
        TransitionOutput::Mutated(id, table) => {
            assert_eq!(id, ALICE_TABLE);
            assert_eq!(table_of(&table).sacrificer, AchievementState::InProgress { current: 1, target: 100 });
        },
        _ => panic!("the table should be mutated"),
    }
    assert_eq!(BattleMogsTransition::sacrifice_mogwai(&host, &2, &ALICE_TABLE).unwrap_err(), code(6));
    let plan = BattleMogsTransition::sacrifice_mogwai(&host, &3, &ALICE_TABLE).unwrap();
    assert_eq!(plan.moves, vec![FundMove::Withdraw { asset: 3, amount: 0 }]);
}

#[test]
fn sacrifice_into_moves_all_funds_and_lifts_the_generation() {
    let donor = mogwai(2, MogwaiGeneration::Third, RarityType::Rare, PhaseType::Hatched);
    let target = mogwai(9, MogwaiGeneration::Fourteenth, RarityType::Epic, PhaseType::Matured);
    let host = snapshot(
        5,
        vec![
            mogwai_record(1, true, 777, 0, donor),
            mogwai_record(2, true, 23, 0, target),
            table_record(ALICE_TABLE, true),
        ],
    );
    let plan = BattleMogsTransition::sacrifice_mogwai_into::<PlainKernel>(&host, &1, &2, &ALICE_TABLE).unwrap();
    assert_eq!(
        plan.moves,
        vec![FundMove::Withdraw { asset: 1, amount: 777 }, FundMove::Deposit { asset: 2, amount: 777 }]
    );
    assert_eq!(plan.outputs.len(), 3);
    assert_eq!(plan.outputs[0], TransitionOutput::Consumed(1));
    match plan.outputs[1] {
        TransitionOutput::Mutated(id, asset) => {
            assert_eq!(id, 2);
            let after = mogwai_in(&asset);
            assert_eq!(after.generation, MogwaiGeneration::Sixteenth);
            assert_eq!(after.phase, PhaseType::Matured);
            assert_eq!(after.rarity, RarityType::Epic);
            assert_eq!(after.dna, target.dna);
        },
        _ => panic!("the target should be mutated"),
    }
    match plan.outputs[2] {
        TransitionOutput::Mutated(id, table) => {
            assert_eq!(id, ALICE_TABLE);
            assert_eq!(table_of(&table).sacrificer, AchievementState::InProgress { current: 1, target: 100 });
        },
        _ => panic!("the table should be mutated"),
    }
}

#[test]
fn sacrifice_into_without_a_jump_moves_nothing() {
    let idle = mogwai(0, MogwaiGeneration::Third, RarityType::Rare, PhaseType::Hatched);
    let eager = mogwai(3, MogwaiGeneration::Third, RarityType::Rare, PhaseType::Hatched);
    let target = mogwai(9, MogwaiGeneration::Fourteenth, RarityType::Epic, PhaseType::Matured);
    let host = snapshot(
        5,
        vec![
            mogwai_record(1, true, 777, 0, idle),
            mogwai_record(2, true, 23, 0, target),
            mogwai_record(3, true, 5, 0, eager),
            table_record(ALICE_TABLE, true),
        ],
    );
    for donor in [1u64, 3u64] {
        let plan = BattleMogsTransition::sacrifice_mogwai_into::<PlainKernel>(&host, &donor, &2, &ALICE_TABLE).unwrap();
        assert!(plan.moves.is_empty());
        assert_eq!(plan.outputs[0], TransitionOutput::Consumed(donor));
        assert_eq!(plan.outputs[1], TransitionOutput::Mutated(2, host.records[1].asset));
    }
}

#[test]
fn sacrifice_into_is_turned_down() {
    let common = mogwai(1, MogwaiGeneration::Third, RarityType::Common, PhaseType::Hatched);
    let bred = mogwai(1, MogwaiGeneration::Third, RarityType::Rare, PhaseType::Bred);
    let fine = mogwai(1, MogwaiGeneration::Third, RarityType::Rare, PhaseType::Hatched);
    let host = snapshot(
        5,
        vec![
            mogwai_record(1, true, 0, 0, common),
            mogwai_record(2, true, 0, 0, bred),
            mogwai_record(3, true, 0, 0, fine),
            mogwai_record(4, false, 0, 0, fine),
            mogwai_record(5, true, 0, 0, fine),
            table_record(ALICE_TABLE, true),
        ],
    );
    let sacrifice = |donor: u64, target: u64| {
        BattleMogsTransition::sacrifice_mogwai_into::<PlainKernel>(&host, &donor, &target, &ALICE_TABLE)
    };
    assert_eq!(sacrifice(1, 3).unwrap_err(), code(8));
    assert_eq!(sacrifice(3, 1).unwrap_err(), code(8));
    assert_eq!(sacrifice(2, 3).unwrap_err(), code(6));
    assert_eq!(sacrifice(3, 2).unwrap_err(), code(6));
    assert_eq!(sacrifice(4, 3).unwrap_err(), TransitionError::AssetOwnership);
    assert_eq!(sacrifice(3, 4).unwrap_err(), TransitionError::AssetOwnership);
    assert!(sacrifice(3, 5).is_ok());
}

#[test]
fn morph_pays_the_fee_and_moves_on() {
    let hatched = mogwai(1, MogwaiGeneration::Third, RarityType::Rare, PhaseType::Hatched);
    let bred = mogwai(1, MogwaiGeneration::Third, RarityType::Rare, PhaseType::Bred);
    let host = snapshot(
        5,
        vec![
            mogwai_record(1, true, 0, 0, hatched),
            mogwai_record(2, true, 0, 0, bred),
            table_record(ALICE_TABLE, true),
        ],
    );
    let plan = BattleMogsTransition::morph_mogwai::<PlainKernel>(&host, &draws(), &1, &ALICE_TABLE).unwrap();
    assert_eq!(plan.moves, vec![FundMove::Deposit { asset: 1, amount: 1_000_000_000 }]);
    match plan.outputs[0] {
        TransitionOutput::Mutated(id, asset) => {
            assert_eq!(id, 1);
            let after = mogwai_in(&asset);
            assert_eq!(after.phase, PhaseType::Matured);
            assert_eq!(after.rarity, RarityType::Epic);
            assert_eq!(after.dna, [hatched.dna[1], [7; 32]]);
            assert_eq!(after.generation, MogwaiGeneration::Third);
        },
        _ => panic!("the mogwai should be mutated"),
    }
    match plan.outputs[1] {
        TransitionOutput::Mutated(id, table) => {
            assert_eq!(id, ALICE_TABLE);
            assert_eq!(table_of(&table).morpheus, AchievementState::InProgress { current: 1, target: 100 });
        },
        _ => panic!("the table should be mutated"),
    }
    assert_eq!(
        BattleMogsTransition::morph_mogwai::<PlainKernel>(&host, &draws(), &2, &ALICE_TABLE).unwrap_err(),
        code(6)
    );
}

#[test]
fn same_move_gives_same_plan() {
    let mother = mogwai(1, MogwaiGeneration::Third, RarityType::Epic, PhaseType::Hatched);
    let father = mogwai(2, MogwaiGeneration::Fifth, RarityType::Rare, PhaseType::Matured);
    let records = vec![
        mogwai_record(40, true, 0, 0, mother),
        mogwai_record(30, false, 0, 0, father),
        table_record(ALICE_TABLE, true),
    ];
    let action = BattleMogsAction::Breed { mogwai_1: 40, mogwai_2: 30, table: ALICE_TABLE };
    let first =
        BattleMogsTransition::do_transition::<PlainKernel>(&action, &snapshot(65, records.clone()), &draws()).unwrap();
    let second = BattleMogsTransition::do_transition::<PlainKernel>(&action, &snapshot(65, records), &draws()).unwrap();
    assert_eq!(first.moves, second.moves);
    assert_eq!(first.outputs, second.outputs);
}

#[test]
fn do_transition_reaches_every_move() {
    let fine = mogwai(1, MogwaiGeneration::Third, RarityType::Rare, PhaseType::Hatched);
    let host = snapshot(
        5,
        vec![
            mogwai_record(1, true, 40_000_000_000, 0, fine),
            mogwai_record(2, true, 0, 0, fine),
            table_record(ALICE_TABLE, true),
        ],
    );
    let run = |action: BattleMogsAction| BattleMogsTransition::do_transition::<PlainKernel>(&action, &host, &draws());
    assert_eq!(run(BattleMogsAction::RegisterPlayer).unwrap_err(), code(2));
    assert_eq!(run(BattleMogsAction::CreateMogwai).unwrap().outputs.len(), 1);
    assert_eq!(run(BattleMogsAction::Remove { mogwai: 1 }).unwrap().outputs, vec![TransitionOutput::Consumed(1)]);
    assert_eq!(run(BattleMogsAction::Hatch { mogwai: 1, table: ALICE_TABLE }).unwrap_err(), code(100));
    assert_eq!(
        run(BattleMogsAction::Sacrifice { mogwai: 1, table: ALICE_TABLE }).unwrap().moves,
        vec![FundMove::Withdraw { asset: 1, amount: 8 }]
    );
    assert_eq!(
        run(BattleMogsAction::SacrificeInto { mogwai: 1, into: 2, table: ALICE_TABLE }).unwrap().outputs.len(),
        3,
    );
    assert_eq!(run(BattleMogsAction::Morph { mogwai: 1, table: ALICE_TABLE }).unwrap().outputs.len(), 2);
    assert_eq!(run(BattleMogsAction::Breed { mogwai_1: 1, mogwai_2: 2, table: ALICE_TABLE }).unwrap().moves.len(), 1);
}

fn phase_rank(phase: PhaseType) -> u8 {
    match phase {
        PhaseType::NoPhase => 0,
        PhaseType::Bred => 1,
        PhaseType::Hatched => 2,
        PhaseType::Matured => 3,
        PhaseType::Mastered => 4,
        PhaseType::Exalted => 5,
    }
}

#[test]
fn mogwai_goes_through_life_in_order() {
    let mut height = 100;
    let created = BattleMogsTransition::create_mogwai::<PlainKernel>(&snapshot(height, vec![]), &draws()).unwrap();
    let mut asset = match created.outputs[0] {
        TransitionOutput::Minted(asset) => asset,
        _ => panic!("a mogwai should be minted"),
    };
    let id = asset.id;
    let genesis = asset.genesis;
    let mut table = table_record(ALICE_TABLE, true);
    let mut seen = vec![mogwai_in(&asset).phase];
    let actions = [
        BattleMogsAction::Hatch { mogwai: id, table: ALICE_TABLE },
        BattleMogsAction::Morph { mogwai: id, table: ALICE_TABLE },
        BattleMogsAction::Morph { mogwai: id, table: ALICE_TABLE },
        BattleMogsAction::Morph { mogwai: id, table: ALICE_TABLE },
        BattleMogsAction::Morph { mogwai: id, table: ALICE_TABLE },
    ];
    for action in actions {
        height += 150;
        let records = vec![AssetRecord { id, owned: true, funds: 0, asset }, table];
        let plan =
            BattleMogsTransition::do_transition::<PlainKernel>(&action, &snapshot(height, records), &draws()).unwrap();
        for output in plan.outputs {
            match output {
                TransitionOutput::Mutated(changed, after) if changed == id => {
                    let before = mogwai_in(&asset);
                    let now = mogwai_in(&after);
                    assert!(phase_rank(now.phase) >= phase_rank(before.phase));
                    assert!((1..=16).contains(&now.generation.as_u16()));
                    assert!(now.rarity.as_u8() <= RarityType::Mythical.as_u8());
                    assert_eq!(after.genesis, genesis);
                    assert!(after.genesis <= height);
                    assert_eq!(after.id, id);
                    asset = after;
                    seen.push(now.phase);
                },
                TransitionOutput::Mutated(changed, after) => {
                    assert_eq!(changed, ALICE_TABLE);
                    assert!(after.genesis <= height);
                    table.asset = after;
                },
                _ => panic!("nothing should be minted or consumed"),
            }
        }
    }
    assert_eq!(
        seen,
        vec![
            PhaseType::Bred,
            PhaseType::Hatched,
            PhaseType::Matured,
            PhaseType::Mastered,
            PhaseType::Exalted,
            PhaseType::Exalted,
        ]
    );
    let counted = table_of(&table.asset);
    assert_eq!(counted.egg_hatcher, AchievementState::InProgress { current: 1, target: 100 });
    assert_eq!(counted.morpheus, AchievementState::InProgress { current: 4, target: 100 });
}

#[test]
fn achievement_completes_once_and_for_all() {
    let mut table = table_of(&table_record(ALICE_TABLE, true).asset);
    for round in 1..=120u16 {
        let before = table.sacrificer;
        table = table.bump(AchievementKind::Sacrificer, 1);
        match (before, table.sacrificer) {
            (
                AchievementState::InProgress { current: was, target },
                AchievementState::InProgress { current, target: same },
            ) => {
                assert_eq!(target, same);
                assert_eq!(current, was + 1);
                assert!(current < target);
                assert!(round < 100);
            },
            (AchievementState::InProgress { .. }, AchievementState::Completed) => assert_eq!(round, 100),
            (AchievementState::Completed, AchievementState::Completed) => assert!(round > 100),
            (AchievementState::Completed, AchievementState::InProgress { .. }) => panic!("completed is for good"),
        }
    }
}

#[test]
fn moves_name_the_draws_that_they_read() {
    assert_eq!(BattleMogsAction::RegisterPlayer.subjects(), vec![RandomSubject::MogwaiId]);
    assert_eq!(
        BattleMogsAction::CreateMogwai.subjects(),
        vec![RandomSubject::MogwaiId, RandomSubject::CreateMogwai, RandomSubject::ExtendMogwai]
    );
    assert_eq!(BattleMogsAction::Hatch { mogwai: 1, table: 2 }.subjects(), vec![RandomSubject::MogwaiHatch]);
    assert_eq!(BattleMogsAction::Morph { mogwai: 1, table: 2 }.subjects(), vec![RandomSubject::MogwaiMorph]);
    assert_eq!(
        BattleMogsAction::Breed { mogwai_1: 1, mogwai_2: 3, table: 2 }.subjects(),
        vec![RandomSubject::BreedMogwai, RandomSubject::BreedNextGen]
    );
    assert!(BattleMogsAction::Remove { mogwai: 1 }.subjects().is_empty());
    assert!(BattleMogsAction::Sacrifice { mogwai: 1, table: 2 }.subjects().is_empty());
    assert!(BattleMogsAction::SacrificeInto { mogwai: 1, into: 3, table: 2 }.subjects().is_empty());

    let none = RandomDraws::empty();
    assert_eq!(none.mogwai_id, [0; 32]);
    assert_eq!(none.mogwai_morph, [0; 32]);
    let some = none.with(RandomSubject::BreedNextGen, [9; 32]).with(RandomSubject::MogwaiId, [8; 32]);
    assert_eq!(some.breed_next_gen, [9; 32]);
    assert_eq!(some.mogwai_id, [8; 32]);
    assert_eq!(some.breed_mogwai, [0; 32]);
    let mut all = RandomDraws::empty();
    for (subject, byte) in [
        (RandomSubject::MogwaiId, 1u8),
        (RandomSubject::CreateMogwai, 2),
        (RandomSubject::ExtendMogwai, 3),
        (RandomSubject::BreedMogwai, 4),
        (RandomSubject::BreedNextGen, 5),
        (RandomSubject::MogwaiHatch, 6),
        (RandomSubject::MogwaiMorph, 7),
    ] {
        all = all.with(subject, [byte; 32]);
    }
    assert_eq!(all, draws());
}

#[test]
fn generation_saturates_by_either_name() {
    for num in [0u16, 1, 2, 15, 16, 17, 300, u16::MAX] {
        assert_eq!(MogwaiGeneration::from_u16(num), MogwaiGeneration::coerce_from(num));
    }
    assert_eq!(MogwaiGeneration::from_u16(17), MogwaiGeneration::Sixteenth);
    assert_eq!(MogwaiGeneration::from_u16(0), MogwaiGeneration::First);
}
