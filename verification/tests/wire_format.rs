use onchain_games::battlemogs::achievement_table::{AchievementState, AchievementTable};
use onchain_games::battlemogs::asset::{BattleMogsAsset, BattleMogsVariant};
use onchain_games::battlemogs::config::GameEventType;
use onchain_games::battlemogs::host::{BattleMogsTransitionConfig, TransitionOutput};
use onchain_games::battlemogs::kernel::BreedType;
use onchain_games::battlemogs::mogwai::{Mogwai, MogwaiGeneration, PhaseType, RarityType};
use onchain_games::battlemogs::transitions::BattleMogsAction;
use onchain_games::dot4gravity::board::{Board, Cell, Coordinates, Side};
use onchain_games::dot4gravity::game::Game;
use onchain_games::dot4gravity::sealed::{BombState, SealedGame};
use onchain_games::dot4gravity::state::{GameError, GamePhase, GameState, LastMove};
use onchain_games::wire::format::{
    decode, decode_compact, decode_le, decode_list, encode, encode_compact, encode_le, encode_list, Wire,
};
use onchain_games::wire::mogwai_records::{decode_outputs, encode_outputs};
use parity_scale_codec::{Compact, Encode};

fn round_trip<T: Wire + PartialEq + std::fmt::Debug>(value: T) -> Vec<u8> {
    let bytes = encode(&value);
    assert_eq!(decode::<T>(&bytes), Some(value));
    let mut longer = bytes.clone();
    longer.push(0);
    assert_eq!(decode::<T>(&longer), None);
    assert_eq!(decode::<T>(&bytes[..bytes.len() - 1]), None);
    let mut shifted = vec![0xaa, 0xbb];
    shifted.extend_from_slice(&bytes);
    shifted.push(0xcc);
    match T::decode_from(&shifted, 2) {
        Some((read, end)) => {
            assert_eq!(read, encode_back(&bytes));
            assert_eq!(end, 2 + bytes.len());
        },
        None => panic!("a record should be read"),
    }
    bytes
}

fn encode_back<T: Wire>(bytes: &[u8]) -> T {
    decode::<T>(bytes).unwrap()
}

fn sample_mogwai() -> Mogwai {
    let mut dna = [[0u8; 32]; 2];
    for (i, byte) in dna[0].iter_mut().enumerate() {
        *byte = i as u8;
    }
    for (i, byte) in dna[1].iter_mut().enumerate() {
        *byte = 0xff - i as u8;
    }
    Mogwai { dna, generation: MogwaiGeneration::Eleventh, rarity: RarityType::Epic, phase: PhaseType::Matured }
}

fn sample_table() -> AchievementTable {
    AchievementTable {
        egg_hatcher: AchievementState::InProgress { current: 0x0102, target: 0x0304 },
        sacrificer: AchievementState::Completed,
        morpheus: AchievementState::InProgress { current: 0, target: 100 },
        legend_breeder: AchievementState::Completed,
        promiscuous: AchievementState::InProgress { current: 99, target: 100 },
    }
}

#[test]
fn numbers_are_written_low_byte_first() {
    assert_eq!(round_trip(0x12u8), vec![0x12]);
    assert_eq!(round_trip(0x1234u16), vec![0x34, 0x12]);
    assert_eq!(round_trip(0x1234_5678u32), vec![0x78, 0x56, 0x34, 0x12]);
    assert_eq!(round_trip(0x0102_0304_0506_0708u64), vec![8, 7, 6, 5, 4, 3, 2, 1]);
    for value in [0u64, 1, 255, 256, 65_535, 65_536, u32::MAX as u64, u64::MAX] {
        assert_eq!(encode(&value), value.encode());
        assert_eq!(encode(&(value as u32)), (value as u32).encode());
        assert_eq!(encode(&(value as u16)), (value as u16).encode());
        assert_eq!(encode(&(value as u8)), (value as u8).encode());
    }
    let mut out = vec![9];
    encode_le(0x0a0b0c, 3, &mut out);
    assert_eq!(out, vec![9, 0x0c, 0x0b, 0x0a]);
    assert_eq!(decode_le(&out, 1, 3), Some(0x0a0b0c));
    assert_eq!(decode_le(&out, 2, 3), None);
    assert_eq!(decode_le(&out, 4, 0), Some(0));
    assert_eq!(decode_le(&out, 5, 0), None);
}

#[test]
fn pairs_options_and_arrays_are_written_as_they_stand() {
    assert_eq!(round_trip((7u8, 0x0102u16)), (7u8, 0x0102u16).encode());
    assert_eq!(round_trip(Some(0x0102u16)), Some(0x0102u16).encode());
    assert_eq!(round_trip(None::<u32>), None::<u32>.encode());
    assert_eq!(round_trip([Some(1u8), None]), [Some(1u8), None].encode());
    assert_eq!(round_trip([7u16, 8, 9]), [7u16, 8, 9].encode());
    let mut hash = [0u8; 32];
    hash[0] = 1;
    hash[31] = 2;
    assert_eq!(round_trip(hash), hash.encode());
    assert_eq!(round_trip([(1u8, 2u32), (3u8, 4u32)]), [(1u8, 2u32), (3u8, 4u32)].encode());
    assert_eq!(decode::<Option<u8>>(&[2, 0]), None);
    assert_eq!(decode::<Option<u8>>(&[]), None);
}

#[test]
fn lengths_are_written_in_their_shortest_form() {
    for len in [0u32, 1, 63, 64, 65, 16_383, 16_384, 16_385, 1_073_741_823, 1_073_741_824, u32::MAX] {
        let mut out = Vec::new();
        encode_compact(len, &mut out);
        assert_eq!(out, Compact(len).encode());
        assert_eq!(decode_compact(&out, 0), Some((len, out.len())));
        out.push(7);
        assert_eq!(decode_compact(&out, 0), Some((len, out.len() - 1)));
    }
    assert_eq!(decode_compact(&[0x01, 0x00], 0), None);
    assert_eq!(decode_compact(&[0xfd, 0x00], 0), None);
    assert_eq!(decode_compact(&[0x01, 0x01], 0), Some((64, 2)));
    assert_eq!(decode_compact(&[0x02, 0x00, 0x00, 0x00], 0), None);
    assert_eq!(decode_compact(&[0x02, 0x00, 0x01, 0x00], 0), Some((16_384, 4)));
    assert_eq!(decode_compact(&[0x03, 0xff, 0xff, 0xff, 0x3f], 0), None);
    assert_eq!(decode_compact(&[0x03, 0x00, 0x00, 0x00, 0x40], 0), Some((1_073_741_824, 5)));
    assert_eq!(decode_compact(&[0x07, 0, 0, 0, 0, 1], 0), None);
    assert_eq!(decode_compact(&[0x01], 0), None);
    assert_eq!(decode_compact(&[], 0), None);
    assert_eq!(decode_compact(&[4], 3), None);
}

#[test]
fn lists_carry_their_length() {
    let items: Vec<u16> = vec![1, 2, 0x0304];
    let mut out = Vec::new();
    encode_list(&items, &mut out);
    assert_eq!(out, items.encode());
    assert_eq!(decode_list::<u16>(&out, 0), Some((items, 7)));
    let long: Vec<u8> = (0..200).map(|i| i as u8).collect();
    let mut out = vec![0xee];
    encode_list(&long, &mut out);
    assert_eq!(out[1..], long.encode()[..]);
    assert_eq!(decode_list::<u8>(&out, 1), Some((long, 203)));
    assert_eq!(decode_list::<u8>(&[8, 1], 0), None);
    assert_eq!(decode_list::<u8>(&[0], 0), Some((vec![], 1)));
}

#[test]
fn board_records_keep_their_bytes() {
    assert_eq!(round_trip(Side::North), vec![0]);
    assert_eq!(round_trip(Side::East), vec![1]);
    assert_eq!(round_trip(Side::South), vec![2]);
    assert_eq!(round_trip(Side::West), vec![3]);
    assert_eq!(decode::<Side>(&[4]), None);
    assert_eq!(round_trip(GamePhase::Bomb), vec![0]);
    assert_eq!(round_trip(GamePhase::Play), vec![1]);
    assert_eq!(decode::<GamePhase>(&[2]), None);
    assert_eq!(round_trip(GameError::DroppedBombOutsideBombPhase), vec![0]);
    assert_eq!(round_trip(GameError::DroppedStoneOutsidePlayPhase), vec![1]);
    assert_eq!(round_trip(GameError::NoMoreBombsAvailable), vec![2]);
    assert_eq!(round_trip(GameError::InvalidBombPosition), vec![3]);
    assert_eq!(round_trip(GameError::InvalidStonePosition), vec![4]);
    assert_eq!(round_trip(GameError::NotPlayerTurn), vec![5]);
    assert_eq!(round_trip(GameError::NoPreviousPosition), vec![6]);
    assert_eq!(round_trip(GameError::GameAlreadyFinished), vec![7]);
    assert_eq!(decode::<GameError>(&[8]), None);
    assert_eq!(round_trip(Coordinates { row: 3, col: 9 }), vec![3, 9]);
    assert_eq!(round_trip(Cell::Empty), vec![0]);
    assert_eq!(round_trip(Cell::Bomb([Some(1), None])), vec![1, 1, 1, 0]);
    assert_eq!(round_trip(Cell::Bomb([None, Some(0)])), vec![1, 0, 1, 0]);
    assert_eq!(round_trip(Cell::Block), vec![2]);
    assert_eq!(round_trip(Cell::Stone(1)), vec![3, 1]);
    assert_eq!(decode::<Cell>(&[4]), None);
    assert_eq!(decode::<Cell>(&[1, 2, 0]), None);
    assert_eq!(round_trip(LastMove::new(0x0102u16, Side::West, 4)), vec![2, 1, 3, 4]);
    assert_eq!(round_trip(BombState::NotPlaced), vec![0]);
    assert_eq!(round_trip(BombState::Detonated), vec![2]);
    let hash = Coordinates { row: 1, col: 2 }.generate_hash(77);
    let mut placed = vec![1];
    placed.extend_from_slice(&(hash, 77u64).encode());
    assert_eq!(round_trip(BombState::Placed(hash, 77)), placed);
}

#[test]
fn board_is_written_row_by_row() {
    let mut board = Board::new();
    assert_eq!(round_trip(board), vec![0; 100]);
    board.update_cell(Coordinates { row: 0, col: 1 }, Cell::Block);
    board.update_cell(Coordinates { row: 9, col: 9 }, Cell::Stone(1));
    board.update_cell(Coordinates { row: 1, col: 0 }, Cell::Bomb([Some(0), Some(1)]));
    let bytes = round_trip(board);
    assert_eq!(bytes.len(), 100 + 1 + 4);
    assert_eq!(bytes[..2], [0, 2]);
    assert_eq!(bytes[10..15], [1, 1, 0, 1, 1]);
    assert_eq!(bytes[bytes.len() - 2..], [3, 1]);
}

#[test]
fn game_state_keeps_its_bytes() {
    let mut state: GameState<u32> = Game::new_game(0x1111_1111, 0x2222_2222, None);
    state.board = Board::new();
    let state = Game::drop_bomb(state, Coordinates { row: 2, col: 2 }, 0x2222_2222).unwrap();
    let mut played = state;
    played.phase = GamePhase::Play;
    played.bombs = [(0x1111_1111, 0), (0x2222_2222, 0)];
    let played = Game::drop_stone(played, 0x1111_1111, Side::East, 7).unwrap();
    for state in [state, played] {
        let bytes = round_trip(state);
        let mut expected = state.seed.encode();
        expected.extend_from_slice(&encode(&state.board));
        expected.extend_from_slice(&encode(&state.phase));
        expected.extend_from_slice(&state.winner.encode());
        expected.extend_from_slice(&state.next_player.encode());
        expected.extend_from_slice(&state.players.encode());
        expected.extend_from_slice(&state.bombs.encode());
        expected.extend_from_slice(&state.scores.encode());
        expected.extend_from_slice(&encode(&state.last_move));
        assert_eq!(bytes, expected);
    }
    let mut won = played;
    won.winner = Some(0x2222_2222);
    round_trip(won);

    let mut sealed = SealedGame::new_game(7u8, 9u8, Some(3));
    sealed.board = Board::new();
    let sealed = SealedGame::drop_bomb(sealed, Coordinates { row: 2, col: 2 }, 9, 1234).unwrap();
    let bytes = round_trip(sealed);
    assert_eq!(bytes.len(), 4 + 100 + 1 + 1 + 1 + 2 + (1 + 3) + (1 + 1 + 32 + 8 + 2) + 4 + 1);
}

#[test]
fn mogwai_records_keep_their_bytes() {
    assert_eq!(round_trip(MogwaiGeneration::First), vec![1]);
    assert_eq!(round_trip(MogwaiGeneration::Ninth), vec![9]);
    assert_eq!(round_trip(MogwaiGeneration::Sixteenth), vec![16]);
    assert_eq!(decode::<MogwaiGeneration>(&[0]), None);
    assert_eq!(decode::<MogwaiGeneration>(&[17]), None);
    assert_eq!(round_trip(RarityType::Common), vec![0]);
    assert_eq!(round_trip(RarityType::Mythical), vec![5]);
    assert_eq!(decode::<RarityType>(&[6]), None);
    assert_eq!(round_trip(PhaseType::NoPhase), vec![0]);
    assert_eq!(round_trip(PhaseType::Bred), vec![1]);
    assert_eq!(round_trip(PhaseType::Exalted), vec![5]);
    assert_eq!(decode::<PhaseType>(&[6]), None);
    assert_eq!(round_trip(BreedType::DomDom), vec![0]);
    assert_eq!(round_trip(BreedType::RezRez), vec![3]);
    assert_eq!(decode::<BreedType>(&[4]), None);
    assert_eq!(round_trip(GameEventType::Default), vec![0]);
    assert_eq!(round_trip(GameEventType::Hatch), vec![1]);
    assert_eq!(round_trip(AchievementState::Completed), vec![1]);
    assert_eq!(round_trip(AchievementState::InProgress { current: 0x0102, target: 0x0304 }), vec![0, 2, 1, 4, 3]);
    assert_eq!(
        round_trip(BattleMogsTransitionConfig::default()),
        (10u16, 100u16, 100u16, 100u16, 100u16, 100u16).encode(),
    );

    let mogwai = sample_mogwai();
    let mut expected = mogwai.dna.encode();
    expected.extend_from_slice(&[11, 3, 3]);
    assert_eq!(round_trip(mogwai), expected);
    assert_eq!(expected.len(), 67);

    let table = sample_table();
    assert_eq!(round_trip(table), vec![0, 2, 1, 4, 3, 1, 0, 0, 0, 100, 0, 1, 0, 99, 0, 100, 0]);

    let asset = BattleMogsAsset {
        id: 0x0102_0304_0506_0708u64,
        genesis: 0x0a0bu64,
        variant: BattleMogsVariant::Mogwai(mogwai),
    };
    let mut expected = (asset.id, asset.genesis).encode();
    expected.push(0);
    expected.extend_from_slice(&encode(&mogwai));
    assert_eq!(round_trip(asset), expected);

    let short =
        BattleMogsAsset { id: 5u64, genesis: 0x0a0b_0c0du32, variant: BattleMogsVariant::AchievementTable(table) };
    let mut expected = (5u64, 0x0a0b_0c0du32).encode();
    expected.push(1);
    expected.extend_from_slice(&encode(&table));
    assert_eq!(round_trip(short), expected);
}

#[test]
fn actions_keep_their_bytes() {
    assert_eq!(round_trip(BattleMogsAction::RegisterPlayer), vec![0]);
    assert_eq!(round_trip(BattleMogsAction::CreateMogwai), vec![1]);
    assert_eq!(round_trip(BattleMogsAction::Remove { mogwai: 1 }), [vec![2], 1u64.encode()].concat());
    assert_eq!(round_trip(BattleMogsAction::Hatch { mogwai: 1, table: 2 }), [vec![3], (1u64, 2u64).encode()].concat());
    assert_eq!(
        round_trip(BattleMogsAction::Sacrifice { mogwai: 1, table: 2 }),
        [vec![4], (1u64, 2u64).encode()].concat()
    );
    assert_eq!(
        round_trip(BattleMogsAction::SacrificeInto { mogwai: 1, into: 3, table: 2 }),
        [vec![5], (1u64, 3u64, 2u64).encode()].concat()
    );
    assert_eq!(round_trip(BattleMogsAction::Morph { mogwai: 1, table: 2 }), [vec![6], (1u64, 2u64).encode()].concat());
    assert_eq!(
        round_trip(BattleMogsAction::Breed { mogwai_1: 42, mogwai_2: 43, table: 7 }),
        [vec![7], (42u64, 43u64, 7u64).encode()].concat()
    );
    assert_eq!(decode::<BattleMogsAction>(&[8]), None);
    assert_eq!(decode::<BattleMogsAction>(&[2, 1, 0, 0]), None);
}

#[test]
fn outputs_keep_their_bytes() {
    let asset = BattleMogsAsset { id: 9u64, genesis: 100u64, variant: BattleMogsVariant::Mogwai(sample_mogwai()) };
    let table =
        BattleMogsAsset { id: 7u64, genesis: 1u64, variant: BattleMogsVariant::AchievementTable(sample_table()) };
    let minted = TransitionOutput::<u64, BattleMogsAsset<u64>>::Minted(asset);
    let mutated = TransitionOutput::<u64, BattleMogsAsset<u64>>::Mutated(7, table);
    let consumed = TransitionOutput::<u64, BattleMogsAsset<u64>>::Consumed(9);
    assert_eq!(round_trip(minted), [vec![0], encode(&asset)].concat());
    assert_eq!(round_trip(mutated), [vec![1], 7u64.encode(), encode(&table)].concat());
    assert_eq!(round_trip(consumed), [vec![2], 9u64.encode()].concat());

    let outputs = vec![consumed, mutated, minted];
    let bytes = encode_outputs(&outputs);
    assert_eq!(bytes[0], 3 << 2);
    assert_eq!(bytes[1..], [encode(&consumed), encode(&mutated), encode(&minted)].concat()[..]);
    assert_eq!(decode_outputs::<u64, BattleMogsAsset<u64>>(&bytes), Some(outputs));
    assert_eq!(decode_outputs::<u64, BattleMogsAsset<u64>>(&bytes[..bytes.len() - 1]), None);
    assert_eq!(decode_outputs::<u64, BattleMogsAsset<u64>>(&[0]), Some(vec![]));
    assert_eq!(decode_outputs::<u64, BattleMogsAsset<u64>>(&[0, 0]), None);
}
