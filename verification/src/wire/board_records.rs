//! The records of the board game in the format.

use vstd::prelude::*;
use crate::dot4gravity::board::{Board, Cell, Coordinates, PlayerIndex, Position, Score, Seed, Side};
use crate::dot4gravity::sealed::{BombHash, BombState, Secret};
use crate::dot4gravity::state::{GameError, GamePhase, GameState, LastMove};
use crate::wire::format::{Wire, lemma_starts_with_both, lemma_starts_with_joined, starts_with};

verus! {

/// The byte that stands for `side`.
pub open spec fn side_tag(side: Side) -> u8 {
    match side {
        Side::North => 0,
        Side::East => 1,
        Side::South => 2,
        Side::West => 3,
    }
}

impl Wire for Side {
    open spec fn wire(&self) -> Seq<u8> {
        side_tag(*self).wire()
    }

    fn encode_to(&self, out: &mut Vec<u8>) {
        let tag: u8 = match self {
            Side::North => 0,
            Side::East => 1,
            Side::South => 2,
            Side::West => 3,
        };
        tag.encode_to(out);
    }

    fn decode_from(bytes: &[u8], start: usize) -> (decoded: Option<(Self, usize)>) {
        match u8::decode_from(bytes, start) {
            Some((0, end)) => Some((Side::North, end)),
            Some((1, end)) => Some((Side::East, end)),
            Some((2, end)) => Some((Side::South, end)),
            Some((3, end)) => Some((Side::West, end)),
            _ => None,
        }
    }
}

/// The byte that stands for `phase`.
pub open spec fn phase_tag(phase: GamePhase) -> u8 {
    match phase {
        GamePhase::Bomb => 0,
        GamePhase::Play => 1,
    }
}

impl Wire for GamePhase {
    open spec fn wire(&self) -> Seq<u8> {
        phase_tag(*self).wire()
    }

    fn encode_to(&self, out: &mut Vec<u8>) {
        let tag: u8 = match self {
            GamePhase::Bomb => 0,
            GamePhase::Play => 1,
        };
        tag.encode_to(out);
    }

    fn decode_from(bytes: &[u8], start: usize) -> (decoded: Option<(Self, usize)>) {
        match u8::decode_from(bytes, start) {
            Some((0, end)) => Some((GamePhase::Bomb, end)),
            Some((1, end)) => Some((GamePhase::Play, end)),
            _ => None,
        }
    }
}

/// The byte that stands for `error`.
pub open spec fn error_tag(error: GameError) -> u8 {
    match error {
        GameError::DroppedBombOutsideBombPhase => 0,
        GameError::DroppedStoneOutsidePlayPhase => 1,
        GameError::NoMoreBombsAvailable => 2,
        GameError::InvalidBombPosition => 3,
        GameError::InvalidStonePosition => 4,
        GameError::NotPlayerTurn => 5,
        GameError::NoPreviousPosition => 6,
        GameError::GameAlreadyFinished => 7,
    }
}

impl Wire for GameError {
    open spec fn wire(&self) -> Seq<u8> {
        error_tag(*self).wire()
    }

    fn encode_to(&self, out: &mut Vec<u8>) {
        let tag: u8 = match self {
            GameError::DroppedBombOutsideBombPhase => 0,
            GameError::DroppedStoneOutsidePlayPhase => 1,
            GameError::NoMoreBombsAvailable => 2,
            GameError::InvalidBombPosition => 3,
            GameError::InvalidStonePosition => 4,
            GameError::NotPlayerTurn => 5,
            GameError::NoPreviousPosition => 6,
            GameError::GameAlreadyFinished => 7,
        };
        tag.encode_to(out);
    }

    fn decode_from(bytes: &[u8], start: usize) -> (decoded: Option<(Self, usize)>) {
        match u8::decode_from(bytes, start) {
            Some((0, end)) => Some((GameError::DroppedBombOutsideBombPhase, end)),
            Some((1, end)) => Some((GameError::DroppedStoneOutsidePlayPhase, end)),
            Some((2, end)) => Some((GameError::NoMoreBombsAvailable, end)),
            Some((3, end)) => Some((GameError::InvalidBombPosition, end)),
            Some((4, end)) => Some((GameError::InvalidStonePosition, end)),
            Some((5, end)) => Some((GameError::NotPlayerTurn, end)),
            Some((6, end)) => Some((GameError::NoPreviousPosition, end)),
            Some((7, end)) => Some((GameError::GameAlreadyFinished, end)),
            _ => None,
        }
    }
}

impl Wire for Coordinates {
    open spec fn wire(&self) -> Seq<u8> {
        (self.row, self.col).wire()
    }

    fn encode_to(&self, out: &mut Vec<u8>) {
        (self.row, self.col).encode_to(out);
    }

    fn decode_from(bytes: &[u8], start: usize) -> (decoded: Option<(Self, usize)>) {
        match <(u8, u8)>::decode_from(bytes, start) {
            Some(((row, col), end)) => Some((Coordinates { row, col }, end)),
            None => None,
        }
    }
}

impl Wire for Cell {
    open spec fn wire(&self) -> Seq<u8> {
        match *self {
            Cell::Empty => 0u8.wire(),
            Cell::Bomb(owners) => 1u8.wire() + owners.wire(),
            Cell::Block => 2u8.wire(),
            Cell::Stone(owner) => 3u8.wire() + owner.wire(),
        }
    }

    fn encode_to(&self, out: &mut Vec<u8>) {
        match self {
            Cell::Empty => {
                0u8.encode_to(out);
            },
            Cell::Bomb(owners) => {
                1u8.encode_to(out);
                owners.encode_to(out);
            },
            Cell::Block => {
                2u8.encode_to(out);
            },
            Cell::Stone(owner) => {
                3u8.encode_to(out);
                owner.encode_to(out);
            },
        }
    }

    fn decode_from(bytes: &[u8], start: usize) -> (decoded: Option<(Self, usize)>) {
        proof {
            assert forall|value: Self| #[trigger] starts_with(bytes@, start as int, value.wire()) implies match value {
                Cell::Empty => starts_with(bytes@, start as int, 0u8.wire()),
                Cell::Bomb(owners) => starts_with(bytes@, start as int, 1u8.wire()) && starts_with(
                    bytes@,
                    start + 1,
                    owners.wire(),
                ),
                Cell::Block => starts_with(bytes@, start as int, 2u8.wire()),
                Cell::Stone(owner) => starts_with(bytes@, start as int, 3u8.wire()) && starts_with(
                    bytes@,
                    start + 1,
                    owner.wire(),
                ),
            } by {
                match value {
                    Cell::Bomb(owners) => {
                        lemma_starts_with_both(bytes@, start as int, 1u8.wire(), owners.wire());
                    },
                    Cell::Stone(owner) => {
                        lemma_starts_with_both(bytes@, start as int, 3u8.wire(), owner.wire());
                    },
                    _ => {},
                }
            }
        }
        match u8::decode_from(bytes, start) {
            Some((0, end)) => Some((Cell::Empty, end)),
            Some((1, middle)) => match <[Option<PlayerIndex>; 2]>::decode_from(bytes, middle) {
                Some((owners, end)) => {
                    proof {
                        lemma_starts_with_joined(bytes@, start as int, 1u8.wire(), owners.wire());
                    }
                    Some((Cell::Bomb(owners), end))
                },
                None => None,
            },
            Some((2, end)) => Some((Cell::Block, end)),
            Some((3, middle)) => match u8::decode_from(bytes, middle) {
                Some((owner, end)) => {
                    proof {
                        lemma_starts_with_joined(bytes@, start as int, 3u8.wire(), owner.wire());
                    }
                    Some((Cell::Stone(owner), end))
                },
                None => None,
            },
            _ => None,
        }
    }
}

impl Wire for Board {
    open spec fn wire(&self) -> Seq<u8> {
        self.cells.wire()
    }

    fn encode_to(&self, out: &mut Vec<u8>) {
        self.cells.encode_to(out);
    }

    fn decode_from(bytes: &[u8], start: usize) -> (decoded: Option<(Self, usize)>) {
        match <[[Cell; 10]; 10]>::decode_from(bytes, start) {
            Some((cells, end)) => Some((Board { cells }, end)),
            None => None,
        }
    }
}

impl<Player: Wire> Wire for LastMove<Player> {
    open spec fn wire(&self) -> Seq<u8> {
        self.player.wire() + (self.side, self.position).wire()
    }

    fn encode_to(&self, out: &mut Vec<u8>) {
        self.player.encode_to(out);
        (self.side, self.position).encode_to(out);
    }

    fn decode_from(bytes: &[u8], start: usize) -> (decoded: Option<(Self, usize)>) {
        proof {
            assert forall|value: Self| #[trigger] starts_with(bytes@, start as int, value.wire()) implies starts_with(
                bytes@,
                start as int,
                value.player.wire(),
            ) && starts_with(bytes@, start + value.player.wire().len(), (value.side, value.position).wire()) by {
                lemma_starts_with_both(
                    bytes@,
                    start as int,
                    value.player.wire(),
                    (value.side, value.position).wire(),
                );
            }
        }
        match Player::decode_from(bytes, start) {
            None => None,
            Some((player, middle)) => match <(Side, Position)>::decode_from(bytes, middle) {
                None => None,
                Some(((side, position), end)) => {
                    proof {
                        lemma_starts_with_joined(bytes@, start as int, player.wire(), (side, position).wire());
                    }
                    Some((LastMove { player, side, position }, end))
                },
            },
        }
    }
}

impl Wire for BombState {
    open spec fn wire(&self) -> Seq<u8> {
        match *self {
            BombState::NotPlaced => 0u8.wire(),
            BombState::Placed(hash, secret) => 1u8.wire() + (hash, secret).wire(),
            BombState::Detonated => 2u8.wire(),
        }
    }

    fn encode_to(&self, out: &mut Vec<u8>) {
        match self {
            BombState::NotPlaced => {
                0u8.encode_to(out);
            },
            BombState::Placed(hash, secret) => {
                1u8.encode_to(out);
                (*hash, *secret).encode_to(out);
            },
            BombState::Detonated => {
                2u8.encode_to(out);
            },
        }
    }

    fn decode_from(bytes: &[u8], start: usize) -> (decoded: Option<(Self, usize)>) {
        proof {
            assert forall|value: Self| #[trigger] starts_with(bytes@, start as int, value.wire()) implies match value {
                BombState::NotPlaced => starts_with(bytes@, start as int, 0u8.wire()),
                BombState::Placed(hash, secret) => starts_with(bytes@, start as int, 1u8.wire()) && starts_with(
                    bytes@,
                    start + 1,
                    (hash, secret).wire(),
                ),
                BombState::Detonated => starts_with(bytes@, start as int, 2u8.wire()),
            } by {
                match value {
                    BombState::Placed(hash, secret) => {
                        lemma_starts_with_both(bytes@, start as int, 1u8.wire(), (hash, secret).wire());
                    },
                    _ => {},
                }
            }
        }
        match u8::decode_from(bytes, start) {
            Some((0, end)) => Some((BombState::NotPlaced, end)),
            Some((1, middle)) => match <(BombHash, Secret)>::decode_from(bytes, middle) {
                Some(((hash, secret), end)) => {
                    proof {
                        lemma_starts_with_joined(bytes@, start as int, 1u8.wire(), (hash, secret).wire());
                    }
                    Some((BombState::Placed(hash, secret), end))
                },
                None => None,
            },
            Some((2, end)) => Some((BombState::Detonated, end)),
            _ => None,
        }
    }
}

/// The fields of a game state in the order in which they are written.
pub open spec fn state_fields<Player, Bombs>(state: GameState<Player, Bombs>) -> (
    Seed,
    (
        Board,
        (
            GamePhase,
            (
                Option<Player>,
                (Player, ([Player; 2], ([(Player, Bombs); 2], ([(Player, Score); 2], Option<LastMove<Player>>)))),
            ),
        ),
    ),
) {
    (
        state.seed,
        (
            state.board,
            (
                state.phase,
                (
                    state.winner,
                    (state.next_player, (state.players, (state.bombs, (state.scores, state.last_move)))),
                ),
            ),
        ),
    )
}

impl<Player: Wire + Copy, Bombs: Wire + Copy> Wire for GameState<Player, Bombs> {
    open spec fn wire(&self) -> Seq<u8> {
        state_fields(*self).wire()
    }

    fn encode_to(&self, out: &mut Vec<u8>) {
        let fields = (
            self.seed,
            (
                self.board,
                (
                    self.phase,
                    (
                        self.winner,
                        (self.next_player, (self.players, (self.bombs, (self.scores, self.last_move)))),
                    ),
                ),
            ),
        );
        fields.encode_to(out);
    }

    fn decode_from(bytes: &[u8], start: usize) -> (decoded: Option<(Self, usize)>) {
        match <(
            Seed,
            (
                Board,
                (
                    GamePhase,
                    (
                        Option<Player>,
                        (
                            Player,
                            ([Player; 2], ([(Player, Bombs); 2], ([(Player, Score); 2], Option<LastMove<Player>>))),
                        ),
                    ),
                ),
            ),
        )>::decode_from(bytes, start) {
            Some(
                ((seed, (board, (phase, (winner, (next_player, (players, (bombs, (scores, last_move)))))))), end),
            ) => {
                let state = GameState { seed, board, phase, winner, next_player, players, bombs, scores, last_move };
                Some((state, end))
            },
            None => None,
        }
    }
}

} // verus!
