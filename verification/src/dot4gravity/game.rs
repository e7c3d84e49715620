//! The game in which bombs lie on the board.

use core::marker::PhantomData;
use vstd::prelude::*;
use vstd::laws_eq::obeys_concrete_eq;
use crate::dot4gravity::board::{
    Board, Cell, Coordinates, Position, PlayerIndex, Seed, Side, INITIAL_SEED, NUM_OF_BOMBS_PER_PLAYER, cell_at,
    with_cell,
};
use crate::dot4gravity::placement::{
    Placement, place_blocks, place_blocks_within, placement_completes, placement_done, placement_ends,
};
use crate::dot4gravity::state::{
    GameError, GamePhase, GameState, GameView, can_drop_stone, change_game_phase, check_winner_player, drop_stone,
    dropped_stone, stone_drop_check, winner_checked,
};

verus! {

/// Every entry of `bombs` that belongs to `player`, with one bomb less.
pub open spec fn bombs_decreased<Player>(bombs: Seq<(Player, u8)>, player: Player) -> Seq<(Player, u8)> {
    Seq::new(
        bombs.len(),
        |i: int|
            if bombs[i].0 == player {
                (bombs[i].0, (bombs[i].1 - 1) as u8)
            } else {
                bombs[i]
            },
    )
}

impl<Player> GameView<Player, u8> {
    /// The bombs that `player` may still drop.
    pub open spec fn bombs_left(self, player: Player) -> Option<u8> {
        if self.bombs[0].0 == player {
            Some(self.bombs[0].1)
        } else if self.bombs[1].0 == player {
            Some(self.bombs[1].1)
        } else {
            None
        }
    }

    pub open spec fn all_bombs_dropped(self) -> bool {
        self.bombs[0].1 == 0 && self.bombs[1].1 == 0
    }
}

impl<Player: PartialEq + Copy> GameState<Player, u8> {
    pub fn is_all_bomb_dropped(&self) -> (all: bool)
        ensures
            all == self@.all_bombs_dropped(),
    {
        self.bombs[0].1 == 0 && self.bombs[1].1 == 0
    }

    pub fn is_all_player_bomb_dropped(&self, player: &Player) -> (all: bool)
        requires
            obeys_concrete_eq::<Player>(),
        ensures
            all == (self@.bombs_left(*player) == Some(0u8)),
    {
        match self.get_player_bombs(player) {
            Some(available_bombs) => available_bombs == 0,
            None => false,
        }
    }

    pub fn get_player_bombs(&self, player: &Player) -> (left: Option<u8>)
        requires
            obeys_concrete_eq::<Player>(),
        ensures
            left == self@.bombs_left(*player),
    {
        proof {
            reveal(obeys_concrete_eq);
        }
        if self.bombs[0].0 == *player {
            Some(self.bombs[0].1)
        } else if self.bombs[1].0 == *player {
            Some(self.bombs[1].1)
        } else {
            None
        }
    }

    pub fn decrease_player_bombs(&mut self, player: &Player)
        requires
            obeys_concrete_eq::<Player>(),
            forall|i: int| 0 <= i < 2 && old(self)@.bombs[i].0 == *player ==> old(self)@.bombs[i].1 > 0,
        ensures
            final(self)@ == (GameView { bombs: bombs_decreased(old(self)@.bombs, *player), ..old(self)@ }),
    {
        let mut i: usize = 0;
        while i < 2
            invariant
                i <= 2,
                obeys_concrete_eq::<Player>(),
                forall|k: int| i <= k < 2 ==> self.bombs@[k] == old(self).bombs@[k],
                forall|k: int|
                    0 <= k < i ==> self.bombs@[k] == (if old(self).bombs@[k].0 == *player {
                        (old(self).bombs@[k].0, (old(self).bombs@[k].1 - 1) as u8)
                    } else {
                        old(self).bombs@[k]
                    }),
                forall|k: int| 0 <= k < 2 && old(self)@.bombs[k].0 == *player ==> old(self)@.bombs[k].1 > 0,
                self@ == (GameView { bombs: self@.bombs, ..old(self)@ }),
            decreases 2 - i,
        {
            proof {
                reveal(obeys_concrete_eq);
                assert(old(self)@.bombs[i as int].0 == *player ==> old(self)@.bombs[i as int].1 > 0);
            }
            let (p, bombs) = self.bombs[i];
            if p == *player {
                self.bombs[i] = (p, bombs - 1);
            }
            i += 1;
        }
        assert(self@.bombs =~= bombs_decreased(old(self)@.bombs, *player));
    }
}

/// Whether `player` may try to drop a bomb at `position`, and why not. A
/// game that has a winner takes no bomb, whatever else holds.
pub open spec fn bomb_drop_check<Player>(state: GameView<Player, u8>, position: Coordinates, player: Player) -> Result<
    (),
    GameError,
> {
    if state.winner is Some {
        Err(GameError::GameAlreadyFinished)
    } else if state.phase != GamePhase::Bomb {
        Err(GameError::DroppedBombOutsideBombPhase)
    } else if state.bombs_left(player) == Some(0u8) {
        Err(GameError::NoMoreBombsAvailable)
    } else if !(position.inside_board() && (cell_at(state.board, position) is Empty || cell_at(
        state.board,
        position,
    ) is Bomb)) {
        Err(GameError::InvalidBombPosition)
    } else {
        Ok(())
    }
}

/// The cell after the player with index `who` has dropped a bomb into it.
/// An empty cell takes the bomb. A cell with one bomb takes that of the
/// other player. No other cell takes a bomb.
pub open spec fn bomb_added(cell: Cell, who: PlayerIndex) -> Option<Cell> {
    match cell {
        Cell::Empty => Some(Cell::Bomb([Some(who), None])),
        Cell::Bomb(owners) => match (owners[0], owners[1]) {
            (Some(other), None) => if other != who {
                Some(Cell::Bomb([Some(other), Some(who)]))
            } else {
                None
            },
            _ => None,
        },
        _ => None,
    }
}

/// The state after `player` has dropped a bomb at `position`, or the reason
/// why the bomb cannot be dropped. The last bomb of all starts the play phase.
pub open spec fn dropped_bomb<Player>(state: GameView<Player, u8>, position: Coordinates, player: Player) -> Result<
    GameView<Player, u8>,
    GameError,
> {
    match bomb_drop_check(state, position, player) {
        Err(error) => Err(error),
        Ok(_) => match bomb_added(cell_at(state.board, position), state.index_of(player)) {
            None => Err(GameError::InvalidBombPosition),
            Some(cell) => {
                let bombs = bombs_decreased(state.bombs, player);
                Ok(
                    GameView {
                        board: with_cell(state.board, position, cell),
                        bombs,
                        phase: if bombs[0].1 == 0 && bombs[1].1 == 0 {
                            GamePhase::Play
                        } else {
                            state.phase
                        },
                        ..state
                    },
                )
            },
        },
    }
}

/// The seed that a new game draws its blocks from.
pub open spec fn starting_seed(seed: Option<Seed>) -> Seed {
    match seed {
        Some(seed) => seed,
        None => INITIAL_SEED,
    }
}

/// The state of a game that starts on the board of `placement`: the bomb
/// phase, with all bombs in hand, no score, and `player1` to move first.
pub open spec fn new_game_view<Player>(player1: Player, player2: Player, placement: Placement) -> GameView<Player, u8> {
    GameView {
        seed: placement.seed,
        board: placement.grid,
        phase: GamePhase::Bomb,
        winner: None,
        next_player: player1,
        players: seq![player1, player2],
        bombs: seq![(player1, NUM_OF_BOMBS_PER_PLAYER), (player2, NUM_OF_BOMBS_PER_PLAYER)],
        scores: seq![(player1, 0u8), (player2, 0u8)],
        last_move: None,
    }
}

pub struct Game<Player>(PhantomData<Player>);

impl<Player: PartialEq + Copy> Game<Player> {
    /// Create a new game.
    pub fn new_game(player1: Player, player2: Player, seed: Option<Seed>) -> (state: GameState<Player>)
        requires
            placement_ends(starting_seed(seed)),
        ensures
            state@ == new_game_view(player1, player2, placement_done(starting_seed(seed))),
            player1 != player2 ==> state@.wf(),
    {
        let seed = match seed {
            Some(seed) => seed,
            None => INITIAL_SEED,
        };
        let (board, seed) = place_blocks(seed);
        Self::start(player1, player2, board, seed)
    }

    /// Create a new game, if `max_draws` draws are enough to place the blocks.
    pub fn new_game_within(player1: Player, player2: Player, seed: Option<Seed>, max_draws: u32) -> (state: Option<
        GameState<Player>,
    >)
        ensures
            match state {
                Some(state) => placement_completes(starting_seed(seed), max_draws as nat) && state@
                    == new_game_view(player1, player2, placement_done(starting_seed(seed))) && (player1
                    != player2 ==> state@.wf()),
                None => !placement_completes(starting_seed(seed), max_draws as nat),
            },
    {
        let seed = match seed {
            Some(seed) => seed,
            None => INITIAL_SEED,
        };
        match place_blocks_within(seed, max_draws) {
            Some((board, seed)) => Some(Self::start(player1, player2, board, seed)),
            None => None,
        }
    }

    fn start(player1: Player, player2: Player, board: Board, seed: Seed) -> (state: GameState<Player>)
        ensures
            state@ == new_game_view(player1, player2, Placement { grid: board@, seed, placed: 10 }),
            player1 != player2 ==> state@.wf(),
    {
        let state = GameState {
            seed,
            board,
            phase: GamePhase::Bomb,
            winner: None,
            next_player: player1,
            players: [player1, player2],
            scores: [(player1, 0), (player2, 0)],
            bombs: [(player1, NUM_OF_BOMBS_PER_PLAYER), (player2, NUM_OF_BOMBS_PER_PLAYER)],
            last_move: None,
        };
        proof {
            let expected = new_game_view(player1, player2, Placement { grid: board@, seed, placed: 10 });
            assert(state@.bombs =~= expected.bombs);
        }
        state
    }

    pub fn can_drop_bomb(game_state: &GameState<Player>, position: &Coordinates, player: &Player) -> (allowed:
        Result<(), GameError>)
        requires
            obeys_concrete_eq::<Player>(),
        ensures
            allowed == bomb_drop_check(game_state@, *position, *player),
    {
        if game_state.winner.is_some() {
            return Err(GameError::GameAlreadyFinished);
        }
        if game_state.phase != GamePhase::Bomb {
            return Err(GameError::DroppedBombOutsideBombPhase);
        }
        if game_state.is_all_player_bomb_dropped(player) {
            return Err(GameError::NoMoreBombsAvailable);
        }
        if !game_state.board.is_bomb_droppable(position) {
            return Err(GameError::InvalidBombPosition);
        }
        Ok(())
    }

    /// Drop a bomb. Called during bomb phase.
    pub fn drop_bomb(game_state: GameState<Player>, position: Coordinates, player: Player) -> (result: Result<
        GameState<Player>,
        GameError,
    >)
        requires
            obeys_concrete_eq::<Player>(),
            game_state@.wf(),
            bomb_drop_check(game_state@, position, player) is Ok ==> game_state@.has_player(player),
        ensures
            match dropped_bomb(game_state@, position, player) {
                Ok(after) => result matches Ok(state) && state@ == after && state@.wf(),
                Err(error) => result == Err::<GameState<Player>, GameError>(error),
            },
    {
        let mut game_state = game_state;
        Self::can_drop_bomb(&game_state, &position, &player)?;
        let player_index = game_state.player_index(&player);
        let bomb = match game_state.board.get_cell(&position) {
            Cell::Empty => Cell::Bomb([Some(player_index), None]),
            Cell::Bomb(owners) => match (owners[0], owners[1]) {
                (Some(other_player_index), None) => {
                    if other_player_index != player_index {
                        Cell::Bomb([Some(other_player_index), Some(player_index)])
                    } else {
                        return Err(GameError::InvalidBombPosition);
                    }
                },
                _ => return Err(GameError::InvalidBombPosition),
            },
            _ => return Err(GameError::InvalidBombPosition),
        };
        game_state.board.update_cell(position, bomb);
        game_state.decrease_player_bombs(&player);
        if game_state.is_all_bomb_dropped() {
            game_state.change_game_phase(GamePhase::Play);
        }
        Ok(game_state)
    }

    pub fn can_drop_stone(game_state: &GameState<Player>, side: &Side, position: Position, player: &Player) -> (allowed:
        Result<(), GameError>)
        requires
            obeys_concrete_eq::<Player>(),
        ensures
            allowed == stone_drop_check(game_state@, *side, position, *player),
    {
        can_drop_stone(game_state, side, position, player)
    }

    /// Change game phase.
    pub fn change_game_phase(game_state: GameState<Player>, phase: GamePhase) -> (state: GameState<Player>)
        ensures
            state@ == (GameView { phase, ..game_state@ }),
    {
        change_game_phase(game_state, phase)
    }

    /// Drop stone. Called during play phase.
    pub fn drop_stone(game_state: GameState<Player>, player: Player, side: Side, position: Position) -> (result:
        Result<GameState<Player>, GameError>)
        requires
            obeys_concrete_eq::<Player>(),
            game_state@.wf(),
        ensures
            match dropped_stone(game_state@, player, side, position) {
                Ok(after) => result matches Ok(state) && state@ == after && state@.wf(),
                Err(error) => result == Err::<GameState<Player>, GameError>(error),
            },
    {
        drop_stone(game_state, player, side, position)
    }

    /// Enters the winner, if there is none yet and a player has three squares.
    pub fn check_winner_player(game_state: GameState<Player>) -> (state: GameState<Player>)
        ensures
            state@ == winner_checked(game_state@),
    {
        check_winner_player(game_state)
    }
}

} // verus!
