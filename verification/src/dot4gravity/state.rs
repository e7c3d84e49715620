//! What the two ways of playing share: the state of a game, and the
//! shooting of stones.

use vstd::prelude::*;
use vstd::laws_eq::obeys_concrete_eq;
use crate::dot4gravity::board::{
    Board, Cell, Coordinates, Grid, PlayerIndex, Position, Score, Seed, Side, NB_POINT_ENEMY_STONE_DESTROYED,
    NB_POINT_STONE, adjacent_opponent_stones, blasted, cell_at, grid_wf, with_cell,
};
use crate::dot4gravity::slide::{StoneFate, lemma_fate_on_board, path_cell, slide_stone, stone_fate};
use crate::dot4gravity::squares::{find_square_winner, square_winner};

verus! {

#[derive(Clone, Copy, Debug, PartialEq, Eq, Structural)]
pub enum GamePhase {
    /// Not turn based. The players place bombs during this phase.
    Bomb,
    /// Turn based phase. Every player can trigger bombs, their own or opponents.
    Play,
}

impl Default for GamePhase {
    fn default() -> (phase: GamePhase)
        ensures
            phase == GamePhase::Bomb,
    {
        GamePhase::Bomb
    }
}

#[derive(Clone, Copy, Debug, PartialEq, Eq, Structural)]
pub enum GameError {
    /// Tried to drop a bomb outside bomb phase.
    DroppedBombOutsideBombPhase,
    /// Tried to drop a stone outside play phase.
    DroppedStoneOutsidePlayPhase,
    /// The player has no more bombs to drop.
    NoMoreBombsAvailable,
    /// Tried to drop a bomb in an invalid cell. The cell is already taken.
    InvalidBombPosition,
    /// Tried to drop a stone in an invalid cell. The cell is already taken.
    InvalidStonePosition,
    /// Tried to drop a stone during other player's turn
    NotPlayerTurn,
    /// The cell has no previous position. It is an edge cell.
    NoPreviousPosition,
    /// Tried playing when game has finished.
    GameAlreadyFinished,
}

#[derive(Clone, Copy, Debug, PartialEq, Eq)]
pub struct LastMove<Player> {
    pub player: Player,
    pub side: Side,
    pub position: Position,
}

impl<Player> LastMove<Player> {
    pub fn new(player: Player, side: Side, position: Position) -> (last_move: Self)
        ensures
            last_move == (LastMove { player, side, position }),
    {
        Self { player, side, position }
    }
}

#[derive(Clone, Copy, Debug, PartialEq, Eq)]
pub struct GameState<Player, Bombs = u8> {
    /// Represents random seed.
    pub seed: Seed,
    /// Represents the game board.
    pub board: Board,
    /// Game mode.
    pub phase: GamePhase,
    /// When present,it contains the player that won.
    pub winner: Option<Player>,
    /// Next player turn.
    pub next_player: Player,
    /// Players:
    pub players: [Player; 2],
    /// The bombs of each player: how many are left to drop, or what has
    /// become of each.
    pub bombs: [(Player, Bombs); 2],
    /// Current score for each player.
    pub scores: [(Player, Score); 2],
    /// Represents the last move.
    pub last_move: Option<LastMove<Player>>,
}

/// A game state as contracts see it.
pub struct GameView<Player, Bombs> {
    pub seed: Seed,
    pub board: Grid,
    pub phase: GamePhase,
    pub winner: Option<Player>,
    pub next_player: Player,
    pub players: Seq<Player>,
    pub bombs: Seq<(Player, Bombs)>,
    pub scores: Seq<(Player, Score)>,
    pub last_move: Option<LastMove<Player>>,
}

impl<Player, Bombs: DeepView> View for GameState<Player, Bombs> {
    type V = GameView<Player, Bombs::V>;

    open spec fn view(&self) -> GameView<Player, Bombs::V> {
        GameView {
            seed: self.seed,
            board: self.board@,
            phase: self.phase,
            winner: self.winner,
            next_player: self.next_player,
            players: self.players@,
            bombs: Seq::new(2, |i: int| (self.bombs@[i].0, self.bombs@[i].1.deep_view())),
            scores: self.scores@,
            last_move: self.last_move,
        }
    }
}

/// `score` and `points` together, capped at the largest score.
pub open spec fn score_sum(score: Score, points: int) -> Score {
    if score + points > Score::MAX {
        Score::MAX
    } else {
        (score + points) as Score
    }
}

/// Every entry of `scores` that belongs to `player`, with `points` more.
pub open spec fn scores_increased<Player>(scores: Seq<(Player, Score)>, player: Player, points: int) -> Seq<
    (Player, Score),
> {
    Seq::new(
        scores.len(),
        |i: int|
            if scores[i].0 == player {
                (scores[i].0, score_sum(scores[i].1, points))
            } else {
                scores[i]
            },
    )
}

impl<Player, Bombs> GameView<Player, Bombs> {
    /// Two players that differ, each with a count of bombs and a score of
    /// its own, and one of them is to move.
    pub open spec fn wf(self) -> bool {
        &&& grid_wf(self.board)
        &&& self.players.len() == 2
        &&& self.bombs.len() == 2
        &&& self.scores.len() == 2
        &&& self.players[0] != self.players[1]
        &&& self.bombs[0].0 == self.players[0]
        &&& self.bombs[1].0 == self.players[1]
        &&& self.scores[0].0 == self.players[0]
        &&& self.scores[1].0 == self.players[1]
        &&& self.has_player(self.next_player)
    }

    pub open spec fn has_player(self, player: Player) -> bool {
        self.players[0] == player || self.players[1] == player
    }

    /// The place of `player` among the players.
    pub open spec fn index_of(self, player: Player) -> PlayerIndex {
        if self.players[0] == player {
            0
        } else {
            1
        }
    }

    pub open spec fn score_of(self, player: Player) -> Score {
        if self.scores[0].0 == player {
            self.scores[0].1
        } else {
            self.scores[1].1
        }
    }

    /// The player who moves after the one who is to move now.
    pub open spec fn following_player(self) -> Player {
        if self.players[0] == self.next_player {
            self.players[1]
        } else {
            self.players[0]
        }
    }
}

impl<Player: PartialEq + Copy, Bombs: Copy + DeepView> GameState<Player, Bombs> {
    pub fn change_game_phase(&mut self, phase: GamePhase)
        ensures
            final(self)@ == (GameView { phase, ..old(self)@ }),
    {
        self.phase = phase
    }

    pub fn is_player_in_game(&self, player: &Player) -> (found: bool)
        requires
            obeys_concrete_eq::<Player>(),
        ensures
            found == (self@.bombs[0].0 == *player || self@.bombs[1].0 == *player),
    {
        proof {
            reveal(obeys_concrete_eq);
        }
        self.bombs[0].0 == *player || self.bombs[1].0 == *player
    }

    /// Return current player score
    pub fn get_player_score(&self, player: &Player) -> (score: Score)
        requires
            obeys_concrete_eq::<Player>(),
            self@.scores[0].0 == *player || self@.scores[1].0 == *player,
        ensures
            score == self@.score_of(*player),
    {
        proof {
            reveal(obeys_concrete_eq);
        }
        if self.scores[0].0 == *player {
            self.scores[0].1
        } else {
            self.scores[1].1
        }
    }

    /// Increase player score
    pub fn increase_player_score(&mut self, player: &Player, add_score: u8)
        requires
            obeys_concrete_eq::<Player>(),
        ensures
            final(self)@ == (GameView {
                scores: scores_increased(old(self)@.scores, *player, add_score as int),
                ..old(self)@
            }),
    {
        let mut i: usize = 0;
        while i < 2
            invariant
                i <= 2,
                obeys_concrete_eq::<Player>(),
                forall|k: int| i <= k < 2 ==> self@.scores[k] == old(self)@.scores[k],
                forall|k: int|
                    0 <= k < i ==> self@.scores[k] == scores_increased(
                        old(self)@.scores,
                        *player,
                        add_score as int,
                    )[k],
                self@ == (GameView { scores: self@.scores, ..old(self)@ }),
            decreases 2 - i,
        {
            proof {
                reveal(obeys_concrete_eq);
            }
            let (p, current_score) = self.scores[i];
            if p == *player {
                self.scores[i] = (p, current_score.saturating_add(add_score));
            }
            i += 1;
        }
        assert(self@.scores =~= scores_increased(old(self)@.scores, *player, add_score as int));
    }

    /// Return nb opponent player stones in the explodable area
    pub fn adjacent_opponent_stone(&self, position: Coordinates, player: &Player) -> (count: u8)
        requires
            obeys_concrete_eq::<Player>(),
            self@.has_player(*player),
        ensures
            count == adjacent_opponent_stones(self@.board, position, self@.index_of(*player)),
            count <= 9,
    {
        let me = self.player_index(player);
        self.board.count_opponent_stones(position, me)
    }

    pub fn is_player_turn(&self, player: &Player) -> (turn: bool)
        requires
            obeys_concrete_eq::<Player>(),
        ensures
            turn == (self@.next_player == *player),
    {
        proof {
            reveal(obeys_concrete_eq);
        }
        self.next_player == *player
    }

    pub fn player_index(&self, player: &Player) -> (index: PlayerIndex)
        requires
            obeys_concrete_eq::<Player>(),
            self@.has_player(*player),
        ensures
            index == self@.index_of(*player),
            index < 2,
    {
        proof {
            reveal(obeys_concrete_eq);
        }
        if self.players[0] == *player {
            0
        } else {
            1
        }
    }

    pub fn next_player(&self) -> (next: &Player)
        requires
            obeys_concrete_eq::<Player>(),
            self@.has_player(self@.next_player),
        ensures
            *next == self@.following_player(),
    {
        proof {
            reveal(obeys_concrete_eq);
        }
        if self.players[0] == self.next_player {
            &self.players[1]
        } else {
            &self.players[0]
        }
    }
}

/// Whether `player` may try to shoot a stone in from `side` at `position`,
/// and why not. A game that has a winner takes no stone, whatever else holds.
pub open spec fn stone_drop_check<Player, Bombs>(
    state: GameView<Player, Bombs>,
    side: Side,
    position: Position,
    player: Player,
) -> Result<(), GameError> {
    let entry = path_cell(side, position, 0);
    if state.winner is Some {
        Err(GameError::GameAlreadyFinished)
    } else if state.phase != GamePhase::Play {
        Err(GameError::DroppedStoneOutsidePlayPhase)
    } else if state.next_player != player {
        Err(GameError::NotPlayerTurn)
    } else if !(position < 10 && !(cell_at(state.board, entry) is Block || cell_at(state.board, entry) is Stone)) {
        Err(GameError::InvalidStonePosition)
    } else {
        Ok(())
    }
}

/// `state` with the winner entered, if there was none and a player has three squares.
pub open spec fn winner_checked<Player, Bombs>(state: GameView<Player, Bombs>) -> GameView<Player, Bombs> {
    if state.winner is Some {
        state
    } else {
        match square_winner(state.board) {
            Some(index) => GameView { winner: Some(state.players[index as int]), ..state },
            None => state,
        }
    }
}

/// What every stone brings about once the board has changed: a point for
/// the player, the move is recorded, the turn passes on, and the board is
/// read for a winner.
pub open spec fn move_finished<Player, Bombs>(
    state: GameView<Player, Bombs>,
    player: Player,
    side: Side,
    position: Position,
) -> GameView<Player, Bombs> {
    winner_checked(
        GameView {
            scores: scores_increased(state.scores, player, NB_POINT_STONE as int),
            last_move: Some(LastMove { player, side, position }),
            next_player: state.following_player(),
            ..state
        },
    )
}

/// The state after `player` has shot a stone in from `side` at `position`,
/// or the reason why the stone cannot be shot. A stone that meets a bomb
/// sets it off and is lost; the player scores for each stone of the
/// opponent that the explosion reaches.
pub open spec fn dropped_stone<Player, Bombs>(
    state: GameView<Player, Bombs>,
    player: Player,
    side: Side,
    position: Position,
) -> Result<GameView<Player, Bombs>, GameError> {
    match stone_drop_check(state, side, position, player) {
        Err(error) => Err(error),
        Ok(_) => {
            let me = state.index_of(player);
            match stone_fate(state.board, side, position) {
                StoneFate::Blocked => Err(GameError::InvalidStonePosition),
                StoneFate::Explodes(at) => Ok(
                    move_finished(
                        GameView {
                            board: blasted(state.board, at),
                            scores: scores_increased(
                                state.scores,
                                player,
                                NB_POINT_ENEMY_STONE_DESTROYED * adjacent_opponent_stones(state.board, at, me),
                            ),
                            ..state
                        },
                        player,
                        side,
                        position,
                    ),
                ),
                StoneFate::Lands(at) => Ok(
                    move_finished(
                        GameView { board: with_cell(state.board, at, Cell::Stone(me)), ..state },
                        player,
                        side,
                        position,
                    ),
                ),
            }
        },
    }
}

pub fn can_drop_stone<Player: PartialEq + Copy, Bombs: Copy + DeepView>(
    game_state: &GameState<Player, Bombs>,
    side: &Side,
    position: Position,
    player: &Player,
) -> (allowed: Result<(), GameError>)
    requires
        obeys_concrete_eq::<Player>(),
    ensures
        allowed == stone_drop_check(game_state@, *side, position, *player),
{
    if game_state.winner.is_some() {
        return Err(GameError::GameAlreadyFinished);
    }
    if game_state.phase != GamePhase::Play {
        return Err(GameError::DroppedStoneOutsidePlayPhase);
    }
    if !game_state.is_player_turn(player) {
        return Err(GameError::NotPlayerTurn);
    }
    if !game_state.board.is_stone_droppable(&side.bound_coordinates(position)) {
        return Err(GameError::InvalidStonePosition);
    }
    Ok(())
}

/// Change game phase.
pub fn change_game_phase<Player: PartialEq + Copy, Bombs: Copy + DeepView>(
    game_state: GameState<Player, Bombs>,
    phase: GamePhase,
) -> (state: GameState<Player, Bombs>)
    ensures
        state@ == (GameView { phase, ..game_state@ }),
{
    let mut game_state = game_state;
    game_state.change_game_phase(phase);
    game_state
}

/// Drop stone. Called during play phase.
pub fn drop_stone<Player: PartialEq + Copy, Bombs: Copy + DeepView>(
    game_state: GameState<Player, Bombs>,
    player: Player,
    side: Side,
    position: Position,
) -> (result: Result<GameState<Player, Bombs>, GameError>)
    requires
        obeys_concrete_eq::<Player>(),
        game_state@.wf(),
    ensures
        match dropped_stone(game_state@, player, side, position) {
            Ok(after) => result matches Ok(state) && state@ == after && state@.wf(),
            Err(error) => result == Err::<GameState<Player, Bombs>, GameError>(error),
        },
{
    let mut game_state = game_state;
    can_drop_stone(&game_state, &side, position, &player)?;
    let player_index = game_state.player_index(&player);
    match slide_stone(&game_state.board, side, position) {
        StoneFate::Blocked => {
            return Err(GameError::InvalidStonePosition);
        },
        // A cell bomb must explode.
        StoneFate::Explodes(bomb_position) => {
            proof {
                lemma_fate_on_board(game_state@.board, side, position, 0);
            }
            let destroyed = game_state.adjacent_opponent_stone(bomb_position, &player);
            game_state.increase_player_score(&player, NB_POINT_ENEMY_STONE_DESTROYED * destroyed);
            game_state.board.explode_bomb(bomb_position);
        },
        // The stone is placed where it came to rest.
        StoneFate::Lands(rest) => {
            proof {
                lemma_fate_on_board(game_state@.board, side, position, 0);
            }
            game_state.board.update_cell(rest, Cell::Stone(player_index));
        },
    }
    game_state.increase_player_score(&player, NB_POINT_STONE);
    let next_player = *game_state.next_player();
    game_state.last_move = Some(LastMove::new(player, side, position));
    game_state.next_player = next_player;
    game_state = check_winner_player(game_state);
    Ok(game_state)
}

/// Enters the winner, if there is none yet and a player has three squares.
pub fn check_winner_player<Player: PartialEq + Copy, Bombs: Copy + DeepView>(
    game_state: GameState<Player, Bombs>,
) -> (state: GameState<Player, Bombs>)
    ensures
        state@ == winner_checked(game_state@),
{
    let mut game_state = game_state;
    if game_state.winner.is_some() {
        return game_state;
    }
    match find_square_winner(&game_state.board) {
        Some(player_index) => {
            let winner = game_state.players[player_index as usize];
            game_state.winner = Some(winner);
        },
        None => {},
    }
    game_state
}

} // verus!
