//! What holds of every game, whatever the moves.

use vstd::prelude::*;
use crate::dot4gravity::board::{
    Cell, Coordinates, Grid, Position, Seed, Side, NUM_OF_BLOCKS, blasted, cell_at, empty_grid, grid_wf, with_cell,
};
use crate::dot4gravity::game::{Game, bomb_added, bomb_drop_check, dropped_bomb, new_game_view, starting_seed};
use crate::dot4gravity::placement::{
    drawn_coordinates, placement_after, placement_completes, placement_done, placement_ends,
};
use crate::dot4gravity::sealed::{
    BombSlots, BombView, SealedGame, SealedView, Secret, commitment, detonated, first_in_hand, first_revealed,
    hidden_bomb, revealed_bomb, sealed_bomb_check,
};
use crate::dot4gravity::slide::{StoneFate, lemma_fate_on_board, stone_fate};
use crate::dot4gravity::state::{GameError, GamePhase, GameState, GameView, dropped_stone, winner_checked};
use vstd::laws_eq::obeys_concrete_eq;

verus! {

/// The bombs in the first `n` cells of `row`.
pub open spec fn bombs_in_row(row: Seq<Cell>, n: int) -> nat
    decreases n,
{
    if n <= 0 {
        0
    } else {
        bombs_in_row(row, n - 1) + row[n - 1].bomb_count()
    }
}

/// The bombs in the first `n` rows of `grid`.
pub open spec fn bombs_in_rows(grid: Grid, n: int) -> nat
    decreases n,
{
    if n <= 0 {
        0
    } else {
        bombs_in_rows(grid, n - 1) + bombs_in_row(grid[n - 1], 10)
    }
}

/// The bombs that lie on the board.
pub open spec fn bombs_on_board(grid: Grid) -> nat {
    bombs_in_rows(grid, 10)
}

/// The bombs on the board and the bombs that the players have in hand.
pub open spec fn bombs_in_game<Player>(state: GameView<Player, u8>) -> int {
    bombs_on_board(state.board) + state.bombs[0].1 + state.bombs[1].1
}

/// Whether no bomb has been lost: three for each of the two players.
pub open spec fn bombs_accounted<Player>(state: GameView<Player, u8>) -> bool {
    bombs_in_game(state) == 6
}

proof fn lemma_row_changed(row: Seq<Cell>, col: int, cell: Cell, n: int)
    requires
        0 <= col < row.len(),
        0 <= n <= row.len(),
    ensures
        bombs_in_row(row.update(col, cell), n) == bombs_in_row(row, n) + (if col < n {
            cell.bomb_count() - row[col].bomb_count()
        } else {
            0
        }),
    decreases n,
{
    if n > 0 {
        lemma_row_changed(row, col, cell, n - 1);
    }
}

proof fn lemma_rows_changed(grid: Grid, position: Coordinates, cell: Cell, n: int)
    requires
        grid_wf(grid),
        position.inside_board(),
        0 <= n <= 10,
    ensures
        bombs_in_rows(with_cell(grid, position, cell), n) == bombs_in_rows(grid, n) + (if position.row < n {
            cell.bomb_count() - cell_at(grid, position).bomb_count()
        } else {
            0
        }),
    decreases n,
{
    if n > 0 {
        lemma_rows_changed(grid, position, cell, n - 1);
        if position.row == n - 1 {
            lemma_row_changed(grid[n - 1], position.col as int, cell, 10);
        }
    }
}

/// A cell that changes takes its bombs off the board and puts those of the new cell on.
pub proof fn lemma_cell_changed(grid: Grid, position: Coordinates, cell: Cell)
    requires
        grid_wf(grid),
        position.inside_board(),
    ensures
        bombs_on_board(with_cell(grid, position, cell)) == bombs_on_board(grid) + cell.bomb_count() - cell_at(
            grid,
            position,
        ).bomb_count(),
        grid_wf(with_cell(grid, position, cell)),
{
    lemma_rows_changed(grid, position, cell, 10);
}

proof fn lemma_no_bombs_in_row(row: Seq<Cell>, n: int)
    requires
        0 <= n <= row.len(),
        forall|col: int| 0 <= col < row.len() ==> !(#[trigger] row[col] is Bomb),
    ensures
        bombs_in_row(row, n) == 0,
    decreases n,
{
    if n > 0 {
        lemma_no_bombs_in_row(row, n - 1);
    }
}

proof fn lemma_no_bombs_in_rows(grid: Grid, n: int)
    requires
        grid_wf(grid),
        0 <= n <= 10,
        forall|row: int, col: int| 0 <= row < 10 && 0 <= col < 10 ==> !(#[trigger] grid[row][col] is Bomb),
    ensures
        bombs_in_rows(grid, n) == 0,
    decreases n,
{
    if n > 0 {
        lemma_no_bombs_in_rows(grid, n - 1);
        lemma_no_bombs_in_row(grid[n - 1], 10);
    }
}

/// While the blocks are placed, the board holds blocks and empty cells only.
pub proof fn lemma_placement_has_no_bombs(seed: Seed, draws: nat)
    ensures
        grid_wf(placement_after(seed, draws).grid),
        forall|row: int, col: int|
            0 <= row < 10 && 0 <= col < 10 ==> !(#[trigger] placement_after(seed, draws).grid[row][col] is Bomb)
                && !(placement_after(seed, draws).grid[row][col] is Stone),
    decreases draws,
{
    if draws > 0 {
        lemma_placement_has_no_bombs(seed, (draws - 1) as nat);
        let before = placement_after(seed, (draws - 1) as nat);
        if before.placed < NUM_OF_BLOCKS {
            let at = drawn_coordinates(before.seed);
            assert(at.inside_board());
        }
    }
}

/// The blocks in the first `n` cells of `row`.
pub open spec fn blocks_in_row(row: Seq<Cell>, n: int) -> nat
    decreases n,
{
    if n <= 0 {
        0
    } else {
        blocks_in_row(row, n - 1) + (if row[n - 1] is Block {
            1nat
        } else {
            0nat
        })
    }
}

/// The blocks in the first `n` rows of `grid`.
pub open spec fn blocks_in_rows(grid: Grid, n: int) -> nat
    decreases n,
{
    if n <= 0 {
        0
    } else {
        blocks_in_rows(grid, n - 1) + blocks_in_row(grid[n - 1], 10)
    }
}

/// The blocks that lie on the board.
pub open spec fn blocks_on_board(grid: Grid) -> nat {
    blocks_in_rows(grid, 10)
}

proof fn lemma_block_in_row(row: Seq<Cell>, col: int, n: int)
    requires
        0 <= col < row.len(),
        0 <= n <= row.len(),
        !(row[col] is Block),
    ensures
        blocks_in_row(row.update(col, Cell::Block), n) == blocks_in_row(row, n) + (if col < n {
            1nat
        } else {
            0nat
        }),
    decreases n,
{
    if n > 0 {
        lemma_block_in_row(row, col, n - 1);
    }
}

proof fn lemma_block_in_rows(grid: Grid, position: Coordinates, n: int)
    requires
        grid_wf(grid),
        position.inside_board(),
        !(cell_at(grid, position) is Block),
        0 <= n <= 10,
    ensures
        blocks_in_rows(with_cell(grid, position, Cell::Block), n) == blocks_in_rows(grid, n) + (if position.row
            < n {
            1nat
        } else {
            0nat
        }),
    decreases n,
{
    if n > 0 {
        lemma_block_in_rows(grid, position, n - 1);
        if position.row == n - 1 {
            lemma_block_in_row(grid[n - 1], position.col as int, 10);
        }
    }
}

proof fn lemma_no_blocks_in_rows(n: int)
    requires
        0 <= n <= 10,
    ensures
        blocks_in_rows(empty_grid(), n) == 0,
    decreases n,
{
    if n > 0 {
        lemma_no_blocks_in_rows(n - 1);
        lemma_no_blocks_in_row(empty_grid()[n - 1], 10);
    }
}

proof fn lemma_no_blocks_in_row(row: Seq<Cell>, n: int)
    requires
        0 <= n <= row.len(),
        forall|col: int| 0 <= col < row.len() ==> #[trigger] row[col] is Empty,
    ensures
        blocks_in_row(row, n) == 0,
    decreases n,
{
    if n > 0 {
        lemma_no_blocks_in_row(row, n - 1);
    }
}

/// While the blocks are placed, as many blocks lie on the board as have been counted.
pub proof fn lemma_placement_counts_blocks(seed: Seed, draws: nat)
    ensures
        blocks_on_board(placement_after(seed, draws).grid) == placement_after(seed, draws).placed,
        placement_after(seed, draws).placed <= NUM_OF_BLOCKS,
    decreases draws,
{
    if draws > 0 {
        lemma_placement_counts_blocks(seed, (draws - 1) as nat);
        lemma_placement_has_no_bombs(seed, (draws - 1) as nat);
        let before = placement_after(seed, (draws - 1) as nat);
        if before.placed < NUM_OF_BLOCKS {
            let at = drawn_coordinates(before.seed);
            if !(cell_at(before.grid, at) is Block) {
                lemma_block_in_rows(before.grid, at, 10);
            }
        }
    } else {
        lemma_no_blocks_in_rows(10);
    }
}

/// A new game starts on a board with ten blocks and nothing else.
pub proof fn lemma_new_game_has_ten_blocks<Player>(player1: Player, player2: Player, seed: Seed)
    requires
        placement_ends(seed),
    ensures
        blocks_on_board(new_game_view(player1, player2, placement_done(seed)).board) == NUM_OF_BLOCKS,
        forall|row: int, col: int|
            0 <= row < 10 && 0 <= col < 10 ==> {
                let cell = #[trigger] new_game_view(player1, player2, placement_done(seed)).board[row][col];
                cell is Block || cell is Empty
            },
{
    let draws = choose|draws: nat| placement_completes(seed, draws);
    lemma_placement_counts_blocks(seed, draws);
    lemma_placement_has_no_bombs(seed, draws);
}

/// A new game starts with all bombs accounted for: none on the board, three in each hand.
pub proof fn lemma_new_game_accounts<Player>(player1: Player, player2: Player, seed: Seed)
    requires
        placement_ends(seed),
    ensures
        bombs_accounted(new_game_view(player1, player2, placement_done(seed))),
{
    let draws = choose|draws: nat| placement_completes(seed, draws);
    lemma_placement_has_no_bombs(seed, draws);
    lemma_no_bombs_in_rows(placement_done(seed).grid, 10);
}

/// A bomb that is dropped passes from the hand of the player to the
/// board: all bombs stay accounted for.
pub proof fn lemma_drop_bomb_accounts<Player>(state: GameView<Player, u8>, position: Coordinates, player: Player)
    requires
        state.wf(),
        state.has_player(player),
        bombs_accounted(state),
        dropped_bomb(state, position, player) is Ok,
    ensures
        bombs_accounted(dropped_bomb(state, position, player)->Ok_0),
{
    let cell = bomb_added(cell_at(state.board, position), state.index_of(player))->Some_0;
    lemma_cell_changed(state.board, position, cell);
}

/// A stone that comes to rest leaves all bombs accounted for. (A stone
/// that sets off a bomb does not: the bombs in the explosion are gone.)
pub proof fn lemma_drop_stone_accounts<Player>(
    state: GameView<Player, u8>,
    player: Player,
    side: Side,
    position: Position,
)
    requires
        state.wf(),
        bombs_accounted(state),
        dropped_stone(state, player, side, position) is Ok,
        stone_fate(state.board, side, position) is Lands,
    ensures
        bombs_accounted(dropped_stone(state, player, side, position)->Ok_0),
{
    let at = stone_fate(state.board, side, position)->Lands_0;
    lemma_fate_on_board(state.board, side, position, 0);
    lemma_cell_changed(state.board, at, Cell::Stone(state.index_of(player)));
}

/// Whether the bombs in `cell` belong to players that differ.
pub open spec fn owners_differ(cell: Cell) -> bool {
    match cell {
        Cell::Bomb(owners) => owners[0] is Some && owners[1] is Some ==> owners[0] != owners[1],
        _ => true,
    }
}

/// Whether no cell of the board holds two bombs of one player.
pub open spec fn board_consistent(grid: Grid) -> bool {
    forall|row: int, col: int| 0 <= row < 10 && 0 <= col < 10 ==> owners_differ(#[trigger] grid[row][col])
}

/// A bomb that is dropped leaves no cell with two bombs of one player.
pub proof fn lemma_drop_bomb_keeps_owners_apart<Player>(
    state: GameView<Player, u8>,
    position: Coordinates,
    player: Player,
)
    requires
        state.wf(),
        board_consistent(state.board),
        dropped_bomb(state, position, player) is Ok,
    ensures
        board_consistent(dropped_bomb(state, position, player)->Ok_0.board),
{
}

/// A stone, wherever it ends, leaves no cell with two bombs of one player.
pub proof fn lemma_drop_stone_keeps_owners_apart<Player, Bombs>(
    state: GameView<Player, Bombs>,
    player: Player,
    side: Side,
    position: Position,
)
    requires
        state.wf(),
        board_consistent(state.board),
        dropped_stone(state, player, side, position) is Ok,
    ensures
        board_consistent(dropped_stone(state, player, side, position)->Ok_0.board),
{
    lemma_fate_on_board(state.board, side, position, 0);
}

/// Whether the game is in its bomb phase exactly as long as a player has a bomb in hand.
pub open spec fn phase_follows_bombs<Player>(state: GameView<Player, u8>) -> bool {
    state.phase == GamePhase::Bomb <==> !state.all_bombs_dropped()
}

/// A new game is in its bomb phase, and the players have bombs in hand.
pub proof fn lemma_new_game_phase<Player>(player1: Player, player2: Player, seed: Seed)
    ensures
        phase_follows_bombs(new_game_view(player1, player2, placement_done(seed))),
{
}

/// The bomb phase ends with the last bomb, in the very move that drops it, and not before.
pub proof fn lemma_drop_bomb_phase<Player>(state: GameView<Player, u8>, position: Coordinates, player: Player)
    requires
        state.wf(),
        state.has_player(player),
        dropped_bomb(state, position, player) is Ok,
    ensures
        phase_follows_bombs(dropped_bomb(state, position, player)->Ok_0),
{
}

/// A stone changes neither the phase nor the bombs in hand.
pub proof fn lemma_drop_stone_phase<Player>(state: GameView<Player, u8>, player: Player, side: Side, position: Position)
    requires
        phase_follows_bombs(state),
        dropped_stone(state, player, side, position) is Ok,
    ensures
        phase_follows_bombs(dropped_stone(state, player, side, position)->Ok_0),
{
}

/// With hidden bombs too, the bomb phase ends with the last bomb that is hidden.
pub proof fn lemma_hidden_bomb_phase<Player>(
    state: SealedView<Player>,
    position: Coordinates,
    player: Player,
    secret: Secret,
)
    requires
        hidden_bomb(state, position, player, secret) is Ok,
    ensures
        ({
            let after = hidden_bomb(state, position, player, secret)->Ok_0;
            after.phase == GamePhase::Bomb <==> !after.all_bombs_dropped()
        }),
{
}

proof fn lemma_row_loses_bombs(before: Seq<Cell>, after: Seq<Cell>, n: int)
    requires
        0 <= n <= before.len(),
        before.len() == after.len(),
        forall|col: int| 0 <= col < before.len() ==> (#[trigger] after[col]).bomb_count() <= before[col].bomb_count(),
    ensures
        bombs_in_row(after, n) <= bombs_in_row(before, n),
    decreases n,
{
    if n > 0 {
        lemma_row_loses_bombs(before, after, n - 1);
    }
}

proof fn lemma_rows_lose_bombs(before: Grid, after: Grid, n: int)
    requires
        0 <= n <= 10,
        grid_wf(before),
        grid_wf(after),
        forall|row: int, col: int|
            0 <= row < 10 && 0 <= col < 10 ==> (#[trigger] after[row][col]).bomb_count()
                <= before[row][col].bomb_count(),
    ensures
        bombs_in_rows(after, n) <= bombs_in_rows(before, n),
    decreases n,
{
    if n > 0 {
        lemma_rows_lose_bombs(before, after, n - 1);
        lemma_row_loses_bombs(before[n - 1], after[n - 1], 10);
    }
}

/// An explosion puts no bomb on the board.
pub proof fn lemma_explosion_loses_bombs(grid: Grid, center: Coordinates)
    requires
        grid_wf(grid),
    ensures
        bombs_on_board(blasted(grid, center)) <= bombs_on_board(grid),
        grid_wf(blasted(grid, center)),
{
    lemma_rows_lose_bombs(grid, blasted(grid, center), 10);
}

/// What holds of a game with bombs on the board from its start to its
/// end: two players that differ, no cell with two bombs of one player,
/// the bomb phase for as long as a bomb is in hand, and never more than
/// the six bombs that the game started with.
pub open spec fn game_invariant<Player>(state: GameView<Player, u8>) -> bool {
    &&& state.wf()
    &&& board_consistent(state.board)
    &&& phase_follows_bombs(state)
    &&& bombs_in_game(state) <= 6
}

/// A new game of two players that differ starts with all that holds of a game.
pub proof fn lemma_new_game_invariant<Player>(player1: Player, player2: Player, seed: Seed)
    requires
        player1 != player2,
        placement_ends(seed),
    ensures
        game_invariant(new_game_view(player1, player2, placement_done(seed))),
{
    let draws = choose|draws: nat| placement_completes(seed, draws);
    lemma_placement_has_no_bombs(seed, draws);
    lemma_new_game_accounts(player1, player2, seed);
}

/// A bomb that is dropped leaves all that holds of a game as it is.
pub proof fn lemma_drop_bomb_invariant<Player>(state: GameView<Player, u8>, position: Coordinates, player: Player)
    requires
        game_invariant(state),
        state.has_player(player),
        dropped_bomb(state, position, player) is Ok,
    ensures
        game_invariant(dropped_bomb(state, position, player)->Ok_0),
{
    let cell = bomb_added(cell_at(state.board, position), state.index_of(player))->Some_0;
    lemma_cell_changed(state.board, position, cell);
    lemma_drop_bomb_keeps_owners_apart(state, position, player);
}

/// A stone, wherever it ends, leaves all that holds of a game as it is.
pub proof fn lemma_drop_stone_invariant<Player>(
    state: GameView<Player, u8>,
    player: Player,
    side: Side,
    position: Position,
)
    requires
        game_invariant(state),
        dropped_stone(state, player, side, position) is Ok,
    ensures
        game_invariant(dropped_stone(state, player, side, position)->Ok_0),
{
    lemma_fate_on_board(state.board, side, position, 0);
    lemma_drop_stone_keeps_owners_apart(state, player, side, position);
    match stone_fate(state.board, side, position) {
        StoneFate::Lands(at) => {
            lemma_cell_changed(state.board, at, Cell::Stone(state.index_of(player)));
        },
        StoneFate::Explodes(at) => {
            lemma_explosion_loses_bombs(state.board, at);
        },
        StoneFate::Blocked => {},
    }
}

/// Each bomb that is dropped takes exactly one bomb out of the hand of the
/// player who drops it. The hand of the other player, the scores, the
/// players, the turn, the winner, the last move and the seed stay as they are.
pub proof fn lemma_drop_bomb_takes_one<Player>(state: GameView<Player, u8>, position: Coordinates, player: Player)
    requires
        state.wf(),
        state.has_player(player),
        dropped_bomb(state, position, player) is Ok,
    ensures
        ({
            let after = dropped_bomb(state, position, player)->Ok_0;
            &&& after.bombs_left(player) == Some((state.bombs_left(player)->Some_0 - 1) as u8)
            &&& state.bombs_left(player)->Some_0 > 0
            &&& forall|other: Player| other != player ==> after.bombs_left(other) == state.bombs_left(other)
            &&& after.scores == state.scores
            &&& after.players == state.players
            &&& after.next_player == state.next_player
            &&& after.winner == state.winner
            &&& after.last_move == state.last_move
            &&& after.seed == state.seed
        }),
{
}

/// Each bomb that is hidden takes exactly one bomb out of the hand of the
/// player who hides it, and leaves the board and all else but the phase as it is.
pub proof fn lemma_hidden_bomb_takes_one<Player>(
    state: SealedView<Player>,
    position: Coordinates,
    player: Player,
    secret: Secret,
)
    requires
        state.sealed_wf(),
        state.has_player(player),
        hidden_bomb(state, position, player, secret) is Ok,
    ensures
        ({
            let after = hidden_bomb(state, position, player, secret)->Ok_0;
            &&& after.bombs_left(player) == Some((state.bombs_left(player)->Some_0 - 1) as u8)
            &&& state.bombs_left(player)->Some_0 > 0
            &&& forall|other: Player| other != player ==> after.bombs_left(other) == state.bombs_left(other)
            &&& after.board == state.board
            &&& after.scores == state.scores
            &&& after.players == state.players
            &&& after.next_player == state.next_player
            &&& after.winner == state.winner
            &&& after.last_move == state.last_move
            &&& after.seed == state.seed
        }),
{
}

/// Once a game has a winner, every move is told that the game has
/// finished, whatever the phase, the player, the place and the side, and
/// the state stays as it is.
pub proof fn lemma_finished_game_is_final<Player>(
    state: GameView<Player, u8>,
    player: Player,
    position: Coordinates,
    side: Side,
    at: Position,
)
    requires
        state.winner is Some,
    ensures
        dropped_bomb(state, position, player) == Err::<GameView<Player, u8>, GameError>(
            GameError::GameAlreadyFinished,
        ),
        dropped_stone(state, player, side, at) == Err::<GameView<Player, u8>, GameError>(
            GameError::GameAlreadyFinished,
        ),
        winner_checked(state) == state,
{
}

/// Once a game with hidden bombs has a winner, every move is told that
/// the game has finished, whatever the phase, the player, the place, the
/// secret and the side.
pub proof fn lemma_finished_sealed_game_is_final<Player>(
    state: SealedView<Player>,
    player: Player,
    position: Coordinates,
    secret: Secret,
    side: Side,
    at: Position,
)
    requires
        state.winner is Some,
    ensures
        hidden_bomb(state, position, player, secret) == Err::<SealedView<Player>, GameError>(
            GameError::GameAlreadyFinished,
        ),
        detonated(state, player, position, secret) == Err::<SealedView<Player>, GameError>(
            GameError::GameAlreadyFinished,
        ),
        dropped_stone(state, player, side, at) == Err::<SealedView<Player>, GameError>(
            GameError::GameAlreadyFinished,
        ),
        winner_checked(state) == state,
{
}

/// Whether `position` and `secret` are what `player` has committed to
/// with one of the bombs that are still hidden.
pub open spec fn committed<Player>(
    state: SealedView<Player>,
    player: Player,
    position: Coordinates,
    secret: Secret,
) -> bool {
    state.slots_of(player) matches Some(slots) && exists|slot: int|
        0 <= slot < 3 && #[trigger] slots[slot] == BombView::Placed(commitment(position, secret), secret)
}

/// In a game without a winner, a player sets off a bomb on the board
/// exactly where that player has committed to the place and the secret,
/// in either phase and whoever is to move; every other place and secret
/// are told to be no place of a bomb. The bomb that is revealed is spent,
/// all other bombs stay as they are, and the explosion clears the place.
pub proof fn lemma_detonation_is_sound<Player>(
    state: SealedView<Player>,
    player: Player,
    position: Coordinates,
    secret: Secret,
)
    requires
        state.sealed_wf(),
        state.winner is None,
        position.inside_board(),
    ensures
        detonated(state, player, position, secret) is Ok <==> committed(state, player, position, secret),
        detonated(state, player, position, secret) is Err ==> detonated(state, player, position, secret) == Err::<
            SealedView<Player>,
            GameError,
        >(GameError::InvalidBombPosition),
        detonated(state, player, position, secret) matches Ok(after) ==> {
            let slot = revealed_bomb(state, player, position, secret);
            let entry = state.slots_index(player);
            &&& 0 <= slot < 3
            &&& state.bombs[entry].1[slot] == BombView::Placed(commitment(position, secret), secret)
            &&& after.bombs[entry].1 == state.bombs[entry].1.update(slot, BombView::Detonated)
            &&& after.bombs[1 - entry] == state.bombs[1 - entry]
            &&& after.board == blasted(state.board, position)
            &&& cell_at(after.board, position) is Empty || cell_at(state.board, position) is Block
        },
{
    if state.slots_of(player) is Some {
        let slots = state.slots_of(player)->Some_0;
        if detonated(state, player, position, secret) is Ok {
            let slot = first_revealed(slots, position, secret);
            assert(slots[slot] == BombView::Placed(commitment(position, secret), secret));
        }
    }
}

/// A reveal passes the turn on exactly where the player who reveals is the
/// one to move in the play phase; otherwise the turn stays where it is.
pub proof fn lemma_reveal_and_the_turn<Player>(
    state: SealedView<Player>,
    player: Player,
    position: Coordinates,
    secret: Secret,
)
    requires
        state.sealed_wf(),
        detonated(state, player, position, secret) is Ok,
    ensures
        ({
            let after = detonated(state, player, position, secret)->Ok_0;
            &&& state.phase == GamePhase::Play && state.next_player == player ==> after.next_player != player
                && state.has_player(after.next_player)
            &&& !(state.phase == GamePhase::Play && state.next_player == player) ==> after.next_player
                == state.next_player
            &&& after.phase == state.phase
            &&& after.winner == state.winner
            &&& after.last_move == state.last_move
        }),
{
}

/// What is hidden can be revealed: after a player has hidden a bomb at a
/// place under a secret, that player has committed to them.
pub proof fn lemma_hidden_bomb_is_committed<Player>(
    state: SealedView<Player>,
    position: Coordinates,
    player: Player,
    secret: Secret,
)
    requires
        state.sealed_wf(),
        state.has_player(player),
        hidden_bomb(state, position, player, secret) is Ok,
    ensures
        committed(hidden_bomb(state, position, player, secret)->Ok_0, player, position, secret),
        position.inside_board(),
{
    let after = hidden_bomb(state, position, player, secret)->Ok_0;
    let slot = first_in_hand(state.bombs[state.slots_index(player)].1);
    assert(after.slots_of(player)->Some_0[slot] == BombView::Placed(commitment(position, secret), secret));
}

/// What a move has come to, as contracts see it.
pub open spec fn outcome<Player, Bombs: DeepView>(result: Result<GameState<Player, Bombs>, GameError>) -> Result<
    GameView<Player, Bombs::V>,
    GameError,
> {
    match result {
        Ok(state) => Ok(state@),
        Err(error) => Err(error),
    }
}

/// A stone shot into the same state by the same player from the same side
/// at the same place always comes to the same: any two results that the
/// move may give are one.
pub proof fn lemma_drop_stone_is_determined<Player: PartialEq + Copy>(
    state: GameState<Player>,
    player: Player,
    side: Side,
    position: Position,
    first: Result<GameState<Player>, GameError>,
    second: Result<GameState<Player>, GameError>,
)
    requires
        obeys_concrete_eq::<Player>(),
        state@.wf(),
        call_ensures(Game::<Player>::drop_stone, (state, player, side, position), first),
        call_ensures(Game::<Player>::drop_stone, (state, player, side, position), second),
    ensures
        outcome(first) == outcome(second),
{
}

/// A bomb dropped on the board of the same state by the same player at
/// the same place always comes to the same.
pub proof fn lemma_drop_bomb_is_determined<Player: PartialEq + Copy>(
    state: GameState<Player>,
    position: Coordinates,
    player: Player,
    first: Result<GameState<Player>, GameError>,
    second: Result<GameState<Player>, GameError>,
)
    requires
        obeys_concrete_eq::<Player>(),
        state@.wf(),
        bomb_drop_check(state@, position, player) is Ok ==> state@.has_player(player),
        call_ensures(Game::<Player>::drop_bomb, (state, position, player), first),
        call_ensures(Game::<Player>::drop_bomb, (state, position, player), second),
    ensures
        outcome(first) == outcome(second),
{
}

/// A bomb hidden in the same state by the same player at the same place
/// under the same secret always comes to the same.
pub proof fn lemma_hidden_bomb_is_determined<Player: PartialEq + Copy>(
    state: GameState<Player, BombSlots>,
    position: Coordinates,
    player: Player,
    secret: Secret,
    first: Result<GameState<Player, BombSlots>, GameError>,
    second: Result<GameState<Player, BombSlots>, GameError>,
)
    requires
        obeys_concrete_eq::<Player>(),
        state@.wf(),
        sealed_bomb_check(state@, position, player) is Ok ==> state@.has_player(player),
        call_ensures(SealedGame::<Player>::drop_bomb, (state, position, player, secret), first),
        call_ensures(SealedGame::<Player>::drop_bomb, (state, position, player, secret), second),
    ensures
        outcome(first) == outcome(second),
{
}

/// A bomb set off in the same state by the same player at the same place
/// with the same secret always comes to the same.
pub proof fn lemma_detonation_is_determined<Player: PartialEq + Copy>(
    state: GameState<Player, BombSlots>,
    player: Player,
    position: Coordinates,
    secret: Secret,
    first: Result<GameState<Player, BombSlots>, GameError>,
    second: Result<GameState<Player, BombSlots>, GameError>,
)
    requires
        obeys_concrete_eq::<Player>(),
        state@.wf(),
        call_ensures(SealedGame::<Player>::detonate_bomb, (state, player, position, secret), first),
        call_ensures(SealedGame::<Player>::detonate_bomb, (state, player, position, secret), second),
    ensures
        outcome(first) == outcome(second),
{
}

/// Two games that start with the same players from the same seed start in the same state.
pub proof fn lemma_new_game_is_determined<Player: PartialEq + Copy>(
    player1: Player,
    player2: Player,
    seed: Option<Seed>,
    first: GameState<Player>,
    second: GameState<Player>,
)
    requires
        placement_ends(starting_seed(seed)),
        call_ensures(Game::<Player>::new_game, (player1, player2, seed), first),
        call_ensures(Game::<Player>::new_game, (player1, player2, seed), second),
    ensures
        first@ == second@,
{
}

} // verus!
