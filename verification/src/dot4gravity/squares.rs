//! Squares of stones, by which the game is won.

use vstd::prelude::*;
use crate::dot4gravity::board::{Board, Cell, Coordinates, Grid, PlayerIndex};

verus! {

/// Squares that a player needs to win.
pub const SQUARES_TO_WIN: u8 = 3;

/// Whether the four cells whose upper left corner lies in `row` and `col`
/// all hold stones of `player`.
pub open spec fn is_square_of(grid: Grid, row: int, col: int, player: PlayerIndex) -> bool {
    &&& grid[row][col] == Cell::Stone(player)
    &&& grid[row][col + 1] == Cell::Stone(player)
    &&& grid[row + 1][col] == Cell::Stone(player)
    &&& grid[row + 1][col + 1] == Cell::Stone(player)
}

/// The squares of `player` among the first `n` corners. Corners are counted
/// row by row, nine to a row; squares may share cells.
pub open spec fn squares_before(grid: Grid, player: PlayerIndex, n: int) -> nat
    decreases n,
{
    if n <= 0 {
        0
    } else {
        squares_before(grid, player, n - 1) + (if is_square_of(grid, (n - 1) / 9, (n - 1) % 9, player) {
            1nat
        } else {
            0nat
        })
    }
}

/// Whether the corner numbered `n` completes the third square of one of the two players.
pub open spec fn completes_at(grid: Grid, n: int) -> Option<PlayerIndex> {
    match grid[n / 9][n % 9] {
        Cell::Stone(player) => if player < 2 && is_square_of(grid, n / 9, n % 9, player) && squares_before(
            grid,
            player,
            n + 1,
        ) >= 3 {
            Some(player)
        } else {
            None
        },
        _ => None,
    }
}

/// The first player to have three squares among the first `n` corners.
pub open spec fn winner_within(grid: Grid, n: int) -> Option<PlayerIndex>
    decreases n,
{
    if n <= 0 {
        None
    } else {
        match winner_within(grid, n - 1) {
            Some(player) => Some(player),
            None => completes_at(grid, n - 1),
        }
    }
}

/// The first of the two players to have three squares as the board is
/// read row by row from the upper left corner.
pub open spec fn square_winner(grid: Grid) -> Option<PlayerIndex> {
    winner_within(grid, 81)
}

/// A winner has at least three squares on the board, and is one of the two players.
pub proof fn lemma_winner_has_squares(grid: Grid, n: int)
    requires
        0 <= n <= 81,
    ensures
        winner_within(grid, n) matches Some(player) ==> player < 2 && squares_before(grid, player, n) >= 3,
    decreases n,
{
    if n > 0 {
        lemma_winner_has_squares(grid, n - 1);
    }
}

/// A board on which neither player has a square among the first `n`
/// corners has no winner there.
pub proof fn lemma_no_squares_no_winner(grid: Grid, n: int)
    requires
        0 <= n <= 81,
        forall|corner: int, player: PlayerIndex|
            0 <= corner < n && player < 2 ==> !#[trigger] is_square_of(grid, corner / 9, corner % 9, player),
    ensures
        winner_within(grid, n) is None,
    decreases n,
{
    if n > 0 {
        lemma_no_squares_no_winner(grid, n - 1);
        match grid[(n - 1) / 9][(n - 1) % 9] {
            Cell::Stone(player) => {
                if player < 2 {
                    assert(!is_square_of(grid, (n - 1) / 9, (n - 1) % 9, player));
                }
            },
            _ => {},
        }
    }
}

/// A player with fewer than three squares on the board has not won.
pub proof fn lemma_winner_needs_three(grid: Grid, player: PlayerIndex)
    requires
        squares_before(grid, player, 81) < 3,
    ensures
        square_winner(grid) != Some(player),
{
    lemma_winner_has_squares(grid, 81);
}

/// The squares of a player never get fewer as more corners are counted.
pub proof fn lemma_squares_grow(grid: Grid, player: PlayerIndex, n: int, m: int)
    requires
        n <= m,
    ensures
        squares_before(grid, player, n) <= squares_before(grid, player, m),
    decreases m - n,
{
    if n < m {
        lemma_squares_grow(grid, player, n, m - 1);
    }
}

/// A square at the corner numbered `corner` counts among the corners behind it.
pub proof fn lemma_square_counts(grid: Grid, player: PlayerIndex, corner: int)
    requires
        0 <= corner,
        is_square_of(grid, corner / 9, corner % 9, player),
    ensures
        squares_before(grid, player, corner + 1) == squares_before(grid, player, corner) + 1,
{
}

/// Three squares of a player at three corners are three squares on the board.
pub proof fn lemma_three_squares_counted(grid: Grid, player: PlayerIndex, first: int, second: int, third: int)
    requires
        0 <= first < second < third < 81,
        is_square_of(grid, first / 9, first % 9, player),
        is_square_of(grid, second / 9, second % 9, player),
        is_square_of(grid, third / 9, third % 9, player),
    ensures
        squares_before(grid, player, 81) >= 3,
{
    lemma_square_counts(grid, player, first);
    lemma_squares_grow(grid, player, first + 1, second);
    lemma_square_counts(grid, player, second);
    lemma_squares_grow(grid, player, second + 1, third);
    lemma_square_counts(grid, player, third);
    lemma_squares_grow(grid, player, third + 1, 81);
}

/// A player without a square among the first `n` corners has none counted there.
pub proof fn lemma_no_square_none_counted(grid: Grid, player: PlayerIndex, n: int)
    requires
        forall|corner: int| 0 <= corner < n ==> !#[trigger] is_square_of(grid, corner / 9, corner % 9, player),
    ensures
        squares_before(grid, player, n) == 0,
    decreases n,
{
    if n > 0 {
        lemma_no_square_none_counted(grid, player, n - 1);
        assert(!is_square_of(grid, (n - 1) / 9, (n - 1) % 9, player));
    }
}

/// A player with three squares wins where the other player has fewer than three.
pub proof fn lemma_only_one_has_three(grid: Grid, player: PlayerIndex)
    requires
        player < 2,
        squares_before(grid, player, 81) >= 3,
        squares_before(grid, (1 - player) as PlayerIndex, 81) < 3,
    ensures
        square_winner(grid) == Some(player),
{
    lemma_three_squares_win(grid, player, 81);
    lemma_winner_has_squares(grid, 81);
}

/// Where one of the two players has three squares, the board has a winner.
pub proof fn lemma_three_squares_win(grid: Grid, player: PlayerIndex, n: int)
    requires
        0 <= n <= 81,
        player < 2,
        squares_before(grid, player, n) >= 3,
    ensures
        winner_within(grid, n) is Some,
    decreases n,
{
    if n > 0 && squares_before(grid, player, n - 1) >= 3 {
        lemma_three_squares_win(grid, player, n - 1);
    }
}

/// Tells whether the four cells with their upper left corner in `row` and
/// `col` are stones of one of the two players, and of which.
pub fn square_owner(board: &Board, row: u8, col: u8) -> (owner: Option<PlayerIndex>)
    requires
        row < 9,
        col < 9,
    ensures
        owner matches Some(player) ==> player < 2 && is_square_of(board@, row as int, col as int, player),
        owner is None ==> forall|player: PlayerIndex|
            player < 2 ==> !is_square_of(board@, row as int, col as int, player),
{
    match board.get_cell(&Coordinates::new(row, col)) {
        Cell::Stone(player) => {
            if player < 2 && is_stone_of(board, row, col + 1, player) && is_stone_of(board, row + 1, col, player)
                && is_stone_of(board, row + 1, col + 1, player) {
                Some(player)
            } else {
                None
            }
        },
        _ => None,
    }
}

fn is_stone_of(board: &Board, row: u8, col: u8, player: PlayerIndex) -> (ok: bool)
    requires
        row < 10,
        col < 10,
    ensures
        ok == (board@[row as int][col as int] == Cell::Stone(player)),
{
    match board.get_cell(&Coordinates::new(row, col)) {
        Cell::Stone(owner) => owner == player,
        _ => false,
    }
}

/// Reads the board row by row and names the first player to have three squares.
pub fn find_square_winner(board: &Board) -> (winner: Option<PlayerIndex>)
    ensures
        winner == square_winner(board@),
        winner matches Some(player) ==> player < 2,
{
    let mut squares: [u8; 2] = [0, 0];
    let mut n: u8 = 0;
    while n < 81
        invariant
            n <= 81,
            winner_within(board@, n as int) is None,
            squares@[0] == squares_before(board@, 0, n as int),
            squares@[1] == squares_before(board@, 1, n as int),
            squares@[0] < 3,
            squares@[1] < 3,
        decreases 81 - n,
    {
        let row: u8 = n / 9;
        let col: u8 = n % 9;
        let owner = square_owner(board, row, col);
        match owner {
            Some(player) => {
                squares[player as usize] = squares[player as usize] + 1;
                if squares[player as usize] >= SQUARES_TO_WIN {
                    proof {
                        lemma_winner_stays(board@, n + 1, 81);
                    }
                    return Some(player);
                }
            },
            None => {},
        }
        n += 1;
    }
    None
}

/// The winner among the first corners is the winner of the board.
pub proof fn lemma_winner_stays(grid: Grid, n: int, m: int)
    requires
        0 <= n <= m,
        winner_within(grid, n) is Some,
    ensures
        winner_within(grid, m) == winner_within(grid, n),
    decreases m - n,
{
    if n < m {
        lemma_winner_stays(grid, n, m - 1);
    }
}

} // verus!
