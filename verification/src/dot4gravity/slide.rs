//! The way of a stone across the board.

use vstd::prelude::*;
use crate::dot4gravity::board::{Board, Cell, Coordinates, Grid, Position, Side, cell_at};

verus! {

/// What becomes of a stone that is shot into the board.
#[derive(Clone, Copy, Debug, PartialEq, Eq)]
pub enum StoneFate {
    /// The stone comes to rest in this cell.
    Lands(Coordinates),
    /// The stone runs into the bomb in this cell.
    Explodes(Coordinates),
    /// The cell of entry is taken: the stone does not enter the board.
    Blocked,
}

/// The cell that a stone from `side` at `position` reaches after `step` steps.
pub open spec fn path_cell(side: Side, position: Position, step: int) -> Coordinates {
    match side {
        Side::North => Coordinates { row: step as u8, col: position },
        Side::South => Coordinates { row: (9 - step) as u8, col: position },
        Side::West => Coordinates { row: position, col: step as u8 },
        Side::East => Coordinates { row: position, col: (9 - step) as u8 },
    }
}

/// What becomes of a stone that has passed `step` empty cells. It explodes
/// the first bomb it meets, comes to rest before the first block or stone,
/// and otherwise in the last cell of its way.
pub open spec fn fate_from(grid: Grid, side: Side, position: Position, step: int) -> StoneFate
    decreases 10 - step,
{
    if step < 0 || step >= 10 {
        StoneFate::Blocked
    } else {
        let here = path_cell(side, position, step);
        match cell_at(grid, here) {
            Cell::Bomb(_) => StoneFate::Explodes(here),
            Cell::Empty => if step == 9 {
                StoneFate::Lands(here)
            } else {
                fate_from(grid, side, position, step + 1)
            },
            _ => if step > 0 {
                StoneFate::Lands(path_cell(side, position, step - 1))
            } else {
                StoneFate::Blocked
            },
        }
    }
}

/// What becomes of a stone shot in from `side` at `position`.
pub open spec fn stone_fate(grid: Grid, side: Side, position: Position) -> StoneFate {
    fate_from(grid, side, position, 0)
}

/// A stone that lands or explodes does so on the board.
pub proof fn lemma_fate_on_board(grid: Grid, side: Side, position: Position, step: int)
    requires
        position < 10,
        0 <= step < 10,
    ensures
        match fate_from(grid, side, position, step) {
            StoneFate::Lands(at) => at.inside_board() && (step == 0 ==> cell_at(grid, at) is Empty),
            StoneFate::Explodes(at) => at.inside_board() && cell_at(grid, at) is Bomb,
            StoneFate::Blocked => step == 0 && !(cell_at(grid, path_cell(side, position, 0)) is Empty)
                && !(cell_at(grid, path_cell(side, position, 0)) is Bomb),
        },
    decreases 10 - step,
{
    let here = path_cell(side, position, step);
    if cell_at(grid, here) is Empty && step < 9 {
        lemma_fate_on_board(grid, side, position, step + 1);
        if step == 0 {
            lemma_lands_on_empty(grid, side, position, 0, 1);
        }
    }
}

/// A stone that has passed the empty cells from `first` on comes to rest
/// in one of them or in an empty cell further on.
pub proof fn lemma_lands_on_empty(grid: Grid, side: Side, position: Position, first: int, step: int)
    requires
        position < 10,
        0 <= first < step < 10,
        forall|k: int| first <= k < step ==> cell_at(grid, #[trigger] path_cell(side, position, k)) is Empty,
    ensures
        fate_from(grid, side, position, step) matches StoneFate::Lands(at) ==> cell_at(grid, at) is Empty,
    decreases 10 - step,
{
    let here = path_cell(side, position, step);
    if cell_at(grid, here) is Empty && step < 9 {
        lemma_lands_on_empty(grid, side, position, first, step + 1);
    } else if !(cell_at(grid, here) is Empty) && !(cell_at(grid, here) is Bomb) {
    }
}

/// A stone that finds its first `steps` cells empty fares as one that has
/// passed them.
pub proof fn lemma_fate_after_empty_cells(grid: Grid, side: Side, position: Position, steps: int)
    requires
        0 <= steps <= 9,
        forall|k: int| 0 <= k < steps ==> cell_at(grid, #[trigger] path_cell(side, position, k)) is Empty,
    ensures
        stone_fate(grid, side, position) == fate_from(grid, side, position, steps),
    decreases steps,
{
    if steps > 0 {
        lemma_fate_after_empty_cells(grid, side, position, steps - 1);
        assert(cell_at(grid, path_cell(side, position, steps - 1)) is Empty);
    }
}

/// The cell `step` steps into the board from `side` at `position`.
pub fn cell_on_path(side: Side, position: Position, step: u8) -> (here: Coordinates)
    requires
        step < 10,
    ensures
        here == path_cell(side, position, step as int),
{
    match side {
        Side::North => Coordinates::new(step, position),
        Side::South => Coordinates::new(9 - step, position),
        Side::West => Coordinates::new(position, step),
        Side::East => Coordinates::new(position, 9 - step),
    }
}

/// Follows a stone from `side` at `position` across the board.
pub fn slide_stone(board: &Board, side: Side, position: Position) -> (fate: StoneFate)
    requires
        position < 10,
    ensures
        fate == stone_fate(board@, side, position),
{
    let mut step: u8 = 0;
    loop
        invariant_except_break
            step < 10,
            position < 10,
            fate_from(board@, side, position, step as int) == stone_fate(board@, side, position),
        ensures
            step < 10,
            position < 10,
            fate_from(board@, side, position, step as int) == stone_fate(board@, side, position),
            !(cell_at(board@, path_cell(side, position, step as int)) is Empty) || step == 9,
        decreases 10 - step,
    {
        let here = cell_on_path(side, position, step);
        match board.get_cell(&here) {
            Cell::Empty => {
                if step == 9 {
                    break ;
                }
            },
            _ => {
                break ;
            },
        }
        step += 1;
    }
    let here = cell_on_path(side, position, step);
    match board.get_cell(&here) {
        Cell::Bomb(_) => StoneFate::Explodes(here),
        Cell::Empty => StoneFate::Lands(here),
        _ => {
            if step > 0 {
                StoneFate::Lands(cell_on_path(side, position, step - 1))
            } else {
                StoneFate::Blocked
            }
        },
    }
}

} // verus!
