//! Cells, coordinates and the board itself.

use vstd::prelude::*;

verus! {

pub const INITIAL_SEED: Seed = 123_456;

pub const INCREMENT: Seed = 74;

pub const MULTIPLIER: Seed = 75;

pub const MODULUS: Seed = 65_536;

pub const BOARD_WIDTH: u8 = 10;

pub const BOARD_HEIGHT: u8 = 10;

pub const NUM_OF_PLAYERS: usize = 2;

pub const NUM_OF_BOMBS_PER_PLAYER: u8 = 3;

pub const NUM_OF_BLOCKS: u8 = 10;

/// Points for shooting a stone.
pub const NB_POINT_STONE: u8 = 1;

/// Points for each stone of the opponent that a bomb destroys.
pub const NB_POINT_ENEMY_STONE_DESTROYED: u8 = 1;

pub type PlayerIndex = u8;

pub type Position = u8;

pub type Seed = u32;

pub type Score = u8;

/// The board as contracts see it: ten rows of ten cells.
pub type Grid = Seq<Seq<Cell>>;

/// Represents a cell of the board.
#[derive(Clone, Copy, Debug, PartialEq, Eq)]
pub enum Cell {
    Empty,
    Bomb([Option<PlayerIndex>; 2]),
    Block,
    Stone(PlayerIndex),
}

impl Default for Cell {
    fn default() -> (cell: Cell)
        ensures
            cell == Cell::Empty,
    {
        Cell::Empty
    }
}

impl Cell {
    /// How many bombs lie in the cell.
    pub open spec fn bomb_count(self) -> nat {
        match self {
            Cell::Bomb(owners) => (if owners[0] is Some {
                1nat
            } else {
                0nat
            }) + (if owners[1] is Some {
                1nat
            } else {
                0nat
            }),
            _ => 0,
        }
    }

    /// Tells if a cell is suitable for dropping a bomb.
    pub fn is_bomb_droppable(&self) -> (ok: bool)
        ensures
            ok == (self is Empty || self is Bomb),
    {
        matches!(self, Cell::Empty | Cell::Bomb(_))
    }

    /// Tells if a cell must be cleared when it's affected by an explosion.
    pub fn is_explodable(&self) -> (ok: bool)
        ensures
            ok == !(self is Block),
    {
        !matches!(self, Cell::Block)
    }

    /// Tells if a cell is suitable for dropping a stone.
    pub fn is_stone_droppable(&self) -> (ok: bool)
        ensures
            ok == !(self is Block || self is Stone),
    {
        !matches!(self, Cell::Block | Cell::Stone(_))
    }
}

/// Sides of the board from which a player can drop a stone.
#[derive(Clone, Copy, Debug, PartialEq, Eq, Structural)]
pub enum Side {
    North,
    East,
    South,
    West,
}

/// Coordinates for a cell in the board.
#[derive(Clone, Copy, Debug, PartialEq, Eq, Structural)]
pub struct Coordinates {
    pub row: u8,
    pub col: u8,
}

/// One step of the linear congruential generator: the seed times the
/// multiplier, plus the increment, modulo the modulus, in exact arithmetic.
pub open spec fn lcg_step(seed: Seed) -> Seed {
    ((MULTIPLIER * seed + INCREMENT) % (MODULUS as int)) as Seed
}

/// `value` moved by `delta`, wrapping round at the ends of `u8`.
pub open spec fn shifted(value: u8, delta: int) -> u8 {
    ((value + delta) % 256) as u8
}

/// The nine coordinates that an explosion at `center` reaches, the center first.
pub open spec fn blast_area(center: Coordinates) -> Seq<Coordinates> {
    seq![
        Coordinates { row: center.row, col: center.col },
        Coordinates { row: shifted(center.row, -1), col: shifted(center.col, -1) },
        Coordinates { row: center.row, col: shifted(center.col, -1) },
        Coordinates { row: shifted(center.row, 1), col: shifted(center.col, -1) },
        Coordinates { row: shifted(center.row, 1), col: center.col },
        Coordinates { row: shifted(center.row, 1), col: shifted(center.col, 1) },
        Coordinates { row: center.row, col: shifted(center.col, 1) },
        Coordinates { row: shifted(center.row, -1), col: shifted(center.col, 1) },
        Coordinates { row: shifted(center.row, -1), col: center.col },
    ]
}

/// Whether the cell in `row` and `col` is the center of an explosion or touches it.
pub open spec fn in_blast(center: Coordinates, row: int, col: int) -> bool {
    &&& center.row - 1 <= row <= center.row + 1
    &&& center.col - 1 <= col <= center.col + 1
}

impl Coordinates {
    pub fn new(row: u8, col: u8) -> (coordinates: Coordinates)
        ensures
            coordinates == (Coordinates { row, col }),
    {
        Coordinates { row, col }
    }

    pub open spec fn inside_board(self) -> bool {
        self.row < BOARD_HEIGHT && self.col < BOARD_WIDTH
    }

    /// Tells if the coordinates name a cell of the board.
    pub fn is_inside_board(&self) -> (inside: bool)
        ensures
            inside == self.inside_board(),
    {
        self.row < BOARD_HEIGHT && self.col < BOARD_WIDTH
    }

    /// Draws coordinates from two steps of the generator, and returns the
    /// seed to go on with. Neither the last row nor the last column is drawn.
    pub fn random(seed: Seed) -> (drawn: (Coordinates, Seed))
        ensures
            drawn.1 == lcg_step(lcg_step(seed)),
            drawn.0.row == lcg_step(seed) % 9,
            drawn.0.col == lcg_step(lcg_step(seed)) % 9,
            drawn.0.inside_board(),
    {
        let random_seed_1: Seed = linear_congruential_generator(seed);
        let random_seed_2: Seed = linear_congruential_generator(random_seed_1);
        (
            Coordinates::new(
                (random_seed_1 % (BOARD_WIDTH as Seed - 1)) as u8,
                (random_seed_2 % (BOARD_HEIGHT as Seed - 1)) as u8,
            ),
            random_seed_2,
        )
    }

    /// Tells if a cell is in the opposite of a side.
    pub fn is_opposite_cell(&self, side: Side) -> (opposite: bool)
        ensures
            opposite == match side {
                Side::North => self.row == BOARD_HEIGHT - 1,
                Side::East => self.col == 0,
                Side::South => self.row == 0,
                Side::West => self.col == BOARD_WIDTH - 1,
            },
    {
        match side {
            Side::North => self.row == BOARD_HEIGHT - 1,
            Side::East => self.col == 0,
            Side::South => self.row == 0,
            Side::West => self.col == BOARD_WIDTH - 1,
        }
    }
}

fn linear_congruential_generator(seed: Seed) -> (next: Seed)
    ensures
        next == lcg_step(seed),
{
    let wide: u64 = seed as u64;
    assert(75 * wide + 74 <= u64::MAX) by (nonlinear_arith)
        requires
            wide <= u32::MAX,
    ;
    let exact: u64 = MULTIPLIER as u64 * wide + INCREMENT as u64;
    (exact % MODULUS as u64) as Seed
}

impl Side {
    /// The cell through which a stone shot in at `position` enters the board.
    pub fn bound_coordinates(&self, position: Position) -> (entry: Coordinates)
        ensures
            entry == match *self {
                Side::North => Coordinates { row: 0, col: position },
                Side::South => Coordinates { row: 9, col: position },
                Side::West => Coordinates { row: position, col: 0 },
                Side::East => Coordinates { row: position, col: 9 },
            },
    {
        match self {
            Side::North => Coordinates::new(0, position),
            Side::South => Coordinates::new(BOARD_HEIGHT - 1, position),
            Side::West => Coordinates::new(position, 0),
            Side::East => Coordinates::new(position, BOARD_WIDTH - 1),
        }
    }
}

/// A grid of ten rows of ten cells.
pub open spec fn grid_wf(grid: Grid) -> bool {
    &&& grid.len() == 10
    &&& forall|row: int| 0 <= row < 10 ==> (#[trigger] grid[row]).len() == 10
}

/// The cell of `grid` at `position`.
pub open spec fn cell_at(grid: Grid, position: Coordinates) -> Cell {
    grid[position.row as int][position.col as int]
}

/// `grid` with `cell` put at `position`.
pub open spec fn with_cell(grid: Grid, position: Coordinates, cell: Cell) -> Grid {
    grid.update(position.row as int, grid[position.row as int].update(position.col as int, cell))
}

/// `grid` after an explosion at `center`: every cell that the explosion
/// reaches is empty, but for the blocks, which stay.
pub open spec fn blasted(grid: Grid, center: Coordinates) -> Grid {
    Seq::new(
        10,
        |row: int|
            Seq::new(
                10,
                |col: int|
                    if in_blast(center, row, col) && !(grid[row][col] is Block) {
                        Cell::Empty
                    } else {
                        grid[row][col]
                    },
            ),
    )
}

#[derive(Clone, Copy, Debug, PartialEq, Eq)]
pub struct Board {
    pub cells: [[Cell; 10]; 10],
}

impl View for Board {
    type V = Grid;

    open spec fn view(&self) -> Grid {
        Seq::new(10, |row: int| self.cells@[row]@)
    }
}

impl Default for Board {
    fn default() -> (board: Board)
        ensures
            board@ == empty_grid(),
    {
        Board::new()
    }
}

/// The grid without blocks, stones or bombs.
pub open spec fn empty_grid() -> Grid {
    Seq::new(10, |row: int| Seq::new(10, |col: int| Cell::Empty))
}

impl Board {
    pub fn new() -> (board: Board)
        ensures
            board@ == empty_grid(),
    {
        let board = Board { cells: [[Cell::Empty; 10]; 10] };
        proof {
            assert forall|row: int| 0 <= row < 10 implies #[trigger] board@[row] == empty_grid()[row] by {
                assert(board@[row] =~= empty_grid()[row]);
            }
        }
        board
    }

    pub fn is_bomb_droppable(&self, position: &Coordinates) -> (ok: bool)
        ensures
            ok == (position.inside_board() && (cell_at(self@, *position) is Empty || cell_at(
                self@,
                *position,
            ) is Bomb)),
    {
        position.is_inside_board() && self.get_cell(position).is_bomb_droppable()
    }

    pub fn is_explodable(&self, position: &Coordinates) -> (ok: bool)
        ensures
            ok == (position.inside_board() && !(cell_at(self@, *position) is Block)),
    {
        position.is_inside_board() && self.get_cell(position).is_explodable()
    }

    pub fn is_stone_droppable(&self, position: &Coordinates) -> (ok: bool)
        ensures
            ok == (position.inside_board() && !(cell_at(self@, *position) is Block || cell_at(
                self@,
                *position,
            ) is Stone)),
    {
        position.is_inside_board() && self.get_cell(position).is_stone_droppable()
    }

    /// If the given cell position is a stone, return owner player index
    pub fn player_index_stone(&self, position: &Coordinates) -> (owner: Option<PlayerIndex>)
        ensures
            owner == stone_owner(self@, *position),
    {
        if !position.is_inside_board() {
            return None;
        }
        if let Cell::Stone(p) = self.get_cell(position) {
            Some(p)
        } else {
            None
        }
    }

    pub fn get_cell(&self, position: &Coordinates) -> (cell: Cell)
        requires
            position.inside_board(),
        ensures
            cell == cell_at(self@, *position),
    {
        self.cells[position.row as usize][position.col as usize]
    }

    pub fn update_cell(&mut self, position: Coordinates, cell: Cell)
        requires
            position.inside_board(),
        ensures
            final(self)@ == with_cell(old(self)@, position, cell),
    {
        self.cells[position.row as usize][position.col as usize] = cell;
    }

    /// Return coordinates affected by a potential explosion
    pub fn explodable_coordinate(&self, position: &Coordinates) -> (area: Vec<Coordinates>)
        ensures
            area@ == blast_area(*position),
    {
        let up: u8 = position.row.wrapping_sub(1);
        let down: u8 = position.row.wrapping_add(1);
        let left: u8 = position.col.wrapping_sub(1);
        let right: u8 = position.col.wrapping_add(1);
        let area = vec![
            Coordinates::new(position.row, position.col),
            Coordinates::new(up, left),
            Coordinates::new(position.row, left),
            Coordinates::new(down, left),
            Coordinates::new(down, position.col),
            Coordinates::new(down, right),
            Coordinates::new(position.row, right),
            Coordinates::new(up, right),
            Coordinates::new(up, position.col),
        ];
        area
    }

    /// Counts the stones that an explosion at `position` reaches and that do
    /// not belong to the player with index `me`.
    pub fn count_opponent_stones(&self, position: Coordinates, me: PlayerIndex) -> (count: u8)
        ensures
            count == adjacent_opponent_stones(self@, position, me),
            count <= 9,
    {
        let area = self.explodable_coordinate(&position);
        let mut count: u8 = 0;
        let mut i: usize = 0;
        while i < area.len()
            invariant
                i <= 9,
                area@ == blast_area(position),
                count == opponent_stones(self@, area@, me, i as int),
                count <= i,
            decreases area.len() - i,
        {
            match self.player_index_stone(&area[i]) {
                Some(owner) => {
                    if owner != me {
                        count += 1;
                    }
                },
                None => {},
            }
            i += 1;
        }
        count
    }

    /// Clears what an explosion at `bomb_position` reaches. Blocks stay.
    pub fn explode_bomb(&mut self, bomb_position: Coordinates)
        requires
            bomb_position.inside_board(),
        ensures
            final(self)@ == blasted(old(self)@, bomb_position),
    {
        let area = self.explodable_coordinate(&bomb_position);
        let ghost before = self@;
        let mut i: usize = 0;
        while i < area.len()
            invariant
                i <= 9,
                area@ == blast_area(bomb_position),
                bomb_position.inside_board(),
                grid_wf(self@),
                forall|row: int, col: int|
                    0 <= row < 10 && 0 <= col < 10 ==> #[trigger] self@[row][col] == (if reached(
                        area@,
                        i as int,
                        row,
                        col,
                    ) && !(before[row][col] is Block) {
                        Cell::Empty
                    } else {
                        before[row][col]
                    }),
            decreases area.len() - i,
        {
            let position = area[i];
            if self.is_explodable(&position) {
                self.update_cell(position, Cell::Empty)
            }
            i += 1;
        }
        proof {
            let expected = blasted(before, bomb_position);
            assert forall|row: int| 0 <= row < 10 implies #[trigger] self@[row] == expected[row] by {
                assert(self@[row] =~= expected[row]);
            }
        }
    }
}

/// The owner of the stone at `position`, where there is one.
pub open spec fn stone_owner(grid: Grid, position: Coordinates) -> Option<PlayerIndex> {
    if position.inside_board() {
        match cell_at(grid, position) {
            Cell::Stone(owner) => Some(owner),
            _ => None,
        }
    } else {
        None
    }
}

/// The stones among the first `n` cells of `area` that do not belong to `me`.
pub open spec fn opponent_stones(grid: Grid, area: Seq<Coordinates>, me: PlayerIndex, n: int) -> nat
    decreases n,
{
    if n <= 0 {
        0
    } else {
        opponent_stones(grid, area, me, n - 1) + (match stone_owner(grid, area[n - 1]) {
            Some(owner) => if owner != me {
                1nat
            } else {
                0nat
            },
            None => 0nat,
        })
    }
}

/// The stones that an explosion at `center` reaches and that do not belong to `me`.
pub open spec fn adjacent_opponent_stones(grid: Grid, center: Coordinates, me: PlayerIndex) -> nat {
    opponent_stones(grid, blast_area(center), me, 9)
}

/// Whether one of the first `n` coordinates of `area` is the cell in `row` and `col`.
pub open spec fn reached(area: Seq<Coordinates>, n: int, row: int, col: int) -> bool {
    exists|k: int| 0 <= k < n && k < area.len() && (#[trigger] area[k]).row == row && area[k].col == col
}

/// On the board, the blast area of a cell of the board is the cell and its neighbours.
pub proof fn lemma_reached_all(center: Coordinates, row: int, col: int)
    requires
        center.inside_board(),
        0 <= row < 10,
        0 <= col < 10,
    ensures
        reached(blast_area(center), 9, row, col) == in_blast(center, row, col),
{
    let area = blast_area(center);
    if in_blast(center, row, col) {
        let dr = row - center.row;
        let dc = col - center.col;
        let k: int = if dr == 0 && dc == 0 {
            0
        } else if dr == -1 && dc == -1 {
            1
        } else if dr == 0 && dc == -1 {
            2
        } else if dr == 1 && dc == -1 {
            3
        } else if dr == 1 && dc == 0 {
            4
        } else if dr == 1 && dc == 1 {
            5
        } else if dr == 0 && dc == 1 {
            6
        } else if dr == -1 && dc == 1 {
            7
        } else {
            8
        };
        assert(area[k].row == row && area[k].col == col);
    }
}

} // verus!
