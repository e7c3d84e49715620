//! The blocks that a new board starts with.

use vstd::prelude::*;
use crate::dot4gravity::board::{
    Board, Cell, Coordinates, Grid, Seed, INITIAL_SEED, NUM_OF_BLOCKS, cell_at, empty_grid, lcg_step, with_cell,
};

verus! {

/// How far the placing of the blocks has come.
pub struct Placement {
    /// The board so far.
    pub grid: Grid,
    /// The seed for the next draw.
    pub seed: Seed,
    /// The blocks on the board.
    pub placed: nat,
}

/// The empty board, before the first draw.
pub open spec fn placement_start(seed: Seed) -> Placement {
    Placement { grid: empty_grid(), seed, placed: 0 }
}

/// The coordinates that the next draw names.
pub open spec fn drawn_coordinates(seed: Seed) -> Coordinates {
    Coordinates { row: (lcg_step(seed) % 9) as u8, col: (lcg_step(lcg_step(seed)) % 9) as u8 }
}

/// One draw: a block is put where the draw says, unless one lies there already.
pub open spec fn draw_block(before: Placement) -> Placement {
    let at = drawn_coordinates(before.seed);
    let seed = lcg_step(lcg_step(before.seed));
    if cell_at(before.grid, at) is Block {
        Placement { seed, ..before }
    } else {
        Placement { grid: with_cell(before.grid, at, Cell::Block), seed, placed: before.placed + 1 }
    }
}

/// The placement after `draws` draws. No draw is made once all blocks lie on the board.
pub open spec fn placement_after(seed: Seed, draws: nat) -> Placement
    decreases draws,
{
    if draws == 0 {
        placement_start(seed)
    } else {
        let before = placement_after(seed, (draws - 1) as nat);
        if before.placed >= NUM_OF_BLOCKS {
            before
        } else {
            draw_block(before)
        }
    }
}

/// Whether `draws` draws from `seed` are enough to place all blocks.
pub open spec fn placement_completes(seed: Seed, draws: nat) -> bool {
    placement_after(seed, draws).placed == NUM_OF_BLOCKS
}

/// Whether the draws from `seed` ever name as many cells as there are
/// blocks. They do not where the generator runs into a short cycle.
pub open spec fn placement_ends(seed: Seed) -> bool {
    exists|draws: nat| placement_completes(seed, draws)
}

/// The placement from `seed` with all blocks on the board.
pub open spec fn placement_done(seed: Seed) -> Placement {
    placement_after(seed, choose|draws: nat| placement_completes(seed, draws))
}

/// Once all blocks lie on the board, further draws change nothing.
pub proof fn lemma_placement_settles(seed: Seed, enough: nat, draws: nat)
    requires
        placement_completes(seed, enough),
        enough <= draws,
    ensures
        placement_after(seed, draws) == placement_after(seed, enough),
    decreases draws,
{
    if enough < draws {
        lemma_placement_settles(seed, enough, (draws - 1) as nat);
    }
}

/// Whatever number of draws completes the placement, the outcome is the same.
pub proof fn lemma_placement_done(seed: Seed, draws: nat)
    requires
        placement_completes(seed, draws),
    ensures
        placement_after(seed, draws) == placement_done(seed),
{
    let chosen = choose|d: nat| placement_completes(seed, d);
    if chosen <= draws {
        lemma_placement_settles(seed, chosen, draws);
    } else {
        lemma_placement_settles(seed, draws, chosen);
    }
}

/// From the initial seed ten draws name ten cells: a game that starts from
/// it has its blocks after ten draws.
pub proof fn lemma_initial_seed_ends()
    ensures
        placement_completes(INITIAL_SEED, 10),
        placement_ends(INITIAL_SEED),
        placement_done(INITIAL_SEED).seed == 46384,
{
    let start = placement_start(INITIAL_SEED);
    assert(placement_after(INITIAL_SEED, 0) == start);
    assert(lcg_step(123456) == 18698 && lcg_step(18698) == 26168);
    let step_1 = placement_after(INITIAL_SEED, 1);
    assert(step_1 == draw_block(start));
    assert(step_1.seed == 26168 && step_1.placed == 1);
    assert(lcg_step(26168) == 62130 && lcg_step(62130) == 6768);
    let step_2 = placement_after(INITIAL_SEED, 2);
    assert(step_2 == draw_block(step_1));
    assert(step_2.seed == 6768 && step_2.placed == 2);
    assert(lcg_step(6768) == 48922 && lcg_step(48922) == 64744);
    let step_3 = placement_after(INITIAL_SEED, 3);
    assert(step_3 == draw_block(step_2));
    assert(step_3.seed == 64744 && step_3.placed == 3);
    assert(lcg_step(64744) == 6210 && lcg_step(6210) == 7072);
    let step_4 = placement_after(INITIAL_SEED, 4);
    assert(step_4 == draw_block(step_3));
    assert(step_4.seed == 7072 && step_4.placed == 4);
    assert(lcg_step(7072) == 6186 && lcg_step(6186) == 5272);
    let step_5 = placement_after(INITIAL_SEED, 5);
    assert(step_5 == draw_block(step_4));
    assert(step_5.seed == 5272 && step_5.placed == 5);
    assert(lcg_step(5272) == 2258 && lcg_step(2258) == 38352);
    let step_6 = placement_after(INITIAL_SEED, 6);
    assert(step_6 == draw_block(step_5));
    assert(step_6.seed == 38352 && step_6.placed == 6);
    assert(lcg_step(38352) == 58426 && lcg_step(58426) == 56648);
    let step_7 = placement_after(INITIAL_SEED, 7);
    assert(step_7 == draw_block(step_6));
    assert(step_7.seed == 56648 && step_7.placed == 7);
    assert(lcg_step(56648) == 54370 && lcg_step(54370) == 14592);
    let step_8 = placement_after(INITIAL_SEED, 8);
    assert(step_8 == draw_block(step_7));
    assert(step_8.seed == 14592 && step_8.placed == 8);
    assert(lcg_step(14592) == 45898 && lcg_step(45898) == 34552);
    let step_9 = placement_after(INITIAL_SEED, 9);
    assert(step_9 == draw_block(step_8));
    assert(step_9.seed == 34552 && step_9.placed == 9);
    assert(lcg_step(34552) == 35570 && lcg_step(35570) == 46384);
    let step_10 = placement_after(INITIAL_SEED, 10);
    assert(step_10 == draw_block(step_9));
    assert(step_10.seed == 46384 && step_10.placed == 10);
    lemma_placement_done(INITIAL_SEED, 10);
}

/// From the seed 7357 the draws name ten cells.
#[verifier::rlimit(60)]
pub proof fn lemma_seed_7357_ends()
    ensures
        placement_completes(7357, 10),
        placement_ends(7357),
        placement_done(7357).seed == 8925,
{
    let start = placement_start(7357);
    assert(placement_after(7357, 0) == start);
    assert(lcg_step(7357) == 27561 && lcg_step(27561) == 35533);
    let step_1 = placement_after(7357, 1);
    assert(step_1 == draw_block(start));
    assert(step_1.seed == 35533 && step_1.placed == 1);
    assert(lcg_step(35533) == 43609 && lcg_step(43609) == 59485);
    let step_2 = placement_after(7357, 2);
    assert(step_2 == draw_block(step_1));
    assert(step_2.seed == 59485 && step_2.placed == 2);
    assert(lcg_step(59485) == 5001 && lcg_step(5001) == 47469);
    let step_3 = placement_after(7357, 3);
    assert(step_3 == draw_block(step_2));
    assert(step_3.seed == 47469 && step_3.placed == 3);
    assert(lcg_step(47469) == 21305 && lcg_step(21305) == 25085);
    let step_4 = placement_after(7357, 4);
    assert(step_4 == draw_block(step_3));
    assert(step_4.seed == 25085 && step_4.placed == 4);
    assert(lcg_step(25085) == 46441 && lcg_step(46441) == 9741);
    let step_5 = placement_after(7357, 5);
    assert(step_5 == draw_block(step_4));
    assert(step_5.seed == 9741 && step_5.placed == 5);
    assert(lcg_step(9741) == 9753 && lcg_step(9753) == 10653);
    let step_6 = placement_after(7357, 6);
    assert(step_6 == draw_block(step_5));
    assert(step_6.seed == 10653 && step_6.placed == 6);
    assert(lcg_step(10653) == 12617 && lcg_step(12617) == 28845);
    let step_7 = placement_after(7357, 7);
    assert(step_7 == draw_block(step_6));
    assert(step_7.seed == 28845 && step_7.placed == 7);
    assert(lcg_step(28845) == 761 && lcg_step(761) == 57149);
    let step_8 = placement_after(7357, 8);
    assert(step_8 == draw_block(step_7));
    assert(step_8.seed == 57149 && step_8.placed == 8);
    assert(lcg_step(57149) == 26409 && lcg_step(26409) == 14669);
    let step_9 = placement_after(7357, 9);
    assert(step_9 == draw_block(step_8));
    assert(step_9.seed == 14669 && step_9.placed == 9);
    assert(lcg_step(14669) == 51673 && lcg_step(51673) == 8925);
    let step_10 = placement_after(7357, 10);
    assert(step_10 == draw_block(step_9));
    assert(step_10.seed == 8925 && step_10.placed == 10);
    assert(placement_completes(7357, 10));
    lemma_placement_done(7357, 10);
}

/// A seed beyond the modulus counts by its remainder: from the seed
/// 60,000,000 the draws name ten cells.
#[verifier::rlimit(60)]
pub proof fn lemma_seed_60_000_000_ends()
    ensures
        placement_completes(60000000, 10),
        placement_ends(60000000),
        placement_done(60000000).seed == 19952,
{
    let start = placement_start(60000000);
    assert(placement_after(60000000, 0) == start);
    assert(lcg_step(60000000) == 36170 && lcg_step(36170) == 25848);
    let step_1 = placement_after(60000000, 1);
    assert(step_1 == draw_block(start));
    assert(step_1.seed == 25848 && step_1.placed == 1);
    assert(lcg_step(25848) == 38130 && lcg_step(38130) == 41776);
    let step_2 = placement_after(60000000, 2);
    assert(step_2 == draw_block(step_1));
    assert(step_2.seed == 41776 && step_2.placed == 2);
    assert(lcg_step(41776) == 53082 && lcg_step(53082) == 49064);
    let step_3 = placement_after(60000000, 3);
    assert(step_3 == draw_block(step_2));
    assert(step_3.seed == 49064 && step_3.placed == 3);
    assert(lcg_step(49064) == 9858 && lcg_step(9858) == 18528);
    let step_4 = placement_after(60000000, 4);
    assert(step_4 == draw_block(step_3));
    assert(step_4.seed == 18528 && step_4.placed == 4);
    assert(lcg_step(18528) == 13418 && lcg_step(13418) == 23384);
    let step_5 = placement_after(60000000, 5);
    assert(step_5 == draw_block(step_4));
    assert(step_5.seed == 23384 && step_5.placed == 5);
    assert(lcg_step(23384) == 49938 && lcg_step(49938) == 9872);
    let step_6 = placement_after(60000000, 6);
    assert(step_6 == draw_block(step_5));
    assert(step_6.seed == 9872 && step_6.placed == 6);
    assert(lcg_step(9872) == 19578 && lcg_step(19578) == 26632);
    let step_7 = placement_after(60000000, 7);
    assert(step_7 == draw_block(step_6));
    assert(step_7.seed == 26632 && step_7.placed == 7);
    assert(lcg_step(26632) == 31394 && lcg_step(31394) == 60864);
    let step_8 = placement_after(60000000, 8);
    assert(step_8 == draw_block(step_7));
    assert(step_8.seed == 60864 && step_8.placed == 8);
    assert(lcg_step(60864) == 42890 && lcg_step(42890) == 5560);
    let step_9 = placement_after(60000000, 9);
    assert(step_9 == draw_block(step_8));
    assert(step_9.seed == 5560 && step_9.placed == 9);
    assert(lcg_step(5560) == 23858 && lcg_step(23858) == 19952);
    let step_10 = placement_after(60000000, 10);
    assert(step_10 == draw_block(step_9));
    assert(step_10.seed == 19952 && step_10.placed == 10);
    assert(placement_completes(60000000, 10));
    lemma_placement_done(60000000, 10);
}

/// Makes one draw: puts a block on the board where none lies yet.
/// Returns the seed to go on with, and whether a block was put.
pub fn place_block(board: &mut Board, seed: Seed) -> (drawn: (Seed, bool))
    ensures
        drawn.0 == lcg_step(lcg_step(seed)),
        drawn.1 == !(cell_at(old(board)@, drawn_coordinates(seed)) is Block),
        final(board)@ == (if drawn.1 {
            with_cell(old(board)@, drawn_coordinates(seed), Cell::Block)
        } else {
            old(board)@
        }),
{
    let (block_coordinates, new_seed) = Coordinates::random(seed);
    let fresh = !matches!(board.get_cell(&block_coordinates), Cell::Block);
    if fresh {
        board.update_cell(block_coordinates, Cell::Block);
    }
    (new_seed, fresh)
}

/// Places all blocks on an empty board, drawing from `seed` until enough
/// different cells have come up.
pub fn place_blocks(seed: Seed) -> (placed: (Board, Seed))
    requires
        placement_ends(seed),
    ensures
        placed.0@ == placement_done(seed).grid,
        placed.1 == placement_done(seed).seed,
{
    let start = seed;
    let mut seed = seed;
    let mut board = Board::new();
    let mut remaining_blocks: u8 = NUM_OF_BLOCKS;
    let ghost enough: nat = choose|draws: nat| placement_completes(start, draws);
    let ghost mut draws: nat = 0;
    while remaining_blocks > 0
        invariant
            remaining_blocks <= NUM_OF_BLOCKS,
            placement_completes(start, enough),
            draws <= enough,
            placement_after(start, draws) == (Placement {
                grid: board@,
                seed,
                placed: (NUM_OF_BLOCKS - remaining_blocks) as nat,
            }),
        decreases enough - draws,
    {
        let (new_seed, fresh) = place_block(&mut board, seed);
        seed = new_seed;
        if fresh {
            remaining_blocks -= 1;
        }
        proof {
            draws = draws + 1;
        }
    }
    proof {
        lemma_placement_done(start, draws);
    }
    (board, seed)
}

/// Places all blocks on an empty board, as long as `max_draws` draws from
/// `seed` are enough for it.
pub fn place_blocks_within(seed: Seed, max_draws: u32) -> (placed: Option<(Board, Seed)>)
    ensures
        match placed {
            Some((board, last)) => placement_completes(seed, max_draws as nat) && board@ == placement_done(
                seed,
            ).grid && last == placement_done(seed).seed,
            None => !placement_completes(seed, max_draws as nat),
        },
{
    let start = seed;
    let mut seed = seed;
    let mut board = Board::new();
    let mut remaining_blocks: u8 = NUM_OF_BLOCKS;
    let mut draws: u32 = 0;
    while remaining_blocks > 0 && draws < max_draws
        invariant
            remaining_blocks <= NUM_OF_BLOCKS,
            draws <= max_draws,
            placement_after(start, draws as nat) == (Placement {
                grid: board@,
                seed,
                placed: (NUM_OF_BLOCKS - remaining_blocks) as nat,
            }),
        decreases max_draws - draws,
    {
        let (new_seed, fresh) = place_block(&mut board, seed);
        seed = new_seed;
        if fresh {
            remaining_blocks -= 1;
        }
        draws += 1;
    }
    if remaining_blocks == 0 {
        proof {
            lemma_placement_settles(start, draws as nat, max_draws as nat);
            lemma_placement_done(start, draws as nat);
        }
        Some((board, seed))
    } else {
        None
    }
}

} // verus!
