//! Seeding a board: each cell alive or dead by a coin flip.

use rand::Rng;
use vstd::prelude::*;
use crate::board::{lemma_offset_in_range, Board, Grid};
use crate::cell::Cell;

verus! {

/// A cell of a freshly seeded board is alive with the probability
/// `SEED_NUMERATOR / SEED_DENOMINATOR`, one in five.
pub const SEED_NUMERATOR: u32 = 1;

pub const SEED_DENOMINATOR: u32 = 5;

/// The grid of the shape of `grid` whose cells, in row-major order, are what
/// the flips stand for: alive on `true`, dead on `false`.
pub open spec fn seeded(grid: Grid, flips: Seq<bool>) -> Grid {
    Grid {
        width: grid.width,
        height: grid.height,
        cells: Seq::new(grid.cells.len(), |i: int| Cell::of_flip(flips[i])),
    }
}

/// The grid of the given dimensions with every cell alive.
pub open spec fn crowded(width: int, height: int) -> Grid {
    Grid { width, height, cells: Seq::new((width * height) as nat, |i: int| Cell::Alive) }
}

/// One draw of `rand::Rng::gen_ratio` on `rand::thread_rng()`, the generator
/// of the current thread: `true` with the probability
/// `numerator / denominator`. The call panics on a zero denominator and on a
/// numerator above the denominator, so both are excluded. Nothing is claimed
/// of the outcome but what the documentation of `gen_ratio` guarantees: it
/// is `true` where the two numbers are equal and `false` where the numerator
/// is zero. The generator is seeded from the operating system when a thread
/// first uses it; that this succeeds is taken for granted.
#[verifier::external_body]
fn flip(numerator: u32, denominator: u32) -> (alive: bool)
    requires
        0 < denominator,
        numerator <= denominator,
    ensures
        numerator == denominator ==> alive,
        numerator == 0 ==> !alive,
{
    rand::thread_rng().gen_ratio(numerator, denominator)
}

/// Draws `count` coin flips, each `true` with the probability
/// `numerator / denominator`.
pub fn draw_flips(count: usize, numerator: u32, denominator: u32) -> (flips: Vec<bool>)
    requires
        0 < denominator,
        numerator <= denominator,
    ensures
        flips.len() == count,
        numerator == 0 ==> forall|i: int| 0 <= i < count ==> !flips[i],
        numerator == denominator ==> forall|i: int| 0 <= i < count ==> flips[i],
{
    let mut flips: Vec<bool> = Vec::new();
    while flips.len() < count
        invariant
            0 < denominator,
            numerator <= denominator,
            flips.len() <= count,
            numerator == 0 ==> forall|i: int| 0 <= i < flips.len() ==> !flips[i],
            numerator == denominator ==> forall|i: int| 0 <= i < flips.len() ==> flips[i],
        decreases count - flips.len(),
    {
        let alive = flip(numerator, denominator);
        flips.push(alive);
    }
    flips
}

/// Overwrites every cell of `board` from the given flips, one flip for each
/// cell in row-major order.
pub fn seed_from(board: &mut Board, flips: &Vec<bool>)
    requires
        flips.len() == old(board)@.cells.len(),
    ensures
        final(board)@ == seeded(old(board)@, flips@),
        final(board)@.wf(),
{
    proof {
        use_type_invariant(&*board);
    }
    let width = board.width();
    let height = board.height();
    let ghost target = seeded(board@, flips@);
    let mut y: isize = 0;
    while y < height
        invariant
            0 <= y <= height,
            board@.wf(),
            board@.width == width,
            board@.height == height,
            board@.cells.len() == flips.len(),
            board@.cells.len() <= isize::MAX,
            target == seeded(board@, flips@),
            forall|i: int| 0 <= i < y * width ==> board@.cells[i] == target.cells[i],
        decreases height - y,
    {
        let mut x: isize = 0;
        while x < width
            invariant
                0 <= y < height,
                0 <= x <= width,
                board@.wf(),
                board@.width == width,
                board@.height == height,
                board@.cells.len() == flips.len(),
                board@.cells.len() <= isize::MAX,
                target == seeded(board@, flips@),
                forall|i: int| 0 <= i < y * width + x ==> board@.cells[i] == target.cells[i],
            decreases width - x,
        {
            proof {
                lemma_offset_in_range(board@, x as int, y as int);
            }
            let alive = flips[(y * width + x) as usize];
            board.set(x as usize, y as usize, Cell::from_flip(alive));
            x = x + 1;
        }
        proof {
            assert((y + 1) * width == y * width + width) by (nonlinear_arith);
        }
        y = y + 1;
    }
    proof {
        assert(height * width == width * height) by (nonlinear_arith);
        assert(board@.cells =~= target.cells);
    }
}

/// Seeds `board` at random: every cell is drawn anew, alive with the
/// probability `numerator / denominator`, whatever it held before.
pub fn seed_with(board: &mut Board, numerator: u32, denominator: u32)
    requires
        0 < denominator,
        numerator <= denominator,
    ensures
        final(board)@.wf(),
        final(board)@.width == old(board)@.width,
        final(board)@.height == old(board)@.height,
        numerator == 0 ==> final(board)@ == Grid::dead(old(board)@.width, old(board)@.height),
        numerator == denominator ==> final(board)@ == crowded(
            old(board)@.width,
            old(board)@.height,
        ),
{
    proof {
        use_type_invariant(&*board);
    }
    let count = (board.width() * board.height()) as usize;
    let flips = draw_flips(count, numerator, denominator);
    seed_from(board, &flips);
    proof {
        let shape = old(board)@;
        if numerator == 0 {
            assert(board@.cells =~= Grid::dead(shape.width, shape.height).cells);
        }
        if numerator == denominator {
            assert(board@.cells =~= crowded(shape.width, shape.height).cells);
        }
    }
}

/// Seeds `board` at random with the usual density: every cell alive with
/// the probability of one in five.
pub fn seed(board: &mut Board)
    ensures
        final(board)@.wf(),
        final(board)@.width == old(board)@.width,
        final(board)@.height == old(board)@.height,
{
    seed_with(board, SEED_NUMERATOR, SEED_DENOMINATOR);
}

} // verus!
