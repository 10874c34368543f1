//! One generation of the game: from a board, the board that follows it.

use vstd::prelude::*;
use crate::board::{lemma_offset_in_range, Board, Grid};
use crate::cell::Cell;

verus! {

/// The number of living cells among the eight neighbours of `(x, y)`.
/// Neighbours off the grid are dead.
pub open spec fn live_neighbours(grid: Grid, x: int, y: int) -> int {
    grid.at(x - 1, y - 1).population() + grid.at(x - 1, y).population()
        + grid.at(x - 1, y + 1).population() + grid.at(x, y - 1).population()
        + grid.at(x, y + 1).population() + grid.at(x + 1, y - 1).population()
        + grid.at(x + 1, y).population() + grid.at(x + 1, y + 1).population()
}

/// The state of `(x, y)` in the generation that follows `grid`.
pub open spec fn next_cell(grid: Grid, x: int, y: int) -> Cell {
    grid.at(x, y).successor(live_neighbours(grid, x, y))
}

/// The generation that follows `grid`: the same rectangle, each cell decided
/// by the rule from the cell and its neighbours in `grid`.
pub open spec fn next_generation(grid: Grid) -> Grid {
    Grid {
        width: grid.width,
        height: grid.height,
        cells: Seq::new(
            grid.cells.len(),
            |i: int| next_cell(grid, i % grid.width, i / grid.width),
        ),
    }
}

/// The following generation has the shape of the grid it comes from.
pub proof fn lemma_next_generation_keeps_shape(grid: Grid)
    requires
        grid.wf(),
    ensures
        next_generation(grid).wf(),
        next_generation(grid).width == grid.width,
        next_generation(grid).height == grid.height,
        next_generation(grid).cells.len() == grid.cells.len(),
{
}

/// On the grid, the following generation holds at each position what the
/// rule makes of that position and its neighbours; off the grid it is dead.
pub proof fn lemma_next_generation_at(grid: Grid, x: int, y: int)
    requires
        grid.wf(),
    ensures
        grid.contains(x, y) ==> next_generation(grid).at(x, y) == next_cell(grid, x, y),
        !grid.contains(x, y) ==> next_generation(grid).at(x, y) == Cell::Dead,
{
    if grid.contains(x, y) {
        lemma_offset_in_range(grid, x, y);
    }
}

/// A grid without a living cell is followed by itself.
pub proof fn lemma_dead_grid_stays_dead(width: int, height: int)
    requires
        0 < width,
        0 < height,
    ensures
        next_generation(Grid::dead(width, height)) == Grid::dead(width, height),
{
    let grid = Grid::dead(width, height);
    assert(0 < width * height) by (nonlinear_arith)
        requires
            0 < width,
            0 < height,
    ;
    assert forall|x: int, y: int| grid.at(x, y) == Cell::Dead by {
        if grid.contains(x, y) {
            lemma_offset_in_range(grid, x, y);
        }
    }
    assert(next_generation(grid).cells =~= grid.cells);
}

/// The living cells among the first `k` positions of the three-by-three
/// block around `(x, y)`, walked column by column and skipping the centre.
spec fn scanned(grid: Grid, x: int, y: int, k: int) -> int
    decreases k,
{
    if k <= 0 {
        0
    } else if k - 1 == 4 {
        scanned(grid, x, y, k - 1)
    } else {
        scanned(grid, x, y, k - 1) + grid.at(x - 1 + (k - 1) / 3, y - 1 + (k - 1) % 3).population()
    }
}

/// Walking the whole block counts exactly the eight neighbours.
proof fn lemma_scanned_all(grid: Grid, x: int, y: int)
    ensures
        scanned(grid, x, y, 9) == live_neighbours(grid, x, y),
{
    reveal_with_fuel(scanned, 10);
}

/// Counts the living neighbours of `(x, y)` on `board`.
pub fn count_neighbours(board: &Board, x: isize, y: isize) -> (count: u8)
    requires
        isize::MIN < x < isize::MAX,
        isize::MIN < y < isize::MAX,
    ensures
        count == live_neighbours(board@, x as int, y as int),
        count <= 8,
    no_unwind
{
    let mut count: u8 = 0;
    let mut column: isize = 0;
    while column < 3
        invariant
            isize::MIN < x < isize::MAX,
            isize::MIN < y < isize::MAX,
            0 <= column <= 3,
            count == scanned(board@, x as int, y as int, 3 * column),
            count <= 3 * column,
        decreases 3 - column,
    {
        let px: isize = x - 1 + column;
        let mut row: isize = 0;
        while row < 3
            invariant
                isize::MIN < x < isize::MAX,
                isize::MIN < y < isize::MAX,
                0 <= column < 3,
                0 <= row <= 3,
                px == x - 1 + column,
                count == scanned(board@, x as int, y as int, 3 * column + row),
                count <= 3 * column + row,
            decreases 3 - row,
        {
            let py: isize = y - 1 + row;
            if !(px == x && py == y) {
                if board.at(px, py).is_alive() {
                    count = count + 1;
                }
            }
            row = row + 1;
        }
        column = column + 1;
    }
    proof {
        lemma_scanned_all(board@, x as int, y as int);
    }
    count
}

/// Computes the generation that follows `board` and writes it over `output`.
/// `board` is only read; nothing of what `output` held before is kept.
pub fn update(board: &Board, output: &mut Board)
    requires
        board@.width == old(output)@.width,
        board@.height == old(output)@.height,
    ensures
        final(output)@ == next_generation(board@),
        final(output)@.wf(),
        forall|x: int, y: int|
            board@.contains(x, y) ==> #[trigger] final(output)@.at(x, y) == next_cell(board@, x, y),
    no_unwind
{
    let width = board.width();
    let height = board.height();
    proof {
        use_type_invariant(&*output);
    }
    let ghost next = next_generation(board@);
    let mut y: isize = 0;
    while y < height
        invariant
            0 <= y <= height,
            width == board@.width,
            height == board@.height,
            board@.wf(),
            output@.wf(),
            output@.width == width,
            output@.height == height,
            next == next_generation(board@),
            forall|i: int| 0 <= i < y * width ==> output@.cells[i] == next.cells[i],
        decreases height - y,
    {
        let mut x: isize = 0;
        while x < width
            invariant
                0 <= y < height,
                0 <= x <= width,
                width == board@.width,
                height == board@.height,
                board@.wf(),
                output@.wf(),
                output@.width == width,
                output@.height == height,
                next == next_generation(board@),
                forall|i: int| 0 <= i < y * width + x ==> output@.cells[i] == next.cells[i],
            decreases width - x,
        {
            let neighbours = count_neighbours(board, x, y);
            let value = board.at(x, y).next(neighbours);
            proof {
                lemma_offset_in_range(board@, x as int, y as int);
            }
            output.set(x as usize, y as usize, value);
            x = x + 1;
        }
        proof {
            assert((y + 1) * width == y * width + width) by (nonlinear_arith);
        }
        y = y + 1;
    }
    proof {
        assert(height * width == width * height) by (nonlinear_arith);
        assert(output@.cells =~= next.cells);
        assert forall|x: int, y: int| board@.contains(x, y) implies #[trigger] next.at(x, y)
            == next_cell(board@, x, y) by {
            lemma_next_generation_at(board@, x, y);
        }
    }
}

/// The failure of [`try_update`]: the two boards differ in width or height.
#[derive(Debug, Clone, Copy, PartialEq, Eq, Structural)]
pub struct SizeMismatch;

impl SizeMismatch {
    /// The text that describes the failure.
    pub fn message(&self) -> (text: String)
        ensures
            text@ == "Input and output board sizes are not the same!"@,
    {
        "Input and output board sizes are not the same!".to_owned()
    }
}

/// Computes the generation that follows `board` into `output` where the two
/// boards have the same size, and refuses, leaving `output` as it was, where
/// they have not.
pub fn try_update(board: &Board, output: &mut Board) -> (result: Result<(), SizeMismatch>)
    ensures
        result is Ok <==> (board@.width == old(output)@.width && board@.height == old(
            output,
        )@.height),
        result is Ok ==> final(output)@ == next_generation(board@),
        result is Err ==> final(output)@ == old(output)@,
        final(output)@.wf(),
{
    if board.width() != output.width() || board.height() != output.height() {
        return Err(SizeMismatch);
    }
    update(board, output);
    Ok(())
}

} // verus!
