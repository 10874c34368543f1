//! The grid of cells: a fixed rectangle, stored row by row, with a dead border.

use vstd::prelude::*;
use crate::cell::Cell;

verus! {

/// The mathematical model of a board: its dimensions and its cells in
/// row-major order.
pub struct Grid {
    pub width: int,
    pub height: int,
    pub cells: Seq<Cell>,
}

impl Grid {
    /// A grid is well formed when both dimensions are positive and it holds
    /// exactly one cell for each position.
    pub open spec fn wf(self) -> bool {
        &&& 0 < self.width
        &&& 0 < self.height
        &&& self.cells.len() == self.width * self.height
    }

    /// Whether the position `(x, y)` lies on the grid.
    pub open spec fn contains(self, x: int, y: int) -> bool {
        0 <= x < self.width && 0 <= y < self.height
    }

    /// The place of position `(x, y)` in the row-major sequence of cells.
    pub open spec fn offset(self, x: int, y: int) -> int {
        y * self.width + x
    }

    /// The cell at `(x, y)`; every position off the grid is dead.
    pub open spec fn at(self, x: int, y: int) -> Cell {
        if self.contains(x, y) {
            self.cells[self.offset(x, y)]
        } else {
            Cell::Dead
        }
    }

    /// The grid with the cell at `(x, y)` replaced by `value`.
    pub open spec fn with_cell(self, x: int, y: int, value: Cell) -> Grid {
        Grid { cells: self.cells.update(self.offset(x, y), value), ..self }
    }

    /// The grid of the given dimensions with every cell dead.
    pub open spec fn dead(width: int, height: int) -> Grid {
        Grid { width, height, cells: Seq::new((width * height) as nat, |i: int| Cell::Dead) }
    }
}

/// A position off the grid is dead, whatever the grid holds.
pub proof fn lemma_off_grid_is_dead(grid: Grid, x: int, y: int)
    requires
        x < 0 || x >= grid.width || y < 0 || y >= grid.height,
    ensures
        grid.at(x, y) == Cell::Dead,
{
}

/// The offset of a position on the grid is an index into its cells, and the
/// position can be read back from it: the column is the remainder and the
/// row the quotient of the offset by the width.
pub proof fn lemma_offset_in_range(grid: Grid, x: int, y: int)
    requires
        grid.wf(),
        grid.contains(x, y),
    ensures
        0 <= y * grid.width <= grid.offset(x, y) < grid.cells.len(),
        grid.offset(x, y) % grid.width == x,
        grid.offset(x, y) / grid.width == y,
{
    let w = grid.width;
    assert(y * w + w <= grid.height * w) by (nonlinear_arith)
        requires
            0 <= y < grid.height,
            0 < w,
    ;
    assert(0 <= y * w) by (nonlinear_arith)
        requires
            0 <= y,
            0 < w,
    ;
    assert(grid.height * w == w * grid.height) by (nonlinear_arith);
    vstd::arithmetic::div_mod::lemma_fundamental_div_mod_converse(y * w + x, w, y, x);
}

/// Each side of a rectangle with positive sides is at most its area.
proof fn lemma_sides_bounded(width: int, height: int)
    requires
        0 < width,
        0 < height,
    ensures
        width <= width * height,
        height <= width * height,
{
    assert(width <= width * height) by (nonlinear_arith)
        requires
            0 < width,
            0 < height,
    ;
    assert(height <= width * height) by (nonlinear_arith)
        requires
            0 < width,
            0 < height,
    ;
}

/// A rectangular board of cells.
pub struct Board {
    cells: Vec<Cell>,
    width: isize,
    height: isize,
}

impl View for Board {
    type V = Grid;

    closed spec fn view(&self) -> Grid {
        Grid { width: self.width as int, height: self.height as int, cells: self.cells@ }
    }
}

impl Board {
    /// What holds of every board: its model is well formed, and the number
    /// of its cells fits the signed index type.
    #[verifier::type_invariant]
    pub open spec fn inv(self) -> bool {
        self@.wf() && self@.cells.len() <= isize::MAX
    }

    /// A board of the given dimensions with every cell dead.
    pub fn new(width: usize, height: usize) -> (board: Board)
        requires
            0 < width,
            0 < height,
            width * height <= isize::MAX,
        ensures
            board@ == Grid::dead(width as int, height as int),
            board@.wf(),
    {
        proof {
            lemma_sides_bounded(width as int, height as int);
        }
        let cells = vec![Cell::Dead; width * height];
        assert(cells@ =~= Grid::dead(width as int, height as int).cells);
        Board { cells, width: width as isize, height: height as isize }
    }

    /// A board with the dimensions and the cells of `board`.
    pub fn from_board(board: &Board) -> (copy: Board)
        ensures
            copy@ == board@,
            copy@.wf(),
    {
        proof {
            use_type_invariant(board);
        }
        let cells = board.cells.clone();
        assert(cells@ =~= board.cells@);
        Board { cells, width: board.width, height: board.height }
    }

    /// The number of columns.
    pub fn width(&self) -> (width: isize)
        ensures
            width == self@.width,
            self@.wf(),
        no_unwind
    {
        proof {
            use_type_invariant(self);
        }
        self.width
    }

    /// The number of rows.
    pub fn height(&self) -> (height: isize)
        ensures
            height == self@.height,
            self@.wf(),
        no_unwind
    {
        proof {
            use_type_invariant(self);
        }
        self.height
    }

    /// The cell at `(x, y)`, or `Dead` where the position is off the board.
    pub fn at(&self, x: isize, y: isize) -> (cell: Cell)
        ensures
            cell == self@.at(x as int, y as int),
            !self@.contains(x as int, y as int) ==> cell == Cell::Dead,
            self@.wf(),
        no_unwind
    {
        proof {
            use_type_invariant(self);
        }
        if x < 0 || x >= self.width || y < 0 || y >= self.height {
            Cell::Dead
        } else {
            proof {
                lemma_offset_in_range(self@, x as int, y as int);
            }
            self.cells[(y * self.width + x) as usize]
        }
    }

    /// A mutable reference to the cell at `(x, y)`.
    pub fn get_mut(&mut self, x: usize, y: usize) -> (cell: &mut Cell)
        requires
            old(self)@.contains(x as int, y as int),
        ensures
            *cell == old(self)@.at(x as int, y as int),
            final(self)@ == old(self)@.with_cell(x as int, y as int, *final(cell)),
            final(self)@.wf(),
        no_unwind
    {
        proof {
            use_type_invariant(&*self);
            lemma_offset_in_range(self@, x as int, y as int);
        }
        &mut self.cells[y * (self.width as usize) + x]
    }

    /// Overwrites the cell at `(x, y)` with `value`.
    pub fn set(&mut self, x: usize, y: usize, value: Cell)
        requires
            old(self)@.contains(x as int, y as int),
        ensures
            final(self)@ == old(self)@.with_cell(x as int, y as int, value),
            final(self)@.wf(),
        no_unwind
    {
        *self.get_mut(x, y) = value;
    }
}

} // verus!
