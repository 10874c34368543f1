//! The text that draws the game on a terminal: a frame of box-drawing
//! characters, and the board as one glyph for each cell. The functions here
//! build the text; sending it to the terminal is left to the caller.

use vstd::prelude::*;
use crate::board::{Board, Grid};
use crate::cell::Cell;

verus! {

/// A position on the screen, counted from column 1 and row 1.
#[derive(Debug, Clone, Copy, PartialEq, Eq, Structural)]
pub struct Coord {
    pub x: u16,
    pub y: u16,
}

impl Default for Coord {
    fn default() -> (coord: Coord)
        ensures
            coord == (Coord { x: 0, y: 0 }),
    {
        Coord { x: 0, y: 0 }
    }
}

/// The character of a decimal digit.
pub open spec fn digit(value: nat) -> char {
    ('0' as nat + value) as char
}

/// A number in decimal, without sign or leading zeros.
pub open spec fn decimal(value: nat) -> Seq<char>
    decreases value,
{
    if value < 10 {
        seq![digit(value)]
    } else {
        decimal(value / 10).push(digit(value % 10))
    }
}

/// The two characters that open a control sequence: escape and `[`.
pub open spec fn control() -> Seq<char> {
    seq!['\x1b', '[']
}

/// The control sequence that moves the cursor to column `x` of row `y`.
pub open spec fn goto_text(x: nat, y: nat) -> Seq<char> {
    control() + decimal(y) + seq![';'] + decimal(x) + seq!['H']
}

/// The control sequence that moves the cursor `columns` columns to the right.
pub open spec fn right_text(columns: nat) -> Seq<char> {
    control() + decimal(columns) + seq!['C']
}

/// The control sequence that clears the whole screen.
pub open spec fn clear_text() -> Seq<char> {
    control() + seq!['2', 'J']
}

/// Whether `termion` accepts the position as a target of the cursor: it
/// refuses the one position whose column and row are both zero.
pub open spec fn addressable(x: int, y: int) -> bool {
    x != 0 || y != 0
}

/// `termion::cursor::Goto(x, y)`, formatted through its `Display` impl. The
/// impl asserts that the position is not `(0, 0)`, and writes escape, `[`,
/// the row in decimal, `;`, the column in decimal and `H`.
#[verifier::external_body]
fn goto(x: u16, y: u16) -> (text: String)
    requires
        addressable(x as int, y as int),
    ensures
        text@ == goto_text(x as nat, y as nat),
{
    format!("{}", termion::cursor::Goto(x, y))
}

/// `termion::cursor::Right(columns)`, formatted through its `Display` impl,
/// which writes escape, `[`, the number of columns in decimal and `C`.
#[verifier::external_body]
fn right(columns: u16) -> (text: String)
    ensures
        text@ == right_text(columns as nat),
{
    format!("{}", termion::cursor::Right(columns))
}

/// `termion::clear::All`, formatted through its `Display` impl, which writes
/// escape, `[`, `2` and `J`.
#[verifier::external_body]
fn clear_all() -> (text: String)
    ensures
        text@ == clear_text(),
{
    format!("{}", termion::clear::All)
}

/// The glyph that stands for a cell: `x` for a living one, a backtick for a
/// dead one.
pub open spec fn glyph(cell: Cell) -> char {
    match cell {
        Cell::Alive => 'x',
        Cell::Dead => '`',
    }
}

/// The text of the first `count` cells of row `y`: for each cell its glyph,
/// followed by a move of one column to the right.
pub open spec fn cells_text(grid: Grid, y: int, count: int) -> Seq<char>
    decreases count,
{
    if count <= 0 {
        Seq::empty()
    } else {
        cells_text(grid, y, count - 1) + seq![glyph(grid.at(count - 1, y))] + right_text(1)
    }
}

/// The text of the first `count` rows of a grid drawn with its first cell
/// at `at`: for each row a jump to its first column, then its cells.
pub open spec fn rows_text(grid: Grid, at: Coord, count: int) -> Seq<char>
    decreases count,
{
    if count <= 0 {
        Seq::empty()
    } else {
        rows_text(grid, at, count - 1) + goto_text(at.x as nat, (at.y + count - 1) as nat)
            + cells_text(grid, count - 1, grid.width)
    }
}

/// The text that draws a whole grid with its first cell at `at`.
pub open spec fn board_text(grid: Grid, at: Coord) -> Seq<char> {
    rows_text(grid, at, grid.height)
}

/// Builds the text that draws `board` on the terminal with its first cell at
/// `at`. Every row is placed by a jump of the cursor, so the text holds no
/// line break. The rows must fit the sixteen-bit row numbers of a terminal.
pub fn render(board: &Board, at: Coord) -> (text: String)
    requires
        addressable(at.x as int, at.y as int),
        at.y + board@.height - 1 <= u16::MAX,
    ensures
        text@ == board_text(board@, at),
{
    proof {
        use_type_invariant(board);
    }
    let width = board.width();
    let height = board.height();
    let advance = right(1);
    let mut text = String::new();
    let mut y: isize = 0;
    while y < height
        invariant
            0 <= y <= height,
            board@.wf(),
            width == board@.width,
            height == board@.height,
            addressable(at.x as int, at.y as int),
            at.y + height - 1 <= u16::MAX,
            advance@ == right_text(1),
            text@ == rows_text(board@, at, y as int),
        decreases height - y,
    {
        let jump = goto(at.x, at.y + (y as u16));
        text.append(jump.as_str());
        let mut x: isize = 0;
        while x < width
            invariant
                0 <= y < height,
                0 <= x <= width,
                board@.wf(),
                width == board@.width,
                height == board@.height,
                advance@ == right_text(1),
                text@ == rows_text(board@, at, y as int) + goto_text(
                    at.x as nat,
                    (at.y + y) as nat,
                ) + cells_text(board@, y as int, x as int),
            decreases width - x,
        {
            if board.at(x, y).is_alive() {
                proof {
                    reveal_strlit("x");
                }
                text.append("x");
            } else {
                proof {
                    reveal_strlit("`");
                }
                text.append("`");
            }
            text.append(advance.as_str());
            proof {
                assert(text@ =~= rows_text(board@, at, y as int) + goto_text(
                    at.x as nat,
                    (at.y + y) as nat,
                ) + cells_text(board@, y as int, x + 1));
            }
            x = x + 1;
        }
        y = y + 1;
    }
    text
}

/// The text of the first `count` rows of the two vertical sides of a box:
/// for each row below the top one, a vertical bar in the left column and one
/// in the right column.
pub open spec fn sides_text(topleft: Coord, bottomright: Coord, count: int) -> Seq<char>
    decreases count,
{
    if count <= 0 {
        Seq::empty()
    } else {
        sides_text(topleft, bottomright, count - 1) + goto_text(
            topleft.x as nat,
            (topleft.y + count) as nat,
        ) + seq!['\u{2502}'] + goto_text(bottomright.x as nat, (topleft.y + count) as nat)
            + seq!['\u{2502}']
    }
}

/// The text of the first `count` columns of the two horizontal edges of a
/// box: for each column right of the left one, a horizontal bar in the top
/// row and one in the bottom row.
pub open spec fn edges_text(topleft: Coord, bottomright: Coord, count: int) -> Seq<char>
    decreases count,
{
    if count <= 0 {
        Seq::empty()
    } else {
        edges_text(topleft, bottomright, count - 1) + goto_text(
            (topleft.x + count) as nat,
            topleft.y as nat,
        ) + seq!['\u{2500}'] + goto_text((topleft.x + count) as nat, bottomright.y as nat)
            + seq!['\u{2500}']
    }
}

/// The text of the four corners of a box, top left, top right, bottom left
/// and bottom right, and the line break that ends the drawing.
pub open spec fn corners_text(topleft: Coord, bottomright: Coord) -> Seq<char> {
    goto_text(topleft.x as nat, topleft.y as nat) + seq!['\u{250c}'] + goto_text(
        bottomright.x as nat,
        topleft.y as nat,
    ) + seq!['\u{2510}'] + goto_text(topleft.x as nat, bottomright.y as nat) + seq!['\u{2514}']
        + goto_text(bottomright.x as nat, bottomright.y as nat) + seq!['\u{2518}'] + seq!['\n']
}

/// The text that clears the screen and draws a box between two corners: the
/// sides strictly between the top and the bottom row, the edges strictly
/// between the left and the right column, then the corners.
pub open spec fn box_text(topleft: Coord, bottomright: Coord) -> Seq<char> {
    clear_text() + sides_text(topleft, bottomright, bottomright.y - topleft.y - 1) + edges_text(
        topleft,
        bottomright,
        bottomright.x - topleft.x - 1,
    ) + corners_text(topleft, bottomright)
}

/// Builds the text of the two vertical sides of a box.
fn sides(topleft: Coord, bottomright: Coord) -> (text: String)
    ensures
        text@ == sides_text(topleft, bottomright, bottomright.y - topleft.y - 1),
{
    let mut text = String::new();
    if topleft.y < bottomright.y {
        let mut y: u16 = topleft.y + 1;
        while y < bottomright.y
            invariant
                topleft.y < y <= bottomright.y,
                text@ == sides_text(topleft, bottomright, y - topleft.y - 1),
            decreases bottomright.y - y,
        {
            let left = goto(topleft.x, y);
            let right = goto(bottomright.x, y);
            proof {
                reveal_strlit("\u{2502}");
            }
            text.append(left.as_str());
            text.append("\u{2502}");
            text.append(right.as_str());
            text.append("\u{2502}");
            y = y + 1;
        }
    }
    text
}

/// Builds the text of the two horizontal edges of a box.
fn edges(topleft: Coord, bottomright: Coord) -> (text: String)
    ensures
        text@ == edges_text(topleft, bottomright, bottomright.x - topleft.x - 1),
{
    let mut text = String::new();
    if topleft.x < bottomright.x {
        let mut x: u16 = topleft.x + 1;
        while x < bottomright.x
            invariant
                topleft.x < x <= bottomright.x,
                text@ == edges_text(topleft, bottomright, x - topleft.x - 1),
            decreases bottomright.x - x,
        {
            let top = goto(x, topleft.y);
            let bottom = goto(x, bottomright.y);
            proof {
                reveal_strlit("\u{2500}");
            }
            text.append(top.as_str());
            text.append("\u{2500}");
            text.append(bottom.as_str());
            text.append("\u{2500}");
            x = x + 1;
        }
    }
    text
}

/// Builds the text of the four corners of a box and the closing line break.
fn corners(topleft: Coord, bottomright: Coord) -> (text: String)
    requires
        addressable(topleft.x as int, topleft.y as int),
        addressable(bottomright.x as int, topleft.y as int),
        addressable(topleft.x as int, bottomright.y as int),
        addressable(bottomright.x as int, bottomright.y as int),
    ensures
        text@ == corners_text(topleft, bottomright),
{
    proof {
        reveal_strlit("\u{250c}");
        reveal_strlit("\u{2510}");
        reveal_strlit("\u{2514}");
        reveal_strlit("\u{2518}");
        reveal_strlit("\n");
    }
    let mut text = goto(topleft.x, topleft.y);
    text.append("\u{250c}");
    text.append(goto(bottomright.x, topleft.y).as_str());
    text.append("\u{2510}");
    text.append(goto(topleft.x, bottomright.y).as_str());
    text.append("\u{2514}");
    text.append(goto(bottomright.x, bottomright.y).as_str());
    text.append("\u{2518}");
    text.append("\n");
    text
}

/// Builds the text that clears the screen and draws a box with the given
/// corners. Each of the four corners must be a position that `termion`
/// accepts.
pub fn clear_box(topleft: Coord, bottomright: Coord) -> (text: String)
    requires
        addressable(topleft.x as int, topleft.y as int),
        addressable(bottomright.x as int, topleft.y as int),
        addressable(topleft.x as int, bottomright.y as int),
        addressable(bottomright.x as int, bottomright.y as int),
    ensures
        text@ == box_text(topleft, bottomright),
{
    let mut text = clear_all();
    text.append(sides(topleft, bottomright).as_str());
    text.append(edges(topleft, bottomright).as_str());
    text.append(corners(topleft, bottomright).as_str());
    text
}

} // verus!
