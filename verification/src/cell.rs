//! The two-state cell and the rule that decides its next state.

use vstd::prelude::*;

verus! {

/// The state of one grid position.
#[derive(Debug, Clone, Copy, PartialEq, Eq, Structural)]
pub enum Cell {
    Dead,
    Alive,
}

impl Cell {
    /// What this cell adds to a count of living cells: 1 if alive, 0 if dead.
    pub open spec fn population(self) -> int {
        if self is Alive {
            1
        } else {
            0
        }
    }

    /// The rule of the game: a living cell survives with two or three living
    /// neighbours, a dead cell comes to life with exactly three, and every
    /// other cell is dead in the next generation.
    pub open spec fn successor(self, live_neighbours: int) -> Cell {
        match self {
            Cell::Alive => if live_neighbours == 2 || live_neighbours == 3 {
                Cell::Alive
            } else {
                Cell::Dead
            },
            Cell::Dead => if live_neighbours == 3 {
                Cell::Alive
            } else {
                Cell::Dead
            },
        }
    }

    /// The cell that a coin flip stands for: alive on `true`, dead on `false`.
    pub open spec fn of_flip(alive: bool) -> Cell {
        if alive {
            Cell::Alive
        } else {
            Cell::Dead
        }
    }

    /// Tells whether the cell is alive.
    pub fn is_alive(self) -> (alive: bool)
        ensures
            alive == (self is Alive),
            alive == (self.population() == 1),
        no_unwind
    {
        match self {
            Cell::Alive => true,
            Cell::Dead => false,
        }
    }

    /// Turns a coin flip into a cell.
    pub fn from_flip(alive: bool) -> (cell: Cell)
        ensures
            cell == Cell::of_flip(alive),
    {
        if alive {
            Cell::Alive
        } else {
            Cell::Dead
        }
    }

    /// Applies the rule of the game to this cell, given the number of its
    /// living neighbours.
    pub fn next(self, live_neighbours: u8) -> (cell: Cell)
        ensures
            cell == self.successor(live_neighbours as int),
        no_unwind
    {
        match self {
            Cell::Alive => if live_neighbours == 2 || live_neighbours == 3 {
                Cell::Alive
            } else {
                Cell::Dead
            },
            Cell::Dead => if live_neighbours == 3 {
                Cell::Alive
            } else {
                Cell::Dead
            },
        }
    }
}

} // verus!
