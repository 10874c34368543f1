//! The double-buffered simulation: two boards of one size that trade the
//! roles of the board that is read and the board that is written.

use vstd::prelude::*;
use crate::board::{Board, Grid};
use crate::life::{lemma_next_generation_keeps_shape, next_generation, update};

verus! {

/// Names one of the two boards of a simulation.
#[derive(Debug, Clone, Copy, PartialEq, Eq, Structural)]
pub enum Slot {
    First,
    Second,
}

impl Slot {
    /// The slot that this one is not.
    pub open spec fn other(self) -> Slot {
        match self {
            Slot::First => Slot::Second,
            Slot::Second => Slot::First,
        }
    }
}

/// The mathematical model of a simulation: the two grids, and which of them
/// is the current generation. The other one is the buffer that the next
/// generation is written to.
pub struct Buffers {
    pub first: Grid,
    pub second: Grid,
    pub current: Slot,
}

impl Buffers {
    /// Both grids are well formed and have the same size.
    pub open spec fn wf(self) -> bool {
        &&& self.first.wf()
        &&& self.second.wf()
        &&& self.first.width == self.second.width
        &&& self.first.height == self.second.height
    }

    /// The grid held in `slot`.
    pub open spec fn grid(self, slot: Slot) -> Grid {
        match slot {
            Slot::First => self.first,
            Slot::Second => self.second,
        }
    }

    /// The current generation.
    pub open spec fn current_grid(self) -> Grid {
        self.grid(self.current)
    }

    /// The state after one tick: the generation that follows the current one
    /// is written over the other grid, the current grid is left as it is, and
    /// the two slots trade roles.
    pub open spec fn tick(self) -> Buffers {
        match self.current {
            Slot::First => Buffers {
                first: self.first,
                second: next_generation(self.first),
                current: Slot::Second,
            },
            Slot::Second => Buffers {
                first: next_generation(self.second),
                second: self.second,
                current: Slot::First,
            },
        }
    }
}

/// A tick keeps the state well formed.
pub proof fn lemma_tick_keeps_wf(state: Buffers)
    requires
        state.wf(),
    ensures
        state.tick().wf(),
{
    lemma_next_generation_keeps_shape(state.current_grid());
}

/// A tick does not touch the grid it reads: the grid that was current holds
/// after the tick what it held before, and the grid that is current after
/// the tick is the generation that follows it.
pub proof fn lemma_tick_reads_current_only(state: Buffers)
    ensures
        state.tick().current == state.current.other(),
        state.tick().grid(state.current) == state.current_grid(),
        state.tick().current_grid() == next_generation(state.current_grid()),
{
}

/// After two ticks the slot that was current is current again, and it holds
/// the second generation after the one it held.
pub proof fn lemma_two_ticks_restore_roles(state: Buffers)
    ensures
        state.tick().tick().current == state.current,
        state.tick().tick().current_grid() == next_generation(
            next_generation(state.current_grid()),
        ),
        state.tick().tick().grid(state.current.other()) == next_generation(state.current_grid()),
{
}

/// Two boards of one size, one of them the current generation.
pub struct Simulation {
    first: Board,
    second: Board,
    current: Slot,
}

impl View for Simulation {
    type V = Buffers;

    closed spec fn view(&self) -> Buffers {
        Buffers { first: self.first@, second: self.second@, current: self.current }
    }
}

impl Simulation {
    /// What holds of every simulation: its two boards have the same size.
    #[verifier::type_invariant]
    pub open spec fn inv(self) -> bool {
        self@.wf()
    }

    /// A simulation whose current generation is `board`, held in the first
    /// slot. The second slot starts as a copy of it.
    pub fn new(board: Board) -> (simulation: Simulation)
        ensures
            simulation@ == (Buffers { first: board@, second: board@, current: Slot::First }),
            simulation@.wf(),
    {
        proof {
            use_type_invariant(&board);
        }
        let second = Board::from_board(&board);
        Simulation { first: board, second, current: Slot::First }
    }

    /// The slot that holds the current generation.
    pub fn current_slot(&self) -> (slot: Slot)
        ensures
            slot == self@.current,
    {
        self.current
    }

    /// The board that holds the current generation.
    pub fn current(&self) -> (board: &Board)
        ensures
            board@ == self@.current_grid(),
            self@.wf(),
    {
        proof {
            use_type_invariant(self);
        }
        match self.current {
            Slot::First => &self.first,
            Slot::Second => &self.second,
        }
    }

    /// Advances the simulation by one generation: computes the generation
    /// that follows the current board into the other board, then lets the
    /// two boards trade roles. No cell is copied from one board to the other.
    pub fn tick(&mut self)
        ensures
            final(self)@ == old(self)@.tick(),
            final(self)@.wf(),
            final(self)@.current == old(self)@.current.other(),
            final(self)@.grid(old(self)@.current) == old(self)@.current_grid(),
            final(self)@.current_grid() == next_generation(old(self)@.current_grid()),
    {
        proof {
            use_type_invariant(&*self);
            lemma_next_generation_keeps_shape(self@.current_grid());
        }
        match self.current {
            Slot::First => {
                update(&self.first, &mut self.second);
                self.current = Slot::Second;
            },
            Slot::Second => {
                update(&self.second, &mut self.first);
                self.current = Slot::First;
            },
        }
    }
}

} // verus!
