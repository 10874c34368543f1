//! Conway's Game of Life on a fixed-size rectangular grid with a dead border.
//!
//! A [`Board`] holds the cells, [`update`] computes one generation from a
//! board into another, and a [`Simulation`] owns the two boards that trade
//! roles from tick to tick. The modules `seed` and `terminal` fill a board at
//! random and build the text that draws it.

pub mod board;
pub mod cell;
pub mod life;
pub mod seed;
pub mod simulation;
pub mod terminal;

pub use board::{Board, Grid};
pub use cell::Cell;
pub use life::{try_update, update, SizeMismatch};
pub use simulation::{Buffers, Simulation, Slot};
pub use terminal::Coord;
