//! A continuous-valued Game of Life engine.
//!
//! Cells are generic values; the numeric rule that turns a cell and its
//! weighted neighbours into the next value is supplied by the caller. What is
//! verified here is the structure around that rule: double buffering, the
//! shape of both grids, which kernel terms reach a cell, the play/step state
//! machine, and the colour a cell is drawn in.
pub mod color;
pub mod engine;
pub mod grid;
pub mod kernel;

pub use color::gray_hex;
pub use engine::{GameOfLife, GameOfLifeInput, GameOfLifeMessage, Reaction, StepError, next_generation};
pub use grid::{filled_grid, tabulate_grid};
pub use kernel::{collect_neighbor_terms, KernelTerm};
