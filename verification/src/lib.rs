//! Conway's Game of Life on a toroidal grid.
//!
//! The grid wraps at its edges: the neighbors of a boundary cell are found on
//! the opposite side. Cells are stored bit-packed in row-major order. Each
//! generation is computed from the previous one as a whole, under the
//! standard rule: a live cell survives with two or three live neighbors, a
//! dead cell is born with exactly three.

use vstd::prelude::*;

pub mod bitgrid;
pub mod engine;
pub mod laws;
pub mod model;

pub use engine::Universe;

verus! {

/// Error returned by cell editing and resizing operations.
#[derive(Clone, Copy, Debug, PartialEq, Eq, Structural)]
pub enum GridError {
    /// A row or column lies outside the grid dimensions.
    OutOfRange,
    /// A requested dimension is zero.
    InvalidDimensions,
}

} // verus!
