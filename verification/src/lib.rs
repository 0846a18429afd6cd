//! Core of a one-dimensional elementary cellular automaton: decoding an
//! 8-bit rule number into its lookup table, stepping a row of cells to the
//! next generation under a fixed dead-edge boundary, seeding the initial
//! row, and mapping (column, generation) indices to grid coordinates.

use vstd::prelude::*;

pub mod engine;
pub mod layout;
pub mod rule;

verus! {

/// The ways automaton construction or stepping can fail.
#[derive(Clone, Copy, Debug, PartialEq, Eq, Structural)]
pub enum AutomatonError {
    /// The rule number lies outside `[0, 255]`.
    InvalidRule,
    /// The row handed to `step` has fewer than two cells, so the
    /// dead-edge boundary policy is undefined for it.
    InvalidRowLength,
}

} // verus!
