//! State model of a 9x9 Sudoku grid.
//!
//! The model tracks, per cell, whether it is an immutable puzzle-provided
//! clue, a player guess, or a set of candidate pencil-marks; it detects
//! duplicate values within a row; and it exposes a positional iteration over
//! all 81 cells for a presentation layer to consume.

pub mod download;
pub mod puzzle;
pub mod ui;
