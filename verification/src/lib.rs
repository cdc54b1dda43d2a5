//! Core of a terminal viewer for multiple-sequence alignments.
//!
//! The library builds an alignment matrix from parsed records, computes a
//! per-column consensus with a four-step conservation level, maps symbols to
//! display colors, plans what each pane draws, and validates viewport
//! navigation. Reading the alignment file and driving the terminal canvas are
//! left to the surrounding application.

pub mod color;
pub mod consensus;
pub mod grid;
pub mod input;
pub mod matrix;
pub mod render;
pub mod viewport;
