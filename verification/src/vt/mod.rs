//! Grapheme-cluster-aware terminal grid and VT state machine.
//!
//! The cell is the unit of layout, and a cell holds one grapheme cluster. Cluster
//! width comes from `wcwidth`, matching what TUI applications compute, never from
//! the shaper.

pub mod attrs;
pub mod unicode;
pub mod cell;
pub mod grid;
pub mod line;
pub mod modes;
pub mod selection;
pub mod sgr;
pub mod term;
pub mod width;
