//! A grapheme-cluster-aware terminal: the screen model, the VT state machine that
//! drives it, selection, and the encodings of keys and mouse events.

pub mod config;
pub mod digits;
pub mod host;
pub mod input;
pub mod laws;
pub mod render;
pub mod session;
pub mod strs;
pub mod text;
pub mod vt;

pub use vt::attrs::{Attrs, Color, Flags};
pub use vt::width::{char_cells, cluster_cells};
pub use vt::cell::{is_single_cluster, Cell, CellContent, Cluster};
pub use vt::modes::{CursorShape, CursorStyle, Mode, Modes, MouseTracking};
pub use vt::grid::{Cursor, Grid, LineErase, SavedCursor, ScreenErase};
pub use vt::term::{Terminal, VtEvent};
pub use vt::selection::{Selection, SelectionMode};
