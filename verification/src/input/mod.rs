//! Keyboard and mouse encoding for a terminal.
//!
//! The platform shell turns an OS event into a [`Key`](key::Key) or
//! [`MouseEvent`](mouse::MouseEvent); this module turns that into the bytes the child
//! process reads. Terminal modes decide the encoding, so the current
//! [`Modes`](crate::vt::modes::Modes) is always an input.

pub mod key;
pub mod keyboard;
pub mod mouse;
