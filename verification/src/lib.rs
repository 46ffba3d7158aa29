//! Embedder core for a terminal-driven browser shell.
//!
//! The crate holds the parts of the shell that carry real control-flow and
//! lifecycle weight: the windowing adapter that answers the engine's
//! geometry queries and forwards animation-state notifications ([`glue`]),
//! the modal UI state machine that turns keystrokes into engine commands or
//! text edits ([`ui`]), and the pump/drain driver that carries the session
//! from startup through an orderly two-phase shutdown ([`driver`]).
//! Terminal I/O, drawing, localization and the engine itself live outside;
//! they reach this core only through plain values.

pub mod debug_display;
pub mod driver;
pub mod editor;
pub mod glue;
pub mod keys;
pub mod ui;
pub mod url_check;
pub mod version;
pub mod waker;
