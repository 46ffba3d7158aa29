//! The key-event model the UI state machine consumes.
//!
//! The terminal layer hands keystrokes to the core as plain values: a key
//! code, the press/repeat/release class, and the four modifier flags. Only
//! the codes the shell reacts to are distinguished; everything else maps to
//! [`KeyCode::Other`] and is ignored by every handler.

use vstd::prelude::*;

verus! {

/// The key codes the shell distinguishes.
#[derive(Clone, Copy, Debug, PartialEq, Eq, Structural)]
pub enum KeyCode {
    Char(char),
    Enter,
    Esc,
    Backspace,
    Delete,
    Left,
    Right,
    Home,
    End,
    Tab,
    Other,
}

/// Whether the event is an initial press, an auto-repeat, or a release.
#[derive(Clone, Copy, Debug, PartialEq, Eq, Structural)]
pub enum KeyKind {
    Press,
    Repeat,
    Release,
}

/// One terminal key event.
#[derive(Clone, Copy, Debug, PartialEq, Eq, Structural)]
pub struct KeyEvent {
    pub code: KeyCode,
    pub kind: KeyKind,
    pub ctrl: bool,
    pub alt: bool,
    pub shift: bool,
    pub meta: bool,
}

impl KeyEvent {
    /// Press-class events: an initial press or an auto-repeat. Releases are
    /// ignored everywhere.
    pub open spec fn press_class(self) -> bool {
        self.kind is Press || self.kind is Repeat
    }

    /// No modifier is held.
    pub open spec fn plain(self) -> bool {
        !self.ctrl && !self.alt && !self.shift && !self.meta
    }

    /// Exactly the control modifier is held.
    pub open spec fn ctrl_only(self) -> bool {
        self.ctrl && !self.alt && !self.shift && !self.meta
    }

    /// Exactly the meta modifier is held.
    pub open spec fn meta_only(self) -> bool {
        self.meta && !self.ctrl && !self.alt && !self.shift
    }

    /// Exactly the alt modifier is held.
    pub open spec fn alt_only(self) -> bool {
        self.alt && !self.ctrl && !self.shift && !self.meta
    }

    /// Exactly shift is held.
    pub open spec fn shift_only(self) -> bool {
        self.shift && !self.ctrl && !self.alt && !self.meta
    }

    /// Exactly control and alt are held (how some terminals deliver
    /// characters typed with AltGr).
    pub open spec fn ctrl_alt_only(self) -> bool {
        self.ctrl && self.alt && !self.shift && !self.meta
    }
}

} // verus!
