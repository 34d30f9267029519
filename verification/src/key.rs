//! Keyboard input as the picker sees it.

use vstd::prelude::*;

verus! {

/// The logical code of a key.
#[derive(Clone, Copy, Debug, PartialEq, Eq, Structural)]
pub enum KeyCode {
    /// A character key.
    Char(char),
    Up,
    Down,
    Left,
    Right,
    Enter,
    Esc,
    Backspace,
    /// Any key the picker gives no meaning to.
    Other,
}

/// Whether a key went down, is held down, or came up.
#[derive(Clone, Copy, Debug, PartialEq, Eq, Structural)]
pub enum KeyKind {
    Press,
    Repeat,
    Release,
}

/// One discrete key event.
#[derive(Clone, Copy, Debug, PartialEq, Eq, Structural)]
pub struct KeyEvent {
    pub code: KeyCode,
    pub kind: KeyKind,
}

impl KeyEvent {
    /// A key event drives the picker unless it reports a key coming up.
    pub open spec fn drives(self) -> bool {
        self.kind != KeyKind::Release
    }
}

} // verus!
