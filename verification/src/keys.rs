//! Key presses.

use vstd::prelude::*;

verus! {

/// Which key it is. Keys that nothing reacts to are all `Other`.
#[derive(Clone, Copy, Debug, PartialEq, Eq, Structural)]
pub enum KeyCode {
    Char(char),
    Enter,
    Esc,
    Tab,
    BackTab,
    Up,
    Down,
    Left,
    Right,
    Home,
    End,
    PageUp,
    PageDown,
    Backspace,
    Delete,
    Other,
}

/// What happened to the key.
#[derive(Clone, Copy, Debug, PartialEq, Eq, Structural)]
pub enum KeyEventKind {
    Press,
    Repeat,
    Release,
}

/// Something that happened to a key, and whether Control was held down.
#[derive(Clone, Copy, Debug, PartialEq, Eq, Structural)]
pub struct KeyEvent {
    pub code: KeyCode,
    pub control: bool,
    pub kind: KeyEventKind,
}

impl KeyEvent {
    /// A press of the key, alone.
    pub fn new(code: KeyCode) -> (r: KeyEvent)
        ensures
            r == (KeyEvent { code, control: false, kind: KeyEventKind::Press }),
    {
        KeyEvent { code, control: false, kind: KeyEventKind::Press }
    }

    /// A press of the character key together with Control.
    pub fn ctrl(c: char) -> (r: KeyEvent)
        ensures
            r == (KeyEvent { code: KeyCode::Char(c), control: true, kind: KeyEventKind::Press }),
    {
        KeyEvent { code: KeyCode::Char(c), control: true, kind: KeyEventKind::Press }
    }
}

} // verus!
