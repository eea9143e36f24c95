use vstd::prelude::*;

verus! {

/// The part of a raw keyboard event that the runtime's logic reads.
#[derive(Clone, Copy, Debug, PartialEq, Eq, Structural)]
pub enum KeyCode {
    Char(char),
    Esc,
    Enter,
    Backspace,
    Delete,
    Left,
    Right,
    Home,
    End,
    Tab,
    Up,
    Down,
    Other,
}

/// A key press together with its modifier state.
#[derive(Clone, Copy, Debug, PartialEq, Eq, Structural)]
pub struct KeyEvent {
    pub code: KeyCode,
    pub ctrl: bool,
    pub alt: bool,
}

impl KeyEvent {
    /// A key press with no modifiers held.
    pub fn plain(code: KeyCode) -> (k: KeyEvent)
        ensures
            k.code == code,
            !k.ctrl,
            !k.alt,
    {
        KeyEvent { code, ctrl: false, alt: false }
    }
}

} // verus!
