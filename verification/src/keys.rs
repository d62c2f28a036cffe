//! Key presses as the editor reads them.

use vstd::prelude::*;

verus! {

/// The key of a key press.
#[derive(Clone, Copy, Debug, PartialEq, Eq, Structural)]
pub enum KeyCode {
    Char(char),
    Enter,
    Esc,
    Backspace,
    Delete,
    Left,
    Right,
    Up,
    Down,
    Home,
    End,
    PageUp,
    PageDown,
    Tab,
    /// Any key the editor does not act on.
    Other,
}

/// A key press: the key and whether Control, Alt or Shift was held.
#[derive(Clone, Copy, Debug, PartialEq, Eq, Structural)]
pub struct Key {
    pub code: KeyCode,
    pub ctrl: bool,
    pub alt: bool,
    pub shift: bool,
}

impl Key {
    /// A key pressed alone.
    pub fn plain(code: KeyCode) -> (k: Key)
        ensures
            k == (Key { code, ctrl: false, alt: false, shift: false }),
    {
        Key { code, ctrl: false, alt: false, shift: false }
    }

    /// A key pressed with Control.
    pub fn with_ctrl(code: KeyCode) -> (k: Key)
        ensures
            k == (Key { code, ctrl: true, alt: false, shift: false }),
    {
        Key { code, ctrl: true, alt: false, shift: false }
    }

    /// A key pressed with Alt.
    pub fn with_alt(code: KeyCode) -> (k: Key)
        ensures
            k == (Key { code, ctrl: false, alt: true, shift: false }),
    {
        Key { code, ctrl: false, alt: true, shift: false }
    }
}

} // verus!
