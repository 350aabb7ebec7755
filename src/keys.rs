use vstd::prelude::*;

verus! {

/// Which key was pressed.
#[derive(Clone, Copy, Debug, PartialEq, Eq, Structural)]
pub enum KeyCode {
    Char(char),
    Enter,
    Esc,
    Backspace,
    Left,
    Right,
    Up,
    Down,
    Other,
}

/// A key press together with the modifiers that matter to the editor.
#[derive(Clone, Copy, Debug, PartialEq, Eq, Structural)]
pub struct Key {
    pub code: KeyCode,
    pub shift: bool,
    pub ctrl: bool,
}

impl Key {
    /// A key pressed without modifiers.
    pub fn plain(code: KeyCode) -> (r: Key)
        ensures
            r == (Key { code, shift: false, ctrl: false }),
    {
        Key { code, shift: false, ctrl: false }
    }

    /// A key pressed with Shift held.
    pub fn shifted(code: KeyCode) -> (r: Key)
        ensures
            r == (Key { code, shift: true, ctrl: false }),
    {
        Key { code, shift: true, ctrl: false }
    }

    /// A key pressed with Ctrl held.
    pub fn with_ctrl(code: KeyCode) -> (r: Key)
        ensures
            r == (Key { code, shift: false, ctrl: true }),
    {
        Key { code, shift: false, ctrl: true }
    }
}

} // verus!
