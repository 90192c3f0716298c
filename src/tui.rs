use vstd::prelude::*;

verus! {

/// A key of the keyboard, as far as the dashboard tells keys apart.
#[derive(Clone, Copy, Debug, PartialEq, Eq, Structural)]
pub enum KeyCode {
    Char(char),
    F(u8),
    Enter,
    Esc,
    Backspace,
    Left,
    Right,
    Up,
    Down,
    PageUp,
    PageDown,
    Other,
}

/// A key event: the key, whether Ctrl was held, and whether it is a press
/// (as opposed to a release or a repeat).
#[derive(Clone, Copy, Debug, PartialEq, Eq, Structural)]
pub struct Key {
    pub code: KeyCode,
    pub ctrl: bool,
    pub press: bool,
}

/// What the terminal driver reports: the two cadences, a resize, or a key.
#[derive(Clone, Copy, Debug, PartialEq, Eq, Structural)]
pub enum Event {
    Tick,
    Render,
    Resize(u16, u16),
    Key(Key),
    Other,
}

} // verus!
