//! Keys as the logic sees them: which key, whether Control was held, and
//! whether it went down rather than up or repeated.

use vstd::prelude::*;

verus! {

#[derive(Clone, Copy, Debug, PartialEq, Eq, Structural)]
pub enum KeyCode {
    Char(char),
    Enter,
    Esc,
    Tab,
    Backspace,
    Up,
    Down,
    Left,
    Right,
    /// Any key nothing here responds to.
    Other,
}

#[derive(Clone, Copy, Debug, PartialEq, Eq, Structural)]
pub struct Key {
    pub code: KeyCode,
    /// Control was held.
    pub ctrl: bool,
    /// The key went down, rather than being released or repeating.
    pub press: bool,
}

impl Key {
    /// A plain press of `code`.
    pub fn new(code: KeyCode) -> (k: Key)
        ensures
            k.code == code,
            !k.ctrl,
            k.press,
    {
        Key { code, ctrl: false, press: true }
    }

    /// `code` pressed with Control held.
    pub fn ctrl(code: KeyCode) -> (k: Key)
        ensures
            k.code == code,
            k.ctrl,
            k.press,
    {
        Key { code, ctrl: true, press: true }
    }
}

} // verus!
