//! Keys as the keymap reads them: a code and the modifiers held with it.

use vstd::prelude::*;

verus! {

/// Which key was struck. `Other` stands for every key the keymap has no use for.
#[derive(Debug, Clone, Copy, PartialEq, Eq, Structural)]
pub enum KeyCode {
    Backspace,
    Enter,
    Left,
    Right,
    Up,
    Down,
    Home,
    End,
    PageUp,
    PageDown,
    Tab,
    BackTab,
    Delete,
    Esc,
    Char(char),
    Other,
}

/// The modifiers held with a key, as the terminal's bits: shift is 1, control 2,
/// alt 4.
#[derive(Debug, Clone, Copy, PartialEq, Eq, Structural)]
pub struct Modifiers {
    pub bits: u8,
}

impl Modifiers {
    /// Control held, whatever else is.
    pub open spec fn has_control(self) -> bool {
        (self.bits / 2) % 2 == 1
    }

    /// No modifier held.
    pub fn none() -> (res: Self)
        ensures
            res.bits == 0,
    {
        Modifiers { bits: 0 }
    }

    /// Control held, and nothing with it.
    pub fn control() -> (res: Self)
        ensures
            res.bits == 2,
    {
        Modifiers { bits: 2 }
    }

    /// Whether control is held, whatever else is.
    pub fn with_control(&self) -> (res: bool)
        ensures
            res == self.has_control(),
    {
        (self.bits / 2) % 2 == 1
    }
}

/// One keystroke.
#[derive(Debug, Clone, Copy, PartialEq, Eq, Structural)]
pub struct KeyEvent {
    pub code: KeyCode,
    pub modifiers: Modifiers,
}

impl KeyEvent {
    /// A keystroke with the given modifiers.
    pub fn new(code: KeyCode, modifiers: Modifiers) -> (res: Self)
        ensures
            res == (KeyEvent { code, modifiers }),
    {
        KeyEvent { code, modifiers }
    }

    /// A keystroke without modifiers.
    pub fn plain(code: KeyCode) -> (res: Self)
        ensures
            res.code == code,
            res.modifiers.bits == 0,
    {
        KeyEvent { code, modifiers: Modifiers::none() }
    }
}

/// What the terminal reported: a key (pressed, or held and let go), or anything
/// else.
#[derive(Debug, Clone, Copy, PartialEq, Eq, Structural)]
pub enum Event {
    Key { key: KeyEvent, press: bool },
    Other,
}

/// Whether `c` is one of the ten ASCII digits.
pub open spec fn is_digit(c: char) -> bool {
    '0' <= c && c <= '9'
}

/// Whether `c` is one of the ten ASCII digits.
pub fn digit_key(c: char) -> (res: bool)
    ensures
        res == is_digit(c),
{
    '0' <= c && c <= '9'
}

} // verus!
