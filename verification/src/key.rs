//! The library's model of a key press: a key code plus modifier flags.
//!
//! The interactive front end translates the events of its input backend into
//! these values before handing them to any screen, dialog or field.

use vstd::prelude::*;

verus! {

/// Which key was pressed.
#[derive(Clone, Copy, Debug, PartialEq, Eq, Structural)]
pub enum KeyCode {
    /// A printable character.
    Char(char),
    Enter,
    Esc,
    Up,
    Down,
    Left,
    Right,
    Home,
    End,
    Backspace,
    Delete,
    Tab,
    /// Any key the library gives no meaning to.
    Other,
}

/// Modifier keys held during a key press.
#[derive(Clone, Copy, Debug, PartialEq, Eq, Structural)]
pub struct KeyModifiers {
    pub control: bool,
    pub alt: bool,
    pub shift: bool,
}

impl KeyModifiers {
    /// No modifier held.
    pub open spec fn spec_is_empty(self) -> bool {
        !self.control && !self.alt && !self.shift
    }

    /// Returns the modifier set with nothing held.
    pub fn none() -> (r: KeyModifiers)
        ensures
            r.spec_is_empty(),
    {
        KeyModifiers { control: false, alt: false, shift: false }
    }

    /// Whether no modifier is held.
    pub fn is_empty(&self) -> (r: bool)
        ensures
            r == self.spec_is_empty(),
    {
        !self.control && !self.alt && !self.shift
    }
}

/// One key press: the key and the modifiers held with it.
#[derive(Clone, Copy, Debug, PartialEq, Eq, Structural)]
pub struct KeyEvent {
    pub code: KeyCode,
    pub modifiers: KeyModifiers,
}

impl KeyEvent {
    /// A key press without modifiers.
    pub fn plain(code: KeyCode) -> (r: KeyEvent)
        ensures
            r.code == code,
            r.modifiers.spec_is_empty(),
    {
        KeyEvent { code, modifiers: KeyModifiers::none() }
    }

    /// A key press with the control modifier held.
    pub fn with_control(code: KeyCode) -> (r: KeyEvent)
        ensures
            r.code == code,
            r.modifiers.control,
            !r.modifiers.alt,
            !r.modifiers.shift,
    {
        KeyEvent { code, modifiers: KeyModifiers { control: true, alt: false, shift: false } }
    }
}

/// One event read from the terminal: a key press, or anything else.
///
/// The event loop dispatches key presses to the active screen and ignores the
/// rest by default.
#[derive(Clone, Copy, Debug, PartialEq, Eq, Structural)]
pub enum Event {
    Key(KeyEvent),
    /// A resize, paste, focus change or other event the core gives no meaning to.
    Other,
}

} // verus!
