//! Input events, as the interactive views read them.

use vstd::prelude::*;

verus! {

/// The key that was pressed.
#[derive(Clone, Copy, Debug, PartialEq, Eq, Structural)]
pub enum KeyCode {
    Char(char),
    Enter,
    Esc,
    Up,
    Down,
    Left,
    Right,
    Home,
    End,
    Backspace,
    Delete,
    Tab,
    BackTab,
    /// A function key, by its number.
    F(u8),
    /// Any key that no view reads.
    Other,
}

/// The modifier keys held with a key. `other` stands for any modifier besides
/// shift, control and alt.
#[derive(Clone, Copy, Debug, PartialEq, Eq, Structural)]
pub struct Modifiers {
    pub shift: bool,
    pub control: bool,
    pub alt: bool,
    pub other: bool,
}

impl Modifiers {
    /// No modifier is held.
    pub open spec fn none(self) -> bool {
        !self.shift && !self.control && !self.alt && !self.other
    }

    /// Control is held and nothing else.
    pub open spec fn control_only(self) -> bool {
        !self.shift && self.control && !self.alt && !self.other
    }

    /// Shift is held and nothing else.
    pub open spec fn shift_only(self) -> bool {
        self.shift && !self.control && !self.alt && !self.other
    }

    /// No modifier.
    pub fn empty() -> (m: Modifiers)
        ensures
            m.none(),
    {
        Modifiers { shift: false, control: false, alt: false, other: false }
    }

    /// Control alone.
    pub fn ctrl() -> (m: Modifiers)
        ensures
            m.control_only(),
    {
        Modifiers { shift: false, control: true, alt: false, other: false }
    }

    /// Shift alone.
    pub fn shifted() -> (m: Modifiers)
        ensures
            m.shift_only(),
    {
        Modifiers { shift: true, control: false, alt: false, other: false }
    }

    /// Whether no modifier is held.
    pub fn is_none(&self) -> (b: bool)
        ensures
            b == self.none(),
    {
        !self.shift && !self.control && !self.alt && !self.other
    }

    /// Whether control is held and nothing else.
    pub fn is_control_only(&self) -> (b: bool)
        ensures
            b == self.control_only(),
    {
        !self.shift && self.control && !self.alt && !self.other
    }

    /// Whether shift is held and nothing else.
    pub fn is_shift_only(&self) -> (b: bool)
        ensures
            b == self.shift_only(),
    {
        self.shift && !self.control && !self.alt && !self.other
    }
}

/// A key press: the key and the modifiers held with it.
#[derive(Clone, Copy, Debug, PartialEq, Eq, Structural)]
pub struct KeyEvent {
    pub code: KeyCode,
    pub modifiers: Modifiers,
}

/// What the terminal reports: a key press, or something no view reads.
#[derive(Clone, Copy, Debug, PartialEq, Eq, Structural)]
pub enum Event {
    Key(KeyEvent),
    Other,
}

impl Event {
    /// The press of `code` with no modifier.
    pub fn plain(code: KeyCode) -> (e: Event)
        ensures
            e is Key,
            e->Key_0.code == code,
            e->Key_0.modifiers.none(),
    {
        Event::Key(KeyEvent { code, modifiers: Modifiers::empty() })
    }

    /// The press of the character `c` with control held.
    pub fn control(c: char) -> (e: Event)
        ensures
            e is Key,
            e->Key_0.code == KeyCode::Char(c),
            e->Key_0.modifiers.control_only(),
    {
        Event::Key(KeyEvent { code: KeyCode::Char(c), modifiers: Modifiers::ctrl() })
    }
}

} // verus!
