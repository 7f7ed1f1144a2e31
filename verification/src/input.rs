//! The single-line text field of the task form.

use crate::keys::{Event, KeyCode, KeyEvent};
use crate::text::{char_count, insert_char, remove_char};
use vstd::prelude::*;

verus! {

/// A line of text being edited: the text and the cursor, an index into its
/// characters.
pub struct Line {
    pub text: Seq<char>,
    pub cursor: int,
}

/// What a key that moves the cursor or deletes does to a line, and `None`
/// for any other key. Only keys pressed without a modifier count. Backspace
/// deletes before the cursor, Delete at the cursor; Left and Right move by
/// one and stop at the ends; Home and End go to the ends.
pub open spec fn edited(line: Line, key: KeyEvent) -> Option<Line> {
    if !key.modifiers.none() {
        None
    } else {
        match key.code {
            KeyCode::Backspace => Some(
                if line.cursor > 0 {
                    Line { text: line.text.remove(line.cursor - 1), cursor: line.cursor - 1 }
                } else {
                    line
                },
            ),
            KeyCode::Delete => Some(
                if line.cursor < line.text.len() {
                    Line { text: line.text.remove(line.cursor), cursor: line.cursor }
                } else {
                    line
                },
            ),
            KeyCode::Left => Some(
                if line.cursor > 0 {
                    Line { cursor: line.cursor - 1, ..line }
                } else {
                    line
                },
            ),
            KeyCode::Right => Some(
                if line.cursor < line.text.len() {
                    Line { cursor: line.cursor + 1, ..line }
                } else {
                    line
                },
            ),
            KeyCode::Home => Some(Line { cursor: 0, ..line }),
            KeyCode::End => Some(Line { cursor: line.text.len() as int, ..line }),
            _ => None,
        }
    }
}

/// The line with `c` typed at the cursor.
pub open spec fn typed(line: Line, c: char) -> Line {
    Line { text: line.text.insert(line.cursor, c), cursor: line.cursor + 1 }
}

/// Applies a key that moves the cursor or deletes, as [`edited`] defines it,
/// and says whether the key was one of those.
pub(crate) fn edit_line(text: &mut String, cursor: &mut usize, key: &KeyEvent) -> (handled: bool)
    requires
        *old(cursor) <= old(text)@.len(),
    ensures
        *final(cursor) <= final(text)@.len(),
        match edited(Line { text: old(text)@, cursor: *old(cursor) as int }, *key) {
            Some(line) => handled && final(text)@ == line.text && *final(cursor) == line.cursor,
            None => !handled && final(text)@ == old(text)@ && *final(cursor) == *old(cursor),
        },
{
    if !key.modifiers.is_none() {
        return false;
    }
    let len = char_count(text.as_str());
    match key.code {
        KeyCode::Backspace => {
            if *cursor > 0 {
                *cursor = *cursor - 1;
                *text = remove_char(text.as_str(), *cursor);
            }
            true
        },
        KeyCode::Delete => {
            if *cursor < len {
                *text = remove_char(text.as_str(), *cursor);
            }
            true
        },
        KeyCode::Left => {
            if *cursor > 0 {
                *cursor = *cursor - 1;
            }
            true
        },
        KeyCode::Right => {
            if *cursor < len {
                *cursor = *cursor + 1;
            }
            true
        },
        KeyCode::Home => {
            *cursor = 0;
            true
        },
        KeyCode::End => {
            *cursor = len;
            true
        },
        _ => false,
    }
}

/// Types `c` at the cursor, as [`typed`] defines it.
pub(crate) fn type_char(text: &mut String, cursor: &mut usize, c: char)
    requires
        *old(cursor) <= old(text)@.len(),
    ensures
        *final(cursor) <= final(text)@.len(),
        final(text)@ == old(text)@.insert(*old(cursor) as int, c),
        *final(cursor) == *old(cursor) + 1,
{
    *text = insert_char(text.as_str(), *cursor, c);
    let len = char_count(text.as_str());
    assert(*cursor < len);
    *cursor = *cursor + 1;
}

/// A single-line text field.
#[derive(Debug)]
pub struct Input {
    pub value: String,
    /// The cursor, as an index into the characters of `value`.
    pub cursor_position: usize,
    pub focused: bool,
    pub placeholder: String,
}

/// A text field as a mathematical value.
#[verifier::ext_equal]
pub struct InputView {
    pub value: Seq<char>,
    pub cursor: int,
    pub focused: bool,
    pub placeholder: Seq<char>,
}

impl View for Input {
    type V = InputView;

    open spec fn view(&self) -> InputView {
        InputView {
            value: self.value@,
            cursor: self.cursor_position as int,
            focused: self.focused,
            placeholder: self.placeholder@,
        }
    }
}

impl InputView {
    /// The cursor lies within the text or just behind it.
    pub open spec fn well_formed(self) -> bool {
        0 <= self.cursor <= self.value.len()
    }

    /// The text and cursor of the field.
    pub open spec fn line(self) -> Line {
        Line { text: self.value, cursor: self.cursor }
    }

    /// The field with another line in it.
    pub open spec fn with_line(self, line: Line) -> InputView {
        InputView { value: line.text, cursor: line.cursor, ..self }
    }

    /// What an event does to the field, and whether the field took it. A
    /// field without focus takes nothing. With control alone, `a` goes to the
    /// start and `e` to the end, and no other character is taken; any other
    /// character is typed at the cursor. The keys of [`edited`] do what it
    /// says.
    pub open spec fn step(self, event: Event) -> (InputView, bool) {
        if !self.focused {
            (self, false)
        } else {
            match event {
                Event::Key(key) => match key.code {
                    KeyCode::Char(c) => if key.modifiers.control_only() {
                        if c == 'a' {
                            (InputView { cursor: 0, ..self }, true)
                        } else if c == 'e' {
                            (InputView { cursor: self.value.len() as int, ..self }, true)
                        } else {
                            (self, false)
                        }
                    } else {
                        (self.with_line(typed(self.line(), c)), true)
                    },
                    _ => match edited(self.line(), key) {
                        Some(line) => (self.with_line(line), true),
                        None => (self, false),
                    },
                },
                Event::Other => (self, false),
            }
        }
    }
}

impl Clone for Input {
    fn clone(&self) -> (r: Self)
        ensures
            r@ == self@,
    {
        Input {
            value: self.value.clone(),
            cursor_position: self.cursor_position,
            focused: self.focused,
            placeholder: self.placeholder.clone(),
        }
    }
}

impl Input {
    /// An empty field without focus, with the given placeholder.
    pub fn new(placeholder: &str) -> (input: Input)
        ensures
            input@ == (InputView {
                value: Seq::empty(),
                cursor: 0,
                focused: false,
                placeholder: placeholder@,
            }),
            input@.well_formed(),
    {
        Input {
            value: String::new(),
            cursor_position: 0,
            focused: false,
            placeholder: placeholder.to_owned(),
        }
    }

    /// The field with `value` in it and the cursor behind the last character.
    pub fn with_value(self, value: String) -> (input: Input)
        ensures
            input@ == (InputView { value: value@, cursor: value@.len() as int, ..self@ }),
            input@.well_formed(),
    {
        let mut input = self;
        input.cursor_position = char_count(value.as_str());
        input.value = value;
        input
    }

    /// Gives or takes the focus.
    pub fn set_focused(&mut self, focused: bool)
        ensures
            final(self)@ == (InputView { focused, ..old(self)@ }),
    {
        self.focused = focused;
    }

    /// Lets the field take an event, as [`InputView::step`] defines it, and
    /// says whether it did.
    pub fn handle_event(&mut self, event: &Event) -> (handled: bool)
        requires
            old(self)@.well_formed(),
        ensures
            (final(self)@, handled) == old(self)@.step(*event),
            final(self)@.well_formed(),
    {
        if !self.focused {
            return false;
        }
        match event {
            Event::Key(key) => match key.code {
                KeyCode::Char(c) => {
                    if key.modifiers.is_control_only() {
                        if c == 'a' {
                            self.cursor_position = 0;
                            true
                        } else if c == 'e' {
                            self.cursor_position = char_count(self.value.as_str());
                            true
                        } else {
                            false
                        }
                    } else {
                        type_char(&mut self.value, &mut self.cursor_position, c);
                        true
                    }
                },
                _ => edit_line(&mut self.value, &mut self.cursor_position, key),
            },
            Event::Other => false,
        }
    }
}

} // verus!
