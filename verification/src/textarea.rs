//! The multi-line text field of the task form.

use crate::input::{edit_line, edited, type_char, typed, Line};
use crate::keys::{Event, KeyCode};
use crate::text::char_count;
use vstd::prelude::*;

verus! {

/// A multi-line text field.
#[derive(Debug)]
pub struct TextArea {
    content: String,
    cursor_position: usize,
    title: String,
    focused: bool,
    scroll: u16,
}

/// A multi-line text field as a mathematical value.
#[verifier::ext_equal]
pub struct TextAreaView {
    pub content: Seq<char>,
    pub cursor: int,
    pub title: Seq<char>,
    pub focused: bool,
    pub scroll: u16,
}

impl View for TextArea {
    type V = TextAreaView;

    closed spec fn view(&self) -> TextAreaView {
        TextAreaView {
            content: self.content@,
            cursor: self.cursor_position as int,
            title: self.title@,
            focused: self.focused,
            scroll: self.scroll,
        }
    }
}

impl TextAreaView {
    /// The cursor lies within the text or just behind it.
    pub open spec fn well_formed(self) -> bool {
        0 <= self.cursor <= self.content.len()
    }

    /// The text and cursor of the field.
    pub open spec fn line(self) -> Line {
        Line { text: self.content, cursor: self.cursor }
    }

    /// The field with another text and cursor in it.
    pub open spec fn with_line(self, line: Line) -> TextAreaView {
        TextAreaView { content: line.text, cursor: line.cursor, ..self }
    }

    /// What an event does to the field, and whether the field took it. A
    /// field without focus takes nothing. A character is typed at the cursor
    /// unless control is held; Enter without a modifier types a line break;
    /// the keys of [`edited`] do what it says.
    pub open spec fn step(self, event: Event) -> (TextAreaView, bool) {
        if !self.focused {
            (self, false)
        } else {
            match event {
                Event::Key(key) => match key.code {
                    KeyCode::Char(c) => if !key.modifiers.control {
                        (self.with_line(typed(self.line(), c)), true)
                    } else {
                        (self, false)
                    },
                    KeyCode::Enter => if key.modifiers.none() {
                        (self.with_line(typed(self.line(), '\n')), true)
                    } else {
                        (self, false)
                    },
                    _ => match edited(self.line(), key) {
                        Some(line) => (self.with_line(line), true),
                        None => (self, false),
                    },
                },
                Event::Other => (self, false),
            }
        }
    }
}

impl TextArea {
    /// An empty field without focus, with the given title.
    pub fn new(title: String) -> (area: TextArea)
        ensures
            area@ == (TextAreaView {
                content: Seq::empty(),
                cursor: 0,
                title: title@,
                focused: false,
                scroll: 0,
            }),
            area@.well_formed(),
    {
        TextArea { content: String::new(), cursor_position: 0, title, focused: false, scroll: 0 }
    }

    /// A field without focus that holds `content`, the cursor behind its last
    /// character.
    pub fn with_content(title: String, content: String) -> (area: TextArea)
        ensures
            area@ == (TextAreaView {
                content: content@,
                cursor: content@.len() as int,
                title: title@,
                focused: false,
                scroll: 0,
            }),
            area@.well_formed(),
    {
        let cursor_position = char_count(content.as_str());
        TextArea { content, cursor_position, title, focused: false, scroll: 0 }
    }

    /// The text of the field.
    pub fn content(&self) -> (s: &str)
        ensures
            s@ == self@.content,
    {
        self.content.as_str()
    }

    /// The title of the field.
    pub fn title(&self) -> (s: &str)
        ensures
            s@ == self@.title,
    {
        self.title.as_str()
    }

    /// The cursor, as an index into the characters of the text.
    pub fn cursor_position(&self) -> (n: usize)
        ensures
            n == self@.cursor,
    {
        self.cursor_position
    }

    /// How many lines the field is scrolled down.
    pub fn scroll(&self) -> (n: u16)
        ensures
            n == self@.scroll,
    {
        self.scroll
    }

    /// Replaces the text and puts the cursor behind its last character.
    pub fn set_content(&mut self, content: String)
        ensures
            final(self)@ == (TextAreaView {
                content: content@,
                cursor: content@.len() as int,
                ..old(self)@
            }),
            final(self)@.well_formed(),
    {
        self.cursor_position = char_count(content.as_str());
        self.content = content;
    }

    /// Lets the field take an event, as [`TextAreaView::step`] defines it,
    /// and says whether it did.
    pub fn handle_event(&mut self, event: &Event) -> (handled: bool)
        requires
            old(self)@.well_formed(),
        ensures
            (final(self)@, handled) == old(self)@.step(*event),
            final(self)@.well_formed(),
    {
        if !self.focused {
            return false;
        }
        match event {
            Event::Key(key) => match key.code {
                KeyCode::Char(c) => {
                    if !key.modifiers.control {
                        type_char(&mut self.content, &mut self.cursor_position, c);
                        true
                    } else {
                        false
                    }
                },
                KeyCode::Enter => {
                    if key.modifiers.is_none() {
                        type_char(&mut self.content, &mut self.cursor_position, '\n');
                        true
                    } else {
                        false
                    }
                },
                _ => edit_line(&mut self.content, &mut self.cursor_position, key),
            },
            Event::Other => false,
        }
    }

    /// Gives or takes the focus.
    pub fn set_focused(&mut self, focused: bool)
        ensures
            final(self)@ == (TextAreaView { focused, ..old(self)@ }),
    {
        self.focused = focused;
    }

    /// Whether the field has the focus.
    pub fn is_focused(&self) -> (b: bool)
        ensures
            b == self@.focused,
    {
        self.focused
    }
}

} // verus!
