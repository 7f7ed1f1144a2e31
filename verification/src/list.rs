//! A list of labelled values with an optional selection.

use crate::keys::{Event, KeyCode};
use vstd::prelude::*;

verus! {

/// A list of labelled values of which at most one is selected.
pub struct TodoList<T> {
    items: Vec<(String, T)>,
    selected: Option<usize>,
    title: String,
    focused: bool,
}

/// A list as a mathematical value.
#[verifier::ext_equal]
pub struct ListView<T> {
    pub labels: Seq<Seq<char>>,
    pub values: Seq<T>,
    pub selected: Option<int>,
    pub title: Seq<char>,
    pub focused: bool,
}

impl<T> View for TodoList<T> {
    type V = ListView<T>;

    closed spec fn view(&self) -> ListView<T> {
        ListView {
            labels: self.items@.map_values(|o: (String, T)| o.0@),
            values: self.items@.map_values(|o: (String, T)| o.1),
            selected: match self.selected {
                Some(i) => Some(i as int),
                None => None,
            },
            title: self.title@,
            focused: self.focused,
        }
    }
}

impl<T> ListView<T> {
    /// The selected value, where there is a selection and it points at one.
    pub open spec fn chosen(self) -> Option<T> {
        match self.selected {
            Some(i) => if 0 <= i < self.values.len() {
                Some(self.values[i])
            } else {
                None
            },
            None => None,
        }
    }

    /// What an event does to the list, and whether the list took it. A list
    /// without focus takes nothing. Up and Down, with any modifier, move the
    /// selection by one where there is one, and stop at the first and last
    /// item.
    pub open spec fn step(self, event: Event) -> (ListView<T>, bool) {
        if !self.focused {
            (self, false)
        } else {
            match event {
                Event::Key(key) => match key.code {
                    KeyCode::Up => (
                        match self.selected {
                            Some(i) => if i > 0 {
                                ListView { selected: Some(i - 1), ..self }
                            } else {
                                self
                            },
                            None => self,
                        },
                        true,
                    ),
                    KeyCode::Down => (
                        match self.selected {
                            Some(i) => if i + 1 < self.values.len() {
                                ListView { selected: Some(i + 1), ..self }
                            } else {
                                self
                            },
                            None => self,
                        },
                        true,
                    ),
                    _ => (self, false),
                },
                Event::Other => (self, false),
            }
        }
    }
}

impl<T: Copy> TodoList<T> {
    /// A list without focus, with its first item selected where it has one.
    pub fn new(title: String, items: Vec<(String, T)>) -> (list: TodoList<T>)
        ensures
            list@.title == title@,
            list@.labels == items@.map_values(|o: (String, T)| o.0@),
            list@.values == items@.map_values(|o: (String, T)| o.1),
            list@.selected == if items@.len() > 0 {
                Some(0int)
            } else {
                None
            },
            !list@.focused,
    {
        let selected = if items.len() > 0 {
            Some(0)
        } else {
            None
        };
        TodoList { items, selected, title, focused: false }
    }

    /// The selected value, where there is a selection and it points at one.
    pub fn selected_value(&self) -> (r: Option<T>)
        ensures
            r == self@.chosen(),
    {
        match self.selected {
            Some(i) => {
                if i < self.items.len() {
                    Some(self.items[i].1)
                } else {
                    None
                }
            },
            None => None,
        }
    }

    /// The number of items.
    pub fn len(&self) -> (n: usize)
        ensures
            n == self@.values.len(),
    {
        self.items.len()
    }

    /// The label of the item at `index`.
    pub fn label(&self, index: usize) -> (r: Option<String>)
        ensures
            match r {
                Some(label) => index < self@.labels.len() && label@ == self@.labels[index as int],
                None => index >= self@.labels.len(),
            },
    {
        if index < self.items.len() {
            Some(self.items[index].0.clone())
        } else {
            None
        }
    }

    /// The title of the list.
    pub fn title(&self) -> (s: &str)
        ensures
            s@ == self@.title,
    {
        self.title.as_str()
    }

    /// The index of the selected item, if any.
    pub fn selected_index(&self) -> (r: Option<usize>)
        ensures
            match r {
                Some(i) => self@.selected == Some(i as int),
                None => self@.selected is None,
            },
    {
        self.selected
    }

    /// Lets the list take an event, as [`ListView::step`] defines it, and
    /// says whether it did.
    pub fn handle_event(&mut self, event: &Event) -> (handled: bool)
        ensures
            (final(self)@, handled) == old(self)@.step(*event),
    {
        if !self.focused {
            return false;
        }
        match event {
            Event::Key(key) => match key.code {
                KeyCode::Up => {
                    if let Some(selected) = self.selected {
                        if selected > 0 {
                            self.selected = Some(selected - 1);
                        }
                    }
                    true
                },
                KeyCode::Down => {
                    if let Some(selected) = self.selected {
                        if self.items.len() > 0 && selected < self.items.len() - 1 {
                            self.selected = Some(selected + 1);
                        }
                    }
                    true
                },
                _ => false,
            },
            Event::Other => false,
        }
    }

    /// Gives or takes the focus.
    pub fn set_focused(&mut self, focused: bool)
        ensures
            final(self)@ == (ListView { focused, ..old(self)@ }),
    {
        self.focused = focused;
    }

    /// Whether the list has the focus.
    pub fn is_focused(&self) -> (b: bool)
        ensures
            b == self@.focused,
    {
        self.focused
    }
}

} // verus!
