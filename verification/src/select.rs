//! The single-choice list of the task form.

use crate::keys::{Event, KeyCode};
use crate::priority::Priority;
use crate::seqs::{equal_to, first_index, lemma_first_index_is};
use crate::status::Status;
use vstd::prelude::*;

verus! {

/// A list of labelled values of which one is selected.
pub struct Select<T> {
    options: Vec<(String, T)>,
    selected: usize,
    title: String,
    focused: bool,
}

/// A single-choice list as a mathematical value.
#[verifier::ext_equal]
pub struct SelectView<T> {
    pub labels: Seq<Seq<char>>,
    pub values: Seq<T>,
    pub selected: int,
    pub title: Seq<char>,
    pub focused: bool,
}

impl<T> View for Select<T> {
    type V = SelectView<T>;

    closed spec fn view(&self) -> SelectView<T> {
        SelectView {
            labels: self.options@.map_values(|o: (String, T)| o.0@),
            values: self.options@.map_values(|o: (String, T)| o.1),
            selected: self.selected as int,
            title: self.title@,
            focused: self.focused,
        }
    }
}

impl<T> SelectView<T> {
    /// Labels and values go in pairs.
    pub open spec fn well_formed(self) -> bool {
        self.labels.len() == self.values.len() && 0 <= self.selected
    }

    /// The selected value, where the selection points at one.
    pub open spec fn chosen(self) -> Option<T> {
        if 0 <= self.selected < self.values.len() {
            Some(self.values[self.selected])
        } else {
            None
        }
    }

    /// The list with the first option selected that holds `value`; the list
    /// as it is where no option holds it.
    pub open spec fn choosing(self, value: T) -> SelectView<T> {
        let i = first_index(self.values, equal_to(value));
        if i < self.values.len() {
            SelectView { selected: i, ..self }
        } else {
            self
        }
    }

    /// What an event does to the list, and whether the list took it. A list
    /// without focus takes nothing. Up and Down, with any modifier, move the
    /// selection by one and stop at the first and last option.
    pub open spec fn step(self, event: Event) -> (SelectView<T>, bool) {
        if !self.focused {
            (self, false)
        } else {
            match event {
                Event::Key(key) => match key.code {
                    KeyCode::Up => (
                        if self.selected > 0 {
                            SelectView { selected: self.selected - 1, ..self }
                        } else {
                            self
                        },
                        true,
                    ),
                    KeyCode::Down => (
                        if self.selected + 1 < self.values.len() {
                            SelectView { selected: self.selected + 1, ..self }
                        } else {
                            self
                        },
                        true,
                    ),
                    _ => (self, false),
                },
                Event::Other => (self, false),
            }
        }
    }
}

impl<T: Copy> Select<T> {
    /// A list without focus, with its first option selected.
    pub fn new(title: String, options: Vec<(String, T)>) -> (select: Select<T>)
        ensures
            select@.title == title@,
            select@.labels == options@.map_values(|o: (String, T)| o.0@),
            select@.values == options@.map_values(|o: (String, T)| o.1),
            select@.selected == 0,
            !select@.focused,
            select@.well_formed(),
    {
        Select { options, selected: 0, title, focused: false }
    }

    /// The selected value, where the selection points at one.
    pub fn selected_value(&self) -> (r: Option<T>)
        ensures
            r == self@.chosen(),
    {
        if self.selected < self.options.len() {
            Some(self.options[self.selected].1)
        } else {
            None
        }
    }

    /// The index of the selected option.
    pub fn selected_index(&self) -> (i: usize)
        ensures
            i == self@.selected,
    {
        self.selected
    }

    /// The number of options.
    pub fn len(&self) -> (n: usize)
        ensures
            n == self@.values.len(),
    {
        self.options.len()
    }

    /// The label of the option at `index`.
    pub fn label(&self, index: usize) -> (r: Option<String>)
        ensures
            match r {
                Some(label) => index < self@.labels.len() && label@ == self@.labels[index as int],
                None => index >= self@.labels.len(),
            },
    {
        if index < self.options.len() {
            Some(self.options[index].0.clone())
        } else {
            None
        }
    }

    /// The title of the list.
    pub fn title(&self) -> (s: &str)
        ensures
            s@ == self@.title,
    {
        self.title.as_str()
    }

    /// The label of the selected option, where the selection points at one.
    pub fn get_selected_label(&self) -> (r: Option<String>)
        ensures
            match r {
                Some(label) => 0 <= self@.selected < self@.labels.len() && label@
                    == self@.labels[self@.selected],
                None => self@.selected >= self@.labels.len(),
            },
    {
        self.label(self.selected)
    }

    /// Lets the list take an event, as [`SelectView::step`] defines it, and
    /// says whether it did.
    pub fn handle_event(&mut self, event: &Event) -> (handled: bool)
        ensures
            (final(self)@, handled) == old(self)@.step(*event),
            old(self)@.well_formed() ==> final(self)@.well_formed(),
    {
        if !self.focused {
            return false;
        }
        match event {
            Event::Key(key) => match key.code {
                KeyCode::Up => {
                    if self.selected > 0 {
                        self.selected = self.selected - 1;
                    }
                    true
                },
                KeyCode::Down => {
                    if self.options.len() > 0 && self.selected < self.options.len() - 1 {
                        self.selected = self.selected + 1;
                    }
                    true
                },
                _ => false,
            },
            Event::Other => false,
        }
    }

    /// Gives or takes the focus.
    pub fn set_focused(&mut self, focused: bool)
        ensures
            final(self)@ == (SelectView { focused, ..old(self)@ }),
    {
        self.focused = focused;
    }

    /// Whether the list has the focus.
    pub fn is_focused(&self) -> (b: bool)
        ensures
            b == self@.focused,
    {
        self.focused
    }

    /// Selects the option at `index`, where there is one.
    fn select_at(&mut self, index: usize)
        requires
            index < old(self)@.values.len(),
        ensures
            final(self)@ == (SelectView { selected: index as int, ..old(self)@ }),
    {
        self.selected = index;
    }
}

impl Select<Priority> {
    /// Selects the first option that holds `value`; where none does, the
    /// selection stays.
    pub fn set_selected(&mut self, value: &Priority)
        ensures
            final(self)@ == old(self)@.choosing(*value),
            old(self)@.well_formed() ==> final(self)@.well_formed(),
    {
        proof {
            crate::seqs::lemma_first_index(self@.values, equal_to(*value));
        }
        let mut i: usize = 0;
        while i < self.len()
            invariant
                i <= self@.values.len(),
                *self == *old(self),
                forall|j: int| 0 <= j < i ==> !equal_to(*value)(#[trigger] self@.values[j]),
            decreases self@.values.len() - i,
        {
            if self.options[i].1 == *value {
                proof {
                    assert(self@.values[i as int] == *value);
                    lemma_first_index_is(self@.values, equal_to(*value), i as int);
                }
                self.select_at(i);
                return ;
            }
            i += 1;
        }
        proof {
            lemma_first_index_is(self@.values, equal_to(*value), i as int);
        }
    }
}

impl Select<Status> {
    /// Selects the first option that holds `value`; where none does, the
    /// selection stays.
    pub fn set_selected(&mut self, value: &Status)
        ensures
            final(self)@ == old(self)@.choosing(*value),
            old(self)@.well_formed() ==> final(self)@.well_formed(),
    {
        proof {
            crate::seqs::lemma_first_index(self@.values, equal_to(*value));
        }
        let mut i: usize = 0;
        while i < self.len()
            invariant
                i <= self@.values.len(),
                *self == *old(self),
                forall|j: int| 0 <= j < i ==> !equal_to(*value)(#[trigger] self@.values[j]),
            decreases self@.values.len() - i,
        {
            if self.options[i].1 == *value {
                proof {
                    assert(self@.values[i as int] == *value);
                    lemma_first_index_is(self@.values, equal_to(*value), i as int);
                }
                self.select_at(i);
                return ;
            }
            i += 1;
        }
        proof {
            lemma_first_index_is(self@.values, equal_to(*value), i as int);
        }
    }
}

} // verus!
