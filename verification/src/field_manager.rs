//! Which field of a form has the focus.

use crate::keys::{Event, KeyCode};
use vstd::prelude::*;

verus! {

/// The focus of a form with a fixed number of fields: the index of the
/// focused field, moved round in a circle.
pub struct FieldManager {
    focused_field: usize,
    field_count: usize,
}

/// The event moves the focus on: Tab without a modifier.
pub open spec fn moves_forward(event: Event) -> bool {
    event matches Event::Key(key) && key.code == KeyCode::Tab && key.modifiers.none()
}

/// The event moves the focus back: BackTab with shift alone.
pub open spec fn moves_back(event: Event) -> bool {
    event matches Event::Key(key) && key.code == KeyCode::BackTab && key.modifiers.shift_only()
}

/// The index that follows `focus` among `count` fields, the first after the
/// last.
pub open spec fn next_focus(focus: int, count: int) -> int {
    if focus + 1 < count {
        focus + 1
    } else {
        0
    }
}

/// The index that goes before `focus` among `count` fields, the last before
/// the first.
pub open spec fn previous_focus(focus: int, count: int) -> int {
    if focus == 0 {
        count - 1
    } else {
        focus - 1
    }
}

impl FieldManager {
    /// The focused index lies among the fields, and is 0 where there are none.
    #[verifier::type_invariant]
    spec fn in_range(self) -> bool {
        self.focused_field < self.field_count || (self.field_count == 0 && self.focused_field
            == 0)
    }

    /// The index of the focused field.
    pub closed spec fn focus(self) -> int {
        self.focused_field as int
    }

    /// The number of fields.
    pub closed spec fn count(self) -> int {
        self.field_count as int
    }

    /// A form of `field_count` fields with the focus on the first.
    pub fn new(field_count: usize) -> (manager: Self)
        ensures
            manager.focus() == 0,
            manager.count() == field_count,
    {
        Self { focused_field: 0, field_count }
    }

    /// The index of the focused field.
    pub fn focused_field(&self) -> (index: usize)
        ensures
            index == self.focus(),
            self.count() > 0 ==> index < self.count(),
    {
        proof {
            use_type_invariant(self);
        }
        self.focused_field
    }

    /// The number of fields.
    pub fn field_count(&self) -> (n: usize)
        ensures
            n == self.count(),
    {
        self.field_count
    }

    /// Moves the focus to the next field, and from the last to the first.
    pub fn focus_next_field(&mut self)
        requires
            old(self).count() > 0,
        ensures
            final(self).count() == old(self).count(),
            final(self).focus() == next_focus(old(self).focus(), old(self).count()),
            final(self).focus() == (old(self).focus() + 1) % old(self).count(),
    {
        proof {
            use_type_invariant(&*self);
            let next = self.focused_field + 1;
            if next < self.field_count {
                vstd::arithmetic::div_mod::lemma_small_mod(next as nat, self.field_count as nat);
            } else {
                vstd::arithmetic::div_mod::lemma_mod_self_0(self.field_count as int);
            }
        }
        self.focused_field = (self.focused_field + 1) % self.field_count;
    }

    /// Moves the focus to the field before, and from the first to the last.
    pub fn focus_previous_field(&mut self)
        requires
            old(self).count() > 0,
        ensures
            final(self).count() == old(self).count(),
            final(self).focus() == previous_focus(old(self).focus(), old(self).count()),
    {
        proof {
            use_type_invariant(&*self);
        }
        self.focused_field = if self.focused_field == 0 {
            self.field_count - 1
        } else {
            self.focused_field - 1
        };
    }

    /// Moves the focus to `field_index` where that is a field; else the focus
    /// stays.
    pub fn set_focused_field(&mut self, field_index: usize)
        ensures
            final(self).count() == old(self).count(),
            final(self).focus() == if field_index < old(self).count() {
                field_index as int
            } else {
                old(self).focus()
            },
    {
        if field_index < self.field_count {
            self.focused_field = field_index;
        }
    }

    /// Moves the focus where the event is a navigation key, and says whether
    /// it was one.
    pub fn handle_navigation_event(&mut self, event: &Event) -> (handled: bool)
        requires
            old(self).count() > 0,
        ensures
            final(self).count() == old(self).count(),
            handled == (moves_forward(*event) || moves_back(*event)),
            final(self).focus() == if moves_forward(*event) {
                next_focus(old(self).focus(), old(self).count())
            } else if moves_back(*event) {
                previous_focus(old(self).focus(), old(self).count())
            } else {
                old(self).focus()
            },
    {
        match event {
            Event::Key(key) => {
                if key.code == KeyCode::Tab && key.modifiers.is_none() {
                    self.focus_next_field();
                    true
                } else if key.code == KeyCode::BackTab && key.modifiers.is_shift_only() {
                    self.focus_previous_field();
                    true
                } else {
                    false
                }
            },
            Event::Other => false,
        }
    }
}

} // verus!
