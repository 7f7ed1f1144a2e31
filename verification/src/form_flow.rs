//! How the task form answers an event: the rules shared by the form that adds
//! a task and the form that edits one.

use crate::field_manager::{moves_back, moves_forward, next_focus, previous_focus, FieldManager};
use crate::keys::{Event, KeyCode};
use crate::status::Status;
use crate::todo_form::{FormView, TodoFormFields, FIELD_COUNT};
use vstd::prelude::*;

verus! {

/// What the caller of a form is to do after an event.
#[derive(Clone, Copy, Debug, PartialEq, Eq, Structural)]
pub enum FormAction {
    /// Go on with the form.
    Continue,
    /// Save, and leave the form whether or not saving worked.
    SaveAndExit,
    /// Save, and leave the form only if saving worked.
    SaveThenExitIfSaved,
}

impl FormAction {
    /// Whether the form is left, given whether saving worked.
    pub open spec fn leaves_form(self, saved: bool) -> bool {
        match self {
            FormAction::Continue => false,
            FormAction::SaveAndExit => true,
            FormAction::SaveThenExitIfSaved => saved,
        }
    }

    /// Whether the action asks for saving.
    pub open spec fn saves(self) -> bool {
        self != FormAction::Continue
    }

    /// Whether the action asks for saving.
    pub fn asks_save(&self) -> (b: bool)
        ensures
            b == self.saves(),
    {
        match self {
            FormAction::Continue => false,
            _ => true,
        }
    }

    /// Whether the form is left, given whether saving worked.
    pub fn should_quit(&self, saved: bool) -> (b: bool)
        ensures
            b == self.leaves_form(saved),
    {
        match self {
            FormAction::Continue => false,
            FormAction::SaveAndExit => true,
            FormAction::SaveThenExitIfSaved => saved,
        }
    }
}

/// Enter was pressed, with whatever modifiers.
pub open spec fn is_enter(event: Event) -> bool {
    event matches Event::Key(key) && key.code == KeyCode::Enter
}

/// The event is the character `c` with control alone.
pub open spec fn is_control(event: Event, c: char) -> bool {
    event matches Event::Key(key) && key.code == KeyCode::Char(c) && key.modifiers.control_only()
}

/// The event asks to leave the form: control-x, or Esc without a modifier.
pub open spec fn asks_exit(event: Event) -> bool {
    is_control(event, 'x') || (event matches Event::Key(key) && key.code == KeyCode::Esc
        && key.modifiers.none())
}

/// A form in use: its fields, the index of the focused one, and the number
/// of fields that the focus goes round.
pub struct FormState {
    pub form: FormView,
    pub focus: int,
    pub count: int,
}

impl FormState {
    /// The form has its seven fields, each text field with its cursor within
    /// its text.
    pub open spec fn well_formed(self) -> bool {
        self.form.well_formed() && self.count == FIELD_COUNT
    }
}

/// What an event does to a form, and what the caller is to do. The rules are
/// tried in this order. Enter while the title is focused asks to save and
/// leave if that works. Tab and shift-BackTab move the focus round. An event
/// that the focused field takes is done with. Control-x and Esc ask to save
/// and leave; control-s asks to save and leave if that works. Where the form
/// has the archive key, control-r selects the status `Archived`. Anything
/// else changes nothing.
pub open spec fn form_step(state: FormState, event: Event, archive_key: bool) -> (
    FormState,
    FormAction,
) {
    if is_enter(event) && state.focus == 0 {
        (state, FormAction::SaveThenExitIfSaved)
    } else if moves_forward(event) {
        let focus = next_focus(state.focus, state.count);
        (FormState { form: state.form.focused_on(focus), focus, ..state }, FormAction::Continue)
    } else if moves_back(event) {
        let focus = previous_focus(state.focus, state.count);
        (FormState { form: state.form.focused_on(focus), focus, ..state }, FormAction::Continue)
    } else if state.form.field_step(state.focus, event).1 {
        (
            FormState { form: state.form.field_step(state.focus, event).0, ..state },
            FormAction::Continue,
        )
    } else if asks_exit(event) {
        (state, FormAction::SaveAndExit)
    } else if is_control(event, 's') {
        (state, FormAction::SaveThenExitIfSaved)
    } else if archive_key && is_control(event, 'r') {
        (
            FormState {
                form: FormView { status: state.form.status.choosing(Status::Archived), ..state.form },
                ..state
            },
            FormAction::Continue,
        )
    } else {
        (state, FormAction::Continue)
    }
}

/// Whether the event is the character `c` with control alone.
fn control_key(event: &Event, c: char) -> (b: bool)
    ensures
        b == is_control(*event, c),
{
    match event {
        Event::Key(key) => key.code == KeyCode::Char(c) && key.modifiers.is_control_only(),
        Event::Other => false,
    }
}

/// Lets a form answer an event, as [`form_step`] defines it.
pub(crate) fn step_form(
    fields: &mut TodoFormFields,
    manager: &mut FieldManager,
    event: &Event,
    archive_key: bool,
) -> (action: FormAction)
    requires
        old(fields)@.well_formed(),
        old(manager).count() == FIELD_COUNT,
    ensures
        final(fields)@.well_formed(),
        final(manager).count() == FIELD_COUNT,
        (
            FormState {
                form: final(fields)@,
                focus: final(manager).focus(),
                count: final(manager).count(),
            },
            action,
        ) == form_step(
            FormState {
                form: old(fields)@,
                focus: old(manager).focus(),
                count: old(manager).count(),
            },
            *event,
            archive_key,
        ),
{
    let focused = manager.focused_field();
    if let Event::Key(key) = event {
        if key.code == KeyCode::Enter && focused == 0 {
            return FormAction::SaveThenExitIfSaved;
        }
    }
    if manager.handle_navigation_event(event) {
        fields.set_field_focus(manager.focused_field());
        return FormAction::Continue;
    }
    if fields.handle_field_event(focused, event) {
        return FormAction::Continue;
    }
    let leave = match event {
        Event::Key(key) => key.code == KeyCode::Esc && key.modifiers.is_none(),
        Event::Other => false,
    };
    if control_key(event, 'x') || leave {
        return FormAction::SaveAndExit;
    }
    if control_key(event, 's') {
        return FormAction::SaveThenExitIfSaved;
    }
    if archive_key && control_key(event, 'r') {
        fields.status_select.set_selected(&Status::Archived);
    }
    FormAction::Continue
}

} // verus!
