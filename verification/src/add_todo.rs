//! The form that adds a task.

use crate::error::TodoError;
use crate::field_manager::FieldManager;
use crate::form_flow::{form_step, step_form, FormAction, FormState};
use crate::input::InputView;
use crate::keys::Event;
use crate::time::Timestamp;
use crate::todo::TodoView;
use crate::todo_form::{
    blank_form, FormDataView, FormView, TodoFormData, TodoFormFields, FIELD_COUNT,
};
use crate::todo_list::{TodoList, TodoListView};
use vstd::prelude::*;

verus! {

/// The form that adds a task: its fields and which one is focused.
pub struct TodoCreator {
    fields: TodoFormFields,
    field_manager: FieldManager,
}

/// The task that the data of a form makes at time `now`, with the id `id`:
/// a fresh task with the form's title, given the form's priority, tags,
/// category, project and notes, and brought to the form's status as any
/// status change is.
pub open spec fn created_from(data: FormDataView, id: u32, now: Timestamp) -> TodoView {
    let fresh = TodoView::fresh(data.title, now).with_id(id);
    TodoView {
        priority: data.priority,
        category: data.category,
        project: data.project,
        tags: data.tags,
        notes: data.notes,
        ..fresh.with_status(data.status, now)
    }
}

/// A task made from a form that passed its checks keeps the rules of the
/// task record.
pub proof fn lemma_created_task_is_within_limits(form: FormView, id: u32, now: Timestamp)
    requires
        form.data() is Ok,
    ensures
        created_from(form.data()->Ok_0, id, now).within_limits(),
{
    crate::todo_form::lemma_form_data_passes_checks(form);
}

impl View for TodoCreator {
    type V = FormState;

    closed spec fn view(&self) -> FormState {
        FormState {
            form: self.fields@,
            focus: self.field_manager.focus(),
            count: self.field_manager.count(),
        }
    }
}

impl TodoCreator {
    /// A form that starts blank, with the title filled in where one is given
    /// and the focus on the title.
    pub fn new(title: Option<String>) -> (creator: Self)
        ensures
            creator@.well_formed(),
            creator@ == (FormState {
                form: match title {
                    Some(t) => FormView {
                        title: InputView { value: t@, cursor: t@.len() as int, ..blank_form().title },
                        ..blank_form()
                    },
                    None => blank_form(),
                }.focused_on(0),
                focus: 0,
                count: FIELD_COUNT as int,
            }),
    {
        let mut fields = TodoFormFields::new();
        if let Some(title) = title {
            fields = fields.with_title(title);
        }
        let field_manager = FieldManager::new(FIELD_COUNT);
        fields.set_field_focus(field_manager.focused_field());
        Self { fields, field_manager }
    }

    /// The fields of the form.
    pub fn fields(&self) -> (fields: &TodoFormFields)
        ensures
            fields@ == self@.form,
    {
        &self.fields
    }

    /// The index of the focused field.
    pub fn focused_field(&self) -> (index: usize)
        ensures
            index == self@.focus,
    {
        self.field_manager.focused_field()
    }

    /// Lets the form answer an event, as [`form_step`] defines it for a form
    /// without the archive key, and says what the caller is to do.
    pub fn handle_event(&mut self, event: &Event) -> (action: FormAction)
        requires
            old(self)@.well_formed(),
        ensures
            final(self)@.well_formed(),
            (final(self)@, action) == form_step(old(self)@, *event, false),
    {
        step_form(&mut self.fields, &mut self.field_manager, event, false)
    }

    /// Puts the task that the form stands for into the collection, with the
    /// next id and created at `now`. Where the form has a fault, the fault is
    /// returned and the collection stays as it is.
    pub fn save_todo(&self, list: &mut TodoList, now: Timestamp) -> (r: Result<(), TodoError>)
        requires
            old(list).next_id < u32::MAX,
        ensures
            match self@.form.data() {
                Ok(data) => r == Ok::<(), TodoError>(()) && final(list)@ == (TodoListView {
                    next_id: (old(list).next_id + 1) as u32,
                    todos: old(list)@.todos.push(created_from(data, old(list).next_id, now)),
                }),
                Err(e) => r == Err::<(), TodoError>(e) && final(list)@ == old(list)@,
            },
            old(list)@.well_formed() ==> final(list)@.well_formed(),
    {
        let form_data = match TodoFormData::from_fields(&self.fields) {
            Ok(data) => data,
            Err(e) => {
                return Err(e);
            },
        };
        let mut todo = list.create_todo_at(form_data.title, now);
        todo.priority = form_data.priority;
        todo.set_status(form_data.status, now);
        todo.category = form_data.category;
        todo.project = form_data.project;
        todo.tags = form_data.tags;
        todo.notes = form_data.notes;
        list.add_todo(todo);
        Ok(())
    }
}

} // verus!
