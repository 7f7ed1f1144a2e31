//! The form that edits a task.

use crate::error::TodoError;
use crate::field_manager::FieldManager;
use crate::form_flow::{form_step, step_form, FormAction, FormState};
use crate::keys::Event;
use crate::text::{join, joined};
use crate::time::Timestamp;
use crate::todo::{updated_todo, TodoView};
use crate::todo_form::{blank_form, FormDataView, TodoFormData, TodoFormFields, FIELD_COUNT};
use crate::todo_list::{position_of, todo_views, TodoList, TodoListView};
use vstd::prelude::*;

verus! {

/// The form that edits a task: its fields, which one is focused, and the id
/// of the task.
pub struct TodoEditor {
    fields: TodoFormFields,
    field_manager: FieldManager,
    todo_id: u32,
}

/// The tag delta that the tags of a form are handed on as: none where there
/// are no tags, else the tags joined by commas. A tag is applied only where
/// it begins with `+` or `-`, so plain tags leave the task's tags alone.
pub open spec fn tags_delta(tags: Seq<Seq<char>>) -> Option<Seq<char>> {
    if tags.len() == 0 {
        None
    } else {
        Some(joined(tags, ","@))
    }
}

/// The outcome of saving the data of a form to the task with the id `id`, at
/// time `now`. Where no task has the id nothing changes and the id is
/// reported as not found. Else the first task with the id is updated from
/// the names of the form's status and priority, the tags as a delta, and
/// category, project and notes where the form has them; and where that
/// worked the title is replaced.
pub open spec fn edit_outcome(list: TodoListView, id: u32, data: FormDataView, now: Timestamp) -> (
    TodoListView,
    Result<(), TodoError>,
) {
    let i = position_of(list.todos, id);
    if i < list.todos.len() {
        let (todo, verdict) = updated_todo(
            list.todos[i],
            Some(data.status.label_text()),
            Some(data.priority.label_text()),
            tags_delta(data.tags),
            data.category,
            data.project,
            data.notes,
            now,
        );
        let titled = if verdict is Ok {
            TodoView { title: data.title, ..todo }
        } else {
            todo
        };
        (TodoListView { todos: list.todos.update(i, titled), ..list }, verdict)
    } else {
        (list, Err(TodoError::NotFound { id }))
    }
}

/// The form that edits a task, as a mathematical value: the form in use and
/// the id of the task.
pub struct EditorView {
    pub state: FormState,
    pub todo_id: u32,
}

impl View for TodoEditor {
    type V = EditorView;

    closed spec fn view(&self) -> EditorView {
        EditorView {
            state: FormState {
                form: self.fields@,
                focus: self.field_manager.focus(),
                count: self.field_manager.count(),
            },
            todo_id: self.todo_id,
        }
    }
}

impl TodoEditor {
    /// A form that holds the first task with the id `todo_id`, with the focus
    /// on the title; where no task has the id, that is the error.
    pub fn new(todo_id: u32, list: &TodoList) -> (r: Result<Self, TodoError>)
        ensures
            match r {
                Ok(editor) => {
                    &&& position_of(list@.todos, todo_id) < list@.todos.len()
                    &&& editor@.state.well_formed()
                    &&& editor@.todo_id == todo_id
                    &&& editor@.state.focus == 0
                    &&& editor@.state.form == blank_form().loaded(
                        list@.todos[position_of(list@.todos, todo_id)],
                    ).focused_on(0)
                },
                Err(e) => e == (TodoError::NotFound { id: todo_id }) && position_of(
                    list@.todos,
                    todo_id,
                ) == list@.todos.len(),
            },
    {
        let mut fields = TodoFormFields::new();
        match list.get_todo(todo_id) {
            Some(todo) => {
                fields.load_from_todo(todo);
                let field_manager = FieldManager::new(FIELD_COUNT);
                fields.set_field_focus(field_manager.focused_field());
                proof {
                    assert(todo@ == list@.todos[position_of(list@.todos, todo_id)]);
                }
                Ok(Self { fields, field_manager, todo_id })
            },
            None => Err(TodoError::NotFound { id: todo_id }),
        }
    }

    /// The fields of the form.
    pub fn fields(&self) -> (fields: &TodoFormFields)
        ensures
            fields@ == self@.state.form,
    {
        &self.fields
    }

    /// The index of the focused field.
    pub fn focused_field(&self) -> (index: usize)
        ensures
            index == self@.state.focus,
    {
        self.field_manager.focused_field()
    }

    /// The id of the task that is edited.
    pub fn todo_id(&self) -> (id: u32)
        ensures
            id == self@.todo_id,
    {
        self.todo_id
    }

    /// Lets the form answer an event, as [`form_step`] defines it for a form
    /// with the archive key, and says what the caller is to do.
    pub fn handle_event(&mut self, event: &Event) -> (action: FormAction)
        requires
            old(self)@.state.well_formed(),
        ensures
            final(self)@.state.well_formed(),
            final(self)@.todo_id == old(self)@.todo_id,
            (final(self)@.state, action) == form_step(old(self)@.state, *event, true),
    {
        step_form(&mut self.fields, &mut self.field_manager, event, true)
    }

    /// Saves what the form stands for to the edited task, at time `now`, as
    /// [`edit_outcome`] defines it. Where the form has a fault, the fault is
    /// returned and the collection stays as it is.
    pub fn save_todo(&self, list: &mut TodoList, now: Timestamp) -> (r: Result<(), TodoError>)
        ensures
            match self@.state.form.data() {
                Ok(data) => (final(list)@, r) == edit_outcome(old(list)@, self@.todo_id, data, now),
                Err(e) => r == Err::<(), TodoError>(e) && final(list)@ == old(list)@,
            },
            old(list)@.well_formed() ==> final(list)@.well_formed(),
    {
        let form_data = match TodoFormData::from_fields(&self.fields) {
            Ok(data) => data,
            Err(e) => {
                return Err(e);
            },
        };
        let tags_string = if form_data.tags.len() == 0 {
            None
        } else {
            Some(join(&form_data.tags, ","))
        };
        match list.position(self.todo_id) {
            Some(i) => {
                let ghost before = list.todos@;
                let r = list.todos[i].apply_update(
                    Some(form_data.status.label()),
                    Some(form_data.priority.label()),
                    tags_string,
                    form_data.category,
                    form_data.project,
                    form_data.notes,
                    now,
                );
                if r.is_ok() {
                    list.todos[i].title = form_data.title;
                }
                proof {
                    assert(todo_views(list.todos@) =~= todo_views(before).update(
                        i as int,
                        list.todos@[i as int]@,
                    ));
                }
                r
            },
            None => Err(TodoError::NotFound { id: self.todo_id }),
        }
    }
}

} // verus!
