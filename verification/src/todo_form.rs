//! The seven fields of the task form, and the task data read from them.

use crate::error::TodoError;
use crate::input::{Input, InputView};
use crate::keys::Event;
use crate::priority::Priority;
use crate::select::{Select, SelectView};
use crate::seqs::{equal_to, lemma_first_index_is};
use crate::status::Status;
use crate::tags::{normalized_tags, tags_check};
use crate::text::{is_blank, join, joined, lemma_trimmed_twice, strings_view, trim, trimmed};
use crate::textarea::{TextArea, TextAreaView};
use crate::todo::{
    category_check, notes_check, optional_text, project_check, title_check, Todo, TodoView,
};
use vstd::prelude::*;

verus! {

/// The number of fields of the form.
pub const FIELD_COUNT: usize = 7;

/// The fields of the task form, in the order of their focus: title,
/// priority, status, category, project, tags, notes.
pub struct TodoFormFields {
    pub title_input: Input,
    pub priority_select: Select<Priority>,
    pub status_select: Select<Status>,
    pub category_input: Input,
    pub project_input: Input,
    pub tags_input: Input,
    pub notes_textarea: TextArea,
}

/// The form as a mathematical value.
#[verifier::ext_equal]
pub struct FormView {
    pub title: InputView,
    pub priority: SelectView<Priority>,
    pub status: SelectView<Status>,
    pub category: InputView,
    pub project: InputView,
    pub tags: InputView,
    pub notes: TextAreaView,
}

impl View for TodoFormFields {
    type V = FormView;

    open spec fn view(&self) -> FormView {
        FormView {
            title: self.title_input@,
            priority: self.priority_select@,
            status: self.status_select@,
            category: self.category_input@,
            project: self.project_input@,
            tags: self.tags_input@,
            notes: self.notes_textarea@,
        }
    }
}

/// The task data that a form stands for, once it passed every check.
pub struct TodoFormData {
    pub title: String,
    pub priority: Priority,
    pub status: Status,
    pub category: Option<String>,
    pub project: Option<String>,
    pub tags: Vec<String>,
    pub notes: Option<String>,
}

/// Task data as a mathematical value.
#[verifier::ext_equal]
pub struct FormDataView {
    pub title: Seq<char>,
    pub priority: Priority,
    pub status: Status,
    pub category: Option<Seq<char>>,
    pub project: Option<Seq<char>>,
    pub tags: Seq<Seq<char>>,
    pub notes: Option<Seq<char>>,
}

impl View for TodoFormData {
    type V = FormDataView;

    open spec fn view(&self) -> FormDataView {
        FormDataView {
            title: self.title@,
            priority: self.priority,
            status: self.status,
            category: crate::todo::opt_text(self.category),
            project: crate::todo::opt_text(self.project),
            tags: strings_view(self.tags@),
            notes: crate::todo::opt_text(self.notes),
        }
    }
}

/// The tags that the tags field stands for: none where it is blank.
pub open spec fn form_tags(text: Seq<char>) -> Seq<Seq<char>> {
    if trimmed(text).len() == 0 {
        Seq::empty()
    } else {
        normalized_tags(text)
    }
}

/// The labels of the priorities that the form offers.
pub open spec fn priority_labels() -> Seq<Seq<char>> {
    seq![
        "P0 - Urgent"@,
        "P1 - Must have"@,
        "P2 - Should do"@,
        "P3 - Nice to have"@,
        "P4 - Wishlist"@,
        "P5 - Worth considering"@,
    ]
}

/// The priorities that the form offers.
pub open spec fn priority_values() -> Seq<Priority> {
    seq![Priority::P0, Priority::P1, Priority::P2, Priority::P3, Priority::P4, Priority::P5]
}

/// The labels of the statuses that the form offers.
pub open spec fn status_labels() -> Seq<Seq<char>> {
    seq!["Todo"@, "In Progress"@, "Done"@, "Archived"@]
}

/// The statuses that the form offers.
pub open spec fn status_values() -> Seq<Status> {
    seq![Status::Todo, Status::InProgress, Status::Done, Status::Archived]
}

/// An empty text field with the given placeholder.
pub open spec fn blank_input(placeholder: Seq<char>) -> InputView {
    InputView { value: Seq::empty(), cursor: 0, focused: false, placeholder }
}

/// The form as it starts: no text in any field, priority `P2` and status
/// `Todo` selected, and no field focused.
pub open spec fn blank_form() -> FormView {
    FormView {
        title: blank_input("Title"@),
        priority: SelectView {
            labels: priority_labels(),
            values: priority_values(),
            selected: 2,
            title: "Priority"@,
            focused: false,
        },
        status: SelectView {
            labels: status_labels(),
            values: status_values(),
            selected: 0,
            title: "Status"@,
            focused: false,
        },
        category: blank_input("Category"@),
        project: blank_input("Project"@),
        tags: blank_input("Tags (comma-separated)"@),
        notes: TextAreaView {
            content: Seq::empty(),
            cursor: 0,
            title: "Notes"@,
            focused: false,
            scroll: 0,
        },
    }
}

impl FormView {
    /// Every text field has its cursor within its text.
    pub open spec fn well_formed(self) -> bool {
        &&& self.title.well_formed()
        &&& self.category.well_formed()
        &&& self.project.well_formed()
        &&& self.tags.well_formed()
        &&& self.notes.well_formed()
        &&& self.priority.well_formed()
        &&& self.status.well_formed()
    }

    /// The form with the focus on the field at `index`, and on no field where
    /// `index` is none of the seven.
    pub open spec fn focused_on(self, index: int) -> FormView {
        FormView {
            title: InputView { focused: index == 0, ..self.title },
            priority: SelectView { focused: index == 1, ..self.priority },
            status: SelectView { focused: index == 2, ..self.status },
            category: InputView { focused: index == 3, ..self.category },
            project: InputView { focused: index == 4, ..self.project },
            tags: InputView { focused: index == 5, ..self.tags },
            notes: TextAreaView { focused: index == 6, ..self.notes },
        }
    }

    /// What an event does to the form when it is handed to the field at
    /// `index`, and whether that field took it. An index that is none of the
    /// seven takes nothing.
    pub open spec fn field_step(self, index: int, event: Event) -> (FormView, bool) {
        if index == 0 {
            (FormView { title: self.title.step(event).0, ..self }, self.title.step(event).1)
        } else if index == 1 {
            (
                FormView { priority: self.priority.step(event).0, ..self },
                self.priority.step(event).1,
            )
        } else if index == 2 {
            (FormView { status: self.status.step(event).0, ..self }, self.status.step(event).1)
        } else if index == 3 {
            (
                FormView { category: self.category.step(event).0, ..self },
                self.category.step(event).1,
            )
        } else if index == 4 {
            (FormView { project: self.project.step(event).0, ..self }, self.project.step(event).1)
        } else if index == 5 {
            (FormView { tags: self.tags.step(event).0, ..self }, self.tags.step(event).1)
        } else if index == 6 {
            (FormView { notes: self.notes.step(event).0, ..self }, self.notes.step(event).1)
        } else {
            (self, false)
        }
    }

    /// The task data that the form stands for, or the first fault found. The
    /// checks go in the order title, priority, status, category, project,
    /// tags, notes. The title is taken trimmed; category, project and notes
    /// are taken trimmed and count as absent where blank; the tags are
    /// normalized.
    pub open spec fn data(self) -> Result<FormDataView, TodoError> {
        if title_check(self.title.value) is Err {
            Err(title_check(self.title.value)->Err_0)
        } else if self.priority.chosen() is None {
            Err(TodoError::NoPrioritySelected)
        } else if self.status.chosen() is None {
            Err(TodoError::NoStatusSelected)
        } else if category_check(trimmed(self.category.value)) is Err {
            Err(category_check(trimmed(self.category.value))->Err_0)
        } else if project_check(trimmed(self.project.value)) is Err {
            Err(project_check(trimmed(self.project.value))->Err_0)
        } else if tags_check(form_tags(self.tags.value)) is Err {
            Err(tags_check(form_tags(self.tags.value))->Err_0)
        } else if notes_check(trimmed(self.notes.content)) is Err {
            Err(notes_check(trimmed(self.notes.content))->Err_0)
        } else {
            Ok(
                FormDataView {
                    title: trimmed(self.title.value),
                    priority: self.priority.chosen()->0,
                    status: self.status.chosen()->0,
                    category: optional_text(self.category.value),
                    project: optional_text(self.project.value),
                    tags: form_tags(self.tags.value),
                    notes: optional_text(self.notes.content),
                },
            )
        }
    }

    /// The form after the fields of `todo` were put into it. A field that
    /// the task does not have, and an empty tag list, leave the form's field
    /// as it is. A text put in has the cursor behind it.
    pub open spec fn loaded(self, todo: TodoView) -> FormView {
        FormView {
            title: InputView {
                value: todo.title,
                cursor: todo.title.len() as int,
                ..self.title
            },
            priority: self.priority.choosing(todo.priority),
            status: self.status.choosing(todo.status),
            category: match todo.category {
                Some(c) => InputView { value: c, cursor: c.len() as int, ..self.category },
                None => self.category,
            },
            project: match todo.project {
                Some(p) => InputView { value: p, cursor: p.len() as int, ..self.project },
                None => self.project,
            },
            tags: if todo.tags.len() > 0 {
                InputView {
                    value: joined(todo.tags, ","@),
                    cursor: joined(todo.tags, ","@).len() as int,
                    ..self.tags
                }
            } else {
                self.tags
            },
            notes: match todo.notes {
                Some(n) => TextAreaView { content: n, cursor: n.len() as int, ..self.notes },
                None => self.notes,
            },
        }
    }
}

/// Task data that came out of a form passes every check of the task rules:
/// its title is trimmed, not empty and within the limit; category, project
/// and notes are within their limits where there are any; and the tags are
/// within the limit, free of spaces, and none occurs twice.
pub proof fn lemma_form_data_passes_checks(form: FormView)
    requires
        form.data() is Ok,
    ensures
        title_check(form.data()->Ok_0.title) is Ok,
        trimmed(form.data()->Ok_0.title) == form.data()->Ok_0.title,
        form.data()->Ok_0.category is Some ==> category_check(form.data()->Ok_0.category->0) is Ok,
        form.data()->Ok_0.project is Some ==> project_check(form.data()->Ok_0.project->0) is Ok,
        form.data()->Ok_0.notes is Some ==> notes_check(form.data()->Ok_0.notes->0) is Ok,
        tags_check(form.data()->Ok_0.tags) is Ok,
        form.data()->Ok_0.tags.no_duplicates(),
{
    lemma_trimmed_twice(form.title.value);
    if trimmed(form.tags.value).len() > 0 {
        crate::tags::lemma_normalized_tags_no_duplicates(
            crate::text::split_on(form.tags.value, ','),
        );
    }
}

/// The priorities that the form offers, each with its label.
fn priority_options() -> (options: Vec<(String, Priority)>)
    ensures
        options@.map_values(|o: (String, Priority)| o.0@) == priority_labels(),
        options@.map_values(|o: (String, Priority)| o.1) == priority_values(),
{
    let mut options: Vec<(String, Priority)> = Vec::new();
    options.push(("P0 - Urgent".to_owned(), Priority::P0));
    options.push(("P1 - Must have".to_owned(), Priority::P1));
    options.push(("P2 - Should do".to_owned(), Priority::P2));
    options.push(("P3 - Nice to have".to_owned(), Priority::P3));
    options.push(("P4 - Wishlist".to_owned(), Priority::P4));
    options.push(("P5 - Worth considering".to_owned(), Priority::P5));
    proof {
        assert(options@.map_values(|o: (String, Priority)| o.0@) =~= priority_labels());
        assert(options@.map_values(|o: (String, Priority)| o.1) =~= priority_values());
    }
    options
}

/// The statuses that the form offers, each with its label.
fn status_options() -> (options: Vec<(String, Status)>)
    ensures
        options@.map_values(|o: (String, Status)| o.0@) == status_labels(),
        options@.map_values(|o: (String, Status)| o.1) == status_values(),
{
    let mut options: Vec<(String, Status)> = Vec::new();
    options.push(("Todo".to_owned(), Status::Todo));
    options.push(("In Progress".to_owned(), Status::InProgress));
    options.push(("Done".to_owned(), Status::Done));
    options.push(("Archived".to_owned(), Status::Archived));
    proof {
        assert(options@.map_values(|o: (String, Status)| o.0@) =~= status_labels());
        assert(options@.map_values(|o: (String, Status)| o.1) =~= status_values());
    }
    options
}

impl TodoFormFields {
    /// The form as it starts: see [`blank_form`].
    pub fn new() -> (fields: Self)
        ensures
            fields@ == blank_form(),
            fields@.well_formed(),
    {
        let mut fields = Self {
            title_input: Input::new("Title"),
            priority_select: Select::new("Priority".to_owned(), priority_options()),
            status_select: Select::new("Status".to_owned(), status_options()),
            category_input: Input::new("Category"),
            project_input: Input::new("Project"),
            tags_input: Input::new("Tags (comma-separated)"),
            notes_textarea: TextArea::new("Notes".to_owned()),
        };
        proof {
            lemma_first_index_is(fields@.priority.values, equal_to(Priority::P2), 2);
            lemma_first_index_is(fields@.status.values, equal_to(Status::Todo), 0);
        }
        fields.priority_select.set_selected(&Priority::P2);
        fields.status_select.set_selected(&Status::Todo);
        fields
    }

    /// The form with `title` in its title field.
    pub fn with_title(self, title: String) -> (fields: Self)
        ensures
            fields@ == (FormView {
                title: InputView {
                    value: title@,
                    cursor: title@.len() as int,
                    ..self@.title
                },
                ..self@
            }),
            self@.well_formed() ==> fields@.well_formed(),
    {
        let mut fields = self;
        let input = fields.title_input;
        fields.title_input = input.with_value(title);
        fields
    }

    /// Puts the fields of `todo` into the form, as [`FormView::loaded`]
    /// defines it.
    pub fn load_from_todo(&mut self, todo: &Todo)
        ensures
            final(self)@ == old(self)@.loaded(todo@),
            old(self)@.well_formed() ==> final(self)@.well_formed(),
    {
        self.title_input = self.title_input.clone().with_value(todo.title.clone());
        self.priority_select.set_selected(&todo.priority);
        self.status_select.set_selected(&todo.status);
        if let Some(category) = &todo.category {
            self.category_input = self.category_input.clone().with_value(category.clone());
        }
        if let Some(project) = &todo.project {
            self.project_input = self.project_input.clone().with_value(project.clone());
        }
        if todo.tags.len() > 0 {
            self.tags_input = self.tags_input.clone().with_value(join(&todo.tags, ","));
        }
        if let Some(notes) = &todo.notes {
            self.notes_textarea.set_content(notes.clone());
        }
    }

    /// Takes the focus from every field.
    pub fn clear_focus(&mut self)
        ensures
            final(self)@ == old(self)@.focused_on(-1),
    {
        self.title_input.set_focused(false);
        self.priority_select.set_focused(false);
        self.status_select.set_focused(false);
        self.category_input.set_focused(false);
        self.project_input.set_focused(false);
        self.tags_input.set_focused(false);
        self.notes_textarea.set_focused(false);
    }

    /// Gives the focus to the field at `field_index` and takes it from the
    /// others; an index that is none of the seven leaves no field focused.
    pub fn set_field_focus(&mut self, field_index: usize)
        ensures
            final(self)@ == old(self)@.focused_on(
                if field_index < FIELD_COUNT {
                    field_index as int
                } else {
                    -1
                },
            ),
    {
        self.clear_focus();
        if field_index == 0 {
            self.title_input.set_focused(true);
        } else if field_index == 1 {
            self.priority_select.set_focused(true);
        } else if field_index == 2 {
            self.status_select.set_focused(true);
        } else if field_index == 3 {
            self.category_input.set_focused(true);
        } else if field_index == 4 {
            self.project_input.set_focused(true);
        } else if field_index == 5 {
            self.tags_input.set_focused(true);
        } else if field_index == 6 {
            self.notes_textarea.set_focused(true);
        }
    }

    /// Hands an event to the field at `field_index`, as
    /// [`FormView::field_step`] defines it, and says whether the field took
    /// it.
    pub fn handle_field_event(&mut self, field_index: usize, event: &Event) -> (handled: bool)
        requires
            old(self)@.well_formed(),
        ensures
            (final(self)@, handled) == old(self)@.field_step(field_index as int, *event),
            final(self)@.well_formed(),
    {
        if field_index == 0 {
            self.title_input.handle_event(event)
        } else if field_index == 1 {
            self.priority_select.handle_event(event)
        } else if field_index == 2 {
            self.status_select.handle_event(event)
        } else if field_index == 3 {
            self.category_input.handle_event(event)
        } else if field_index == 4 {
            self.project_input.handle_event(event)
        } else if field_index == 5 {
            self.tags_input.handle_event(event)
        } else if field_index == 6 {
            self.notes_textarea.handle_event(event)
        } else {
            false
        }
    }
}

/// A trimmed optional field after its check: see [`optional_text`].
fn checked_optional(text: &str) -> (r: Option<String>)
    ensures
        crate::todo::opt_text(r) == optional_text(text@),
{
    if is_blank(text) {
        None
    } else {
        Some(trim(text))
    }
}

impl TodoFormData {
    /// Reads the task data from the form, as [`FormView::data`] defines it.
    pub fn from_fields(fields: &TodoFormFields) -> (r: Result<TodoFormData, TodoError>)
        ensures
            match fields@.data() {
                Ok(data) => r is Ok && r->Ok_0@ == data,
                Err(e) => r == Err::<TodoFormData, TodoError>(e),
            },
    {
        let title = trim(fields.title_input.value.as_str());
        proof {
            lemma_trimmed_twice(fields.title_input.value@);
        }
        match Todo::validate_title(title.as_str()) {
            Ok(_) => {},
            Err(e) => {
                return Err(e);
            },
        }
        let priority = match fields.priority_select.selected_value() {
            Some(p) => p,
            None => {
                return Err(TodoError::NoPrioritySelected);
            },
        };
        let status = match fields.status_select.selected_value() {
            Some(s) => s,
            None => {
                return Err(TodoError::NoStatusSelected);
            },
        };
        let category = checked_optional(fields.category_input.value.as_str());
        if let Some(cat) = &category {
            match Todo::validate_category(cat.as_str()) {
                Ok(_) => {},
                Err(e) => {
                    return Err(e);
                },
            }
        }
        let project = checked_optional(fields.project_input.value.as_str());
        if let Some(proj) = &project {
            match Todo::validate_project(proj.as_str()) {
                Ok(_) => {},
                Err(e) => {
                    return Err(e);
                },
            }
        }
        let tags = if is_blank(fields.tags_input.value.as_str()) {
            let none: Vec<String> = Vec::new();
            proof {
                assert(strings_view(none@) =~= Seq::<Seq<char>>::empty());
            }
            none
        } else {
            match Todo::validate_and_normalize_tags(fields.tags_input.value.as_str()) {
                Ok(tags) => tags,
                Err(e) => {
                    return Err(e);
                },
            }
        };
        let notes = checked_optional(fields.notes_textarea.content());
        if let Some(text) = &notes {
            match Todo::validate_notes(text.as_str()) {
                Ok(_) => {},
                Err(e) => {
                    return Err(e);
                },
            }
        }
        Ok(TodoFormData { title, priority, status, category, project, tags, notes })
    }
}

} // verus!
