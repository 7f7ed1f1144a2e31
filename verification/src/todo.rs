//! The task record and the rules its fields obey.

use crate::error::{ErrorKind, TodoError};
use crate::priority::{parse_priority, priority_named, Priority};
use crate::status::{parse_status, status_named, Status};
use crate::tags;
use crate::text::{
    char_count, lemma_trimmed_is_no_longer, lemma_trimmed_twice, lowercase, strings_view, trim,
    trimmed,
};
use crate::time::Timestamp;
use vstd::prelude::*;

verus! {

/// The most characters a trimmed title may have.
pub const MAX_TITLE_LENGTH: usize = 200;

/// The most characters a category may have.
pub const MAX_CATEGORY_LENGTH: usize = 50;

/// The most characters a project may have.
pub const MAX_PROJECT_LENGTH: usize = 100;

/// The most characters the notes may have.
pub const MAX_NOTES_LENGTH: usize = 2000;

/// One trackable item of work.
#[derive(Debug)]
pub struct Todo {
    /// Given by the collection when the task is created; 0 until then.
    pub id: u32,
    pub title: String,
    pub priority: Priority,
    pub status: Status,
    pub tags: Vec<String>,
    pub category: Option<String>,
    pub project: Option<String>,
    pub created_date: Timestamp,
    /// Set while the task counts as finished; see [`finished_after`].
    pub finished_date: Option<Timestamp>,
    pub notes: Option<String>,
}

/// A task as a mathematical value: every text is its sequence of characters.
#[verifier::ext_equal]
pub struct TodoView {
    pub id: u32,
    pub title: Seq<char>,
    pub priority: Priority,
    pub status: Status,
    pub tags: Seq<Seq<char>>,
    pub category: Option<Seq<char>>,
    pub project: Option<Seq<char>>,
    pub created_date: Timestamp,
    pub finished_date: Option<Timestamp>,
    pub notes: Option<Seq<char>>,
}

/// The view of an optional text.
pub open spec fn opt_text(o: Option<String>) -> Option<Seq<char>> {
    match o {
        Some(s) => Some(s@),
        None => None,
    }
}

impl View for Todo {
    type V = TodoView;

    open spec fn view(&self) -> TodoView {
        TodoView {
            id: self.id,
            title: self.title@,
            priority: self.priority,
            status: self.status,
            tags: strings_view(self.tags@),
            category: opt_text(self.category),
            project: opt_text(self.project),
            created_date: self.created_date,
            finished_date: self.finished_date,
            notes: opt_text(self.notes),
        }
    }
}

/// The finish time of a task whose status goes from `old_status` to
/// `new_status` at time `now`. Entering `Done` from an active status stamps
/// it, leaving `Done` for an active status clears it, and every other change,
/// each one that involves `Archived` among them, keeps what was there.
pub open spec fn finished_after(
    old_status: Status,
    new_status: Status,
    finished: Option<Timestamp>,
    now: Timestamp,
) -> Option<Timestamp> {
    if new_status == Status::Done && old_status.active() {
        Some(now)
    } else if new_status.active() && old_status == Status::Done {
        None
    } else {
        finished
    }
}

/// The verdict on a title: it is judged by what is left after trimming.
pub open spec fn title_check(title: Seq<char>) -> Result<(), TodoError> {
    let t = trimmed(title);
    if t.len() == 0 {
        Err(TodoError::EmptyTitle)
    } else if t.len() > MAX_TITLE_LENGTH {
        Err(TodoError::TitleTooLong { len: t.len() as usize })
    } else {
        Ok(())
    }
}

/// The verdict on a category.
pub open spec fn category_check(category: Seq<char>) -> Result<(), TodoError> {
    if category.len() > MAX_CATEGORY_LENGTH {
        Err(TodoError::CategoryTooLong { len: category.len() as usize })
    } else {
        Ok(())
    }
}

/// The verdict on a project.
pub open spec fn project_check(project: Seq<char>) -> Result<(), TodoError> {
    if project.len() > MAX_PROJECT_LENGTH {
        Err(TodoError::ProjectTooLong { len: project.len() as usize })
    } else {
        Ok(())
    }
}

/// The verdict on notes.
pub open spec fn notes_check(notes: Seq<char>) -> Result<(), TodoError> {
    if notes.len() > MAX_NOTES_LENGTH {
        Err(TodoError::NotesTooLong { len: notes.len() as usize })
    } else {
        Ok(())
    }
}

/// What an optional field holds after `text` was given for it: nothing where
/// the text is blank, else the trimmed text.
pub open spec fn optional_text(text: Seq<char>) -> Option<Seq<char>> {
    if trimmed(text).len() == 0 {
        None
    } else {
        Some(trimmed(text))
    }
}

impl TodoView {
    /// A task as it is first made: the given title and creation time, id 0,
    /// priority `P2`, status `Todo`, and nothing else.
    pub open spec fn fresh(title: Seq<char>, created: Timestamp) -> TodoView {
        TodoView {
            id: 0,
            title,
            priority: Priority::P2,
            status: Status::Todo,
            tags: Seq::empty(),
            category: None,
            project: None,
            created_date: created,
            finished_date: None,
            notes: None,
        }
    }

    /// The task after its status was set to `status` at time `now`.
    pub open spec fn with_status(self, status: Status, now: Timestamp) -> TodoView {
        TodoView {
            status,
            finished_date: finished_after(self.status, status, self.finished_date, now),
            ..self
        }
    }

    /// The task with another id.
    pub open spec fn with_id(self, id: u32) -> TodoView {
        TodoView { id, ..self }
    }

    /// The fields of the task keep the rules of the task record: the title
    /// passes its check; category, project and notes are within their limits
    /// where there are any; and the tags are within the limit, free of
    /// spaces, and none occurs twice.
    pub open spec fn within_limits(self) -> bool {
        &&& title_check(self.title) is Ok
        &&& self.category is Some ==> category_check(self.category->0) is Ok
        &&& self.project is Some ==> project_check(self.project->0) is Ok
        &&& self.notes is Some ==> notes_check(self.notes->0) is Ok
        &&& tags::tags_check(self.tags) is Ok
        &&& self.tags.no_duplicates()
    }
}

/// A task made with a title that passes its check keeps the rules of the
/// task record.
pub proof fn lemma_fresh_task_is_within_limits(title: Seq<char>, created: Timestamp)
    requires
        title_check(title) is Ok,
    ensures
        TodoView::fresh(trimmed(title), created).within_limits(),
{
    lemma_trimmed_twice(title);
    crate::seqs::lemma_first_index_is(Seq::<Seq<char>>::empty(), tags::bad_tag(), 0);
}

/// A validated update of a task that keeps the rules of the task record
/// leaves a task that keeps them, whether the update went through or stopped
/// at a fault, provided that the tags given keep the rules for tags.
pub proof fn lemma_validated_update_keeps_limits(
    todo: TodoView,
    title: Option<Seq<char>>,
    category: Option<Seq<char>>,
    project: Option<Seq<char>>,
    notes: Option<Seq<char>>,
    tags: Option<Seq<Seq<char>>>,
)
    requires
        todo.within_limits(),
        tags is Some ==> tags::tags_check(tags->0) is Ok && tags->0.no_duplicates(),
    ensures
        validated_update(todo, title, category, project, notes, tags).0.within_limits(),
{
    if title is Some {
        lemma_trimmed_twice(title->0);
    }
    if category is Some {
        lemma_trimmed_is_no_longer(category->0);
    }
    if project is Some {
        lemma_trimmed_is_no_longer(project->0);
    }
    if notes is Some {
        lemma_trimmed_is_no_longer(notes->0);
    }
}

/// The outcome of a validated update: the task as it is left, and the verdict.
/// The fields are taken in the order title, category, project, notes, tags.
/// Each one given is checked and then stored; the first that fails its check
/// ends the update, with the fields before it stored already. A title is
/// stored trimmed; a category, project or notes text is stored trimmed, or
/// cleared where it is blank; tags are stored as given.
pub open spec fn validated_update(
    todo: TodoView,
    title: Option<Seq<char>>,
    category: Option<Seq<char>>,
    project: Option<Seq<char>>,
    notes: Option<Seq<char>>,
    tags: Option<Seq<Seq<char>>>,
) -> (TodoView, Result<(), TodoError>) {
    if title is Some && title_check(title->0) is Err {
        (todo, title_check(title->0))
    } else {
        let t1 = if title is Some {
            TodoView { title: trimmed(title->0), ..todo }
        } else {
            todo
        };
        if category is Some && category_check(category->0) is Err {
            (t1, category_check(category->0))
        } else {
            let t2 = if category is Some {
                TodoView { category: optional_text(category->0), ..t1 }
            } else {
                t1
            };
            if project is Some && project_check(project->0) is Err {
                (t2, project_check(project->0))
            } else {
                let t3 = if project is Some {
                    TodoView { project: optional_text(project->0), ..t2 }
                } else {
                    t2
                };
                if notes is Some && notes_check(notes->0) is Err {
                    (t3, notes_check(notes->0))
                } else {
                    let t4 = if notes is Some {
                        TodoView { notes: optional_text(notes->0), ..t3 }
                    } else {
                        t3
                    };
                    let t5 = if tags is Some {
                        TodoView { tags: tags->0, ..t4 }
                    } else {
                        t4
                    };
                    (t5, Ok(()))
                }
            }
        }
    }
}

/// What an optional field holds after `text` was given for it as it stands:
/// nothing where the text is empty, else the text.
pub open spec fn plain_optional(text: Seq<char>) -> Option<Seq<char>> {
    if text.len() == 0 {
        None
    } else {
        Some(text)
    }
}

/// The outcome of an update from texts, at time `now`: the task as it is
/// left, and the verdict. A status name is read first, in any letter case; one
/// that names no status ends the update with nothing changed, else the status
/// is set as [`TodoView::with_status`] says. A priority name is read next; one
/// that names no priority ends the update with the status already set. Then
/// the tag delta is applied, and category, project and notes are stored as
/// given, an empty text clearing the field.
pub open spec fn updated_todo(
    todo: TodoView,
    status: Option<Seq<char>>,
    priority: Option<Seq<char>>,
    tags: Option<Seq<char>>,
    category: Option<Seq<char>>,
    project: Option<Seq<char>>,
    notes: Option<Seq<char>>,
    now: Timestamp,
) -> (TodoView, Result<(), TodoError>) {
    if status is Some && status_named(lowercase(status->0)) is None {
        (todo, Err(TodoError::InvalidStatus))
    } else {
        let t1 = if status is Some {
            todo.with_status(status_named(lowercase(status->0))->0, now)
        } else {
            todo
        };
        if priority is Some && priority_named(lowercase(priority->0)) is None {
            (t1, Err(TodoError::InvalidPriority))
        } else {
            let t2 = if priority is Some {
                TodoView { priority: priority_named(lowercase(priority->0))->0, ..t1 }
            } else {
                t1
            };
            let t3 = if tags is Some {
                TodoView { tags: tags::updated_tags(t2.tags, tags->0), ..t2 }
            } else {
                t2
            };
            let t4 = if category is Some {
                TodoView { category: plain_optional(category->0), ..t3 }
            } else {
                t3
            };
            let t5 = if project is Some {
                TodoView { project: plain_optional(project->0), ..t4 }
            } else {
                t4
            };
            let t6 = if notes is Some {
                TodoView { notes: plain_optional(notes->0), ..t5 }
            } else {
                t5
            };
            (t6, Ok(()))
        }
    }
}

/// A copy of a list of strings.
pub fn copy_strings(v: &Vec<String>) -> (r: Vec<String>)
    ensures
        strings_view(r@) == strings_view(v@),
{
    let mut r: Vec<String> = Vec::new();
    let mut i: usize = 0;
    while i < v.len()
        invariant
            i <= v.len(),
            strings_view(r@) == strings_view(v@).take(i as int),
        decreases v.len() - i,
    {
        let s = v[i].clone();
        proof {
            tags::lemma_strings_view_push(r@, s);
            assert(strings_view(v@).take(i + 1) == strings_view(v@).take(i as int).push(s@));
        }
        r.push(s);
        i += 1;
    }
    proof {
        assert(strings_view(v@).take(v.len() as int) == strings_view(v@));
    }
    r
}

/// A copy of an optional string.
pub fn copy_opt_string(o: &Option<String>) -> (r: Option<String>)
    ensures
        opt_text(r) == opt_text(*o),
{
    match o {
        Some(s) => Some(s.clone()),
        None => None,
    }
}

/// What an optional field is given from `text`: see [`optional_text`].
fn optional_field(text: &str) -> (r: Option<String>)
    ensures
        opt_text(r) == optional_text(text@),
{
    let t = trim(text);
    if char_count(t.as_str()) == 0 {
        None
    } else {
        Some(t)
    }
}

/// What an optional field is given from `text` as it stands: see
/// [`plain_optional`].
fn plain_field(text: String) -> (r: Option<String>)
    ensures
        opt_text(r) == plain_optional(text@),
{
    if char_count(text.as_str()) == 0 {
        None
    } else {
        Some(text)
    }
}

impl Clone for Todo {
    fn clone(&self) -> (r: Self)
        ensures
            r@ == self@,
    {
        Todo {
            id: self.id,
            title: self.title.clone(),
            priority: self.priority,
            status: self.status,
            tags: copy_strings(&self.tags),
            category: copy_opt_string(&self.category),
            project: copy_opt_string(&self.project),
            created_date: self.created_date,
            finished_date: self.finished_date,
            notes: copy_opt_string(&self.notes),
        }
    }
}

impl Todo {
    /// A task with the given title, created at `created`, with every other
    /// field at its default.
    pub fn created_at(title: String, created: Timestamp) -> (t: Todo)
        ensures
            t@ == TodoView::fresh(title@, created),
    {
        let t = Todo {
            id: 0,
            title,
            priority: Priority::P2,
            status: Status::Todo,
            tags: Vec::new(),
            category: None,
            project: None,
            created_date: created,
            finished_date: None,
            notes: None,
        };
        proof {
            assert(strings_view(t.tags@) =~= Seq::<Seq<char>>::empty());
        }
        t
    }

    /// A task with the given title, created now, with every other field at
    /// its default.
    pub fn new(title: String) -> (t: Todo)
        ensures
            t@ == TodoView::fresh(title@, t.created_date),
            t.created_date.sub_second(),
    {
        Todo::created_at(title, Timestamp::now())
    }

    /// Whether the task is still to do or in progress.
    pub fn is_active(&self) -> (b: bool)
        ensures
            b == self@.status.active(),
    {
        self.status.is_active()
    }

    /// The rank of the task's priority, 0 to 5; lower is more urgent.
    pub fn priority_value(&self) -> (v: u8)
        ensures
            v == self@.priority.rank(),
    {
        self.priority.value()
    }

    /// Checks a title: trimmed, it must not be empty and must not have more
    /// than [`MAX_TITLE_LENGTH`] characters.
    pub fn validate_title(title: &str) -> (r: Result<(), TodoError>)
        ensures
            r == title_check(title@),
    {
        let trimmed = trim(title);
        let n = char_count(trimmed.as_str());
        if n == 0 {
            Err(TodoError::EmptyTitle)
        } else if n > MAX_TITLE_LENGTH {
            Err(TodoError::TitleTooLong { len: n })
        } else {
            Ok(())
        }
    }

    /// Checks a category: at most [`MAX_CATEGORY_LENGTH`] characters.
    pub fn validate_category(category: &str) -> (r: Result<(), TodoError>)
        ensures
            r == category_check(category@),
    {
        let n = char_count(category);
        if n > MAX_CATEGORY_LENGTH {
            Err(TodoError::CategoryTooLong { len: n })
        } else {
            Ok(())
        }
    }

    /// Checks a project: at most [`MAX_PROJECT_LENGTH`] characters.
    pub fn validate_project(project: &str) -> (r: Result<(), TodoError>)
        ensures
            r == project_check(project@),
    {
        let n = char_count(project);
        if n > MAX_PROJECT_LENGTH {
            Err(TodoError::ProjectTooLong { len: n })
        } else {
            Ok(())
        }
    }

    /// Checks notes: at most [`MAX_NOTES_LENGTH`] characters.
    pub fn validate_notes(notes: &str) -> (r: Result<(), TodoError>)
        ensures
            r == notes_check(notes@),
    {
        let n = char_count(notes);
        if n > MAX_NOTES_LENGTH {
            Err(TodoError::NotesTooLong { len: n })
        } else {
            Ok(())
        }
    }

    /// Normalizes a comma-separated tag list and checks the result: the tags
    /// of [`tags::normalized_tags`] where [`tags::tags_check`] accepts them,
    /// else its error.
    pub fn validate_and_normalize_tags(tags_input: &str) -> (r: Result<Vec<String>, TodoError>)
        ensures
            match tags::tags_check(tags::normalized_tags(tags_input@)) {
                Ok(_) => r is Ok && strings_view(r->Ok_0@) == tags::normalized_tags(tags_input@),
                Err(e) => r == Err::<Vec<String>, TodoError>(e),
            },
    {
        tags::validate_and_normalize_tags(tags_input)
    }

    /// A task with the trimmed title, created at `created`, where the title
    /// passes [`title_check`]; else the title's error.
    pub fn validated_at(title: String, created: Timestamp) -> (r: Result<Todo, TodoError>)
        ensures
            match title_check(title@) {
                Ok(_) => r is Ok && r->Ok_0@ == TodoView::fresh(trimmed(title@), created),
                Err(e) => r == Err::<Todo, TodoError>(e),
            },
            r is Ok ==> r->Ok_0@.within_limits(),
    {
        proof {
            if title_check(title@) is Ok {
                lemma_fresh_task_is_within_limits(title@, created);
            }
        }
        match Todo::validate_title(title.as_str()) {
            Ok(_) => Ok(Todo::created_at(trim(title.as_str()), created)),
            Err(e) => Err(e),
        }
    }

    /// A task with the trimmed title, created now, where the title passes
    /// [`title_check`]; else the title's error.
    pub fn new_validated(title: String) -> (r: Result<Todo, TodoError>)
        ensures
            match title_check(title@) {
                Ok(_) => r is Ok && r->Ok_0@ == TodoView::fresh(
                    trimmed(title@),
                    r->Ok_0.created_date,
                ),
                Err(e) => r == Err::<Todo, TodoError>(e),
            },
            r is Ok <==> 0 < trimmed(title@).len() <= MAX_TITLE_LENGTH,
            r is Ok ==> r->Ok_0@.within_limits(),
            r is Ok ==> r->Ok_0.created_date.sub_second(),
            r is Err ==> r->Err_0.kind_of() == ErrorKind::Validation,
    {
        Todo::validated_at(title, Timestamp::now())
    }

    /// Sets the status at time `now` and keeps the finish time in step with
    /// it, as [`finished_after`] says.
    pub fn set_status(&mut self, status: Status, now: Timestamp)
        ensures
            final(self)@ == old(self)@.with_status(status, now),
    {
        let old_status = self.status;
        self.status = status;
        if status == Status::Done && old_status.is_active() {
            self.finished_date = Some(now);
        } else if status.is_active() && old_status == Status::Done {
            self.finished_date = None;
        }
    }

    /// Updates the fields that are given, each after its check, as
    /// [`validated_update`] defines it.
    pub fn update_with_validation(
        &mut self,
        title: Option<String>,
        category: Option<String>,
        project: Option<String>,
        notes: Option<String>,
        tags: Option<Vec<String>>,
    ) -> (r: Result<(), TodoError>)
        ensures
            (final(self)@, r) == validated_update(
                old(self)@,
                opt_text(title),
                opt_text(category),
                opt_text(project),
                opt_text(notes),
                match tags {
                    Some(t) => Some(strings_view(t@)),
                    None => None,
                },
            ),
    {
        if let Some(title) = title {
            match Todo::validate_title(title.as_str()) {
                Ok(_) => {},
                Err(e) => {
                    return Err(e);
                },
            }
            self.title = trim(title.as_str());
        }
        if let Some(category) = category {
            match Todo::validate_category(category.as_str()) {
                Ok(_) => {},
                Err(e) => {
                    return Err(e);
                },
            }
            self.category = optional_field(category.as_str());
        }
        if let Some(project) = project {
            match Todo::validate_project(project.as_str()) {
                Ok(_) => {},
                Err(e) => {
                    return Err(e);
                },
            }
            self.project = optional_field(project.as_str());
        }
        if let Some(notes) = notes {
            match Todo::validate_notes(notes.as_str()) {
                Ok(_) => {},
                Err(e) => {
                    return Err(e);
                },
            }
            self.notes = optional_field(notes.as_str());
        }
        if let Some(tags) = tags {
            self.tags = tags;
        }
        Ok(())
    }

    /// Updates the task from texts at time `now`, as [`updated_todo`] defines
    /// it.
    pub fn apply_update(
        &mut self,
        status: Option<String>,
        priority: Option<String>,
        tags: Option<String>,
        category: Option<String>,
        project: Option<String>,
        notes: Option<String>,
        now: Timestamp,
    ) -> (r: Result<(), TodoError>)
        ensures
            (final(self)@, r) == updated_todo(
                old(self)@,
                opt_text(status),
                opt_text(priority),
                opt_text(tags),
                opt_text(category),
                opt_text(project),
                opt_text(notes),
                now,
            ),
    {
        if let Some(status_str) = status {
            match parse_status(status_str.as_str()) {
                Ok(new_status) => {
                    self.set_status(new_status, now);
                },
                Err(e) => {
                    return Err(e);
                },
            }
        }
        if let Some(priority_str) = priority {
            match parse_priority(priority_str.as_str()) {
                Ok(p) => {
                    self.priority = p;
                },
                Err(e) => {
                    return Err(e);
                },
            }
        }
        if let Some(tags_str) = tags {
            tags::update_tags(&mut self.tags, tags_str.as_str());
        }
        if let Some(cat) = category {
            self.category = plain_field(cat);
        }
        if let Some(proj) = project {
            self.project = plain_field(proj);
        }
        if let Some(note) = notes {
            self.notes = plain_field(note);
        }
        Ok(())
    }
}

/// When the finish time is set and cleared: entering `Done` from `Todo` or
/// `InProgress` sets it; going from `Done` to `Todo` or `InProgress` clears it;
/// a change to or from `Archived` leaves it as it was.
pub proof fn lemma_finish_time_follows_status(
    todo: TodoView,
    status: Status,
    now: Timestamp,
)
    ensures
        todo.status.active() && status == Status::Done ==> todo.with_status(status, now).finished_date
            == Some(now),
        todo.status == Status::Done && status.active() ==> todo.with_status(
            status,
            now,
        ).finished_date is None,
        todo.status == Status::Archived || status == Status::Archived ==> todo.with_status(
            status,
            now,
        ).finished_date == todo.finished_date,
        todo.with_status(status, now).status == status,
{
}

} // verus!
