//! The task collection: the tasks in the order they were created, and the
//! counter that hands out their ids.

use crate::error::TodoError;
use crate::priority::{parse_priority, priority_named, Priority};
use crate::seqs::{first_index, lemma_filter_take_next, lemma_first_index_is};
use crate::status::{parse_status, status_named, Status};
use crate::tags::has_tag;
use crate::text::{lowercase, same_text, split, split_on, strings_view, trim, trimmed};
use crate::time::Timestamp;
use crate::todo::{opt_text, updated_todo, Todo, TodoView};
use vstd::prelude::*;

verus! {

/// The full set of tasks, with the id that the next task will get.
#[derive(Debug)]
pub struct TodoList {
    pub next_id: u32,
    pub todos: Vec<Todo>,
}

/// A collection as a mathematical value.
#[verifier::ext_equal]
pub struct TodoListView {
    pub next_id: u32,
    pub todos: Seq<TodoView>,
}

/// The views of a sequence of tasks.
pub open spec fn todo_views(s: Seq<Todo>) -> Seq<TodoView> {
    s.map_values(|t: Todo| t@)
}

/// The views of a sequence of borrowed tasks.
pub open spec fn ref_views(s: Seq<&Todo>) -> Seq<TodoView> {
    s.map_values(|t: &Todo| t@)
}

impl View for TodoList {
    type V = TodoListView;

    open spec fn view(&self) -> TodoListView {
        TodoListView { next_id: self.next_id, todos: todo_views(self.todos@) }
    }
}

/// The test that a task has the id `id`.
pub open spec fn has_id(id: u32) -> spec_fn(TodoView) -> bool {
    |t: TodoView| t.id == id
}

/// The index of the first task with the id `id`, or the number of tasks where
/// none has it.
pub open spec fn position_of(todos: Seq<TodoView>, id: u32) -> int {
    first_index(todos, has_id(id))
}

/// The test that a task is not in the category `category`. A task without a
/// category is in none.
pub open spec fn outside_category(category: Seq<char>) -> spec_fn(TodoView) -> bool {
    |t: TodoView| t.category != Some(category)
}

/// The test that a task's status is not `status`.
pub open spec fn status_is_not(status: Status) -> spec_fn(TodoView) -> bool {
    |t: TodoView| t.status != status
}

/// The outcome of an update of the task with the id `id` from texts, at time
/// `now`: the collection as it is left, and the verdict. Where no task has the
/// id nothing changes and the id is reported as not found; else the first
/// task with the id is updated as [`updated_todo`] says.
pub open spec fn update_outcome(
    list: TodoListView,
    id: u32,
    status: Option<Seq<char>>,
    priority: Option<Seq<char>>,
    tags: Option<Seq<char>>,
    category: Option<Seq<char>>,
    project: Option<Seq<char>>,
    notes: Option<Seq<char>>,
    now: Timestamp,
) -> (TodoListView, Result<(), TodoError>) {
    let i = position_of(list.todos, id);
    if i < list.todos.len() {
        let (todo, verdict) = updated_todo(
            list.todos[i],
            status,
            priority,
            tags,
            category,
            project,
            notes,
            now,
        );
        (TodoListView { todos: list.todos.update(i, todo), ..list }, verdict)
    } else {
        (list, Err(TodoError::NotFound { id }))
    }
}

/// The tags that a comma-separated filter asks for: its pieces, trimmed, as
/// they are written.
pub open spec fn wanted_tags(tags: Seq<char>) -> Seq<Seq<char>> {
    split_on(tags, ',').map_values(|p: Seq<char>| trimmed(p))
}

/// The task carries every one of the wanted tags.
pub open spec fn has_all_tags(todo: TodoView, wanted: Seq<Seq<char>>) -> bool {
    forall|k: int| 0 <= k < wanted.len() ==> todo.tags.contains(#[trigger] wanted[k])
}

/// Whether a task passes the listing filter. An archived task passes only
/// where `all` is set. A status or priority name is read in any letter case
/// and, where it names one, the task must have it; a name that cannot be read
/// asks for nothing. A category must be the task's category, letter for
/// letter. Tags are wanted all together.
pub open spec fn passes_filter(
    todo: TodoView,
    status: Option<Seq<char>>,
    category: Option<Seq<char>>,
    priority: Option<Seq<char>>,
    tags: Option<Seq<char>>,
    all: bool,
) -> bool {
    &&& all || todo.status != Status::Archived
    &&& status is Some && status_named(lowercase(status->0)) is Some ==> todo.status
        == status_named(lowercase(status->0))->0
    &&& category is Some ==> todo.category == Some(category->0)
    &&& priority is Some && priority_named(lowercase(priority->0)) is Some ==> todo.priority
        == priority_named(lowercase(priority->0))->0
    &&& tags is Some ==> has_all_tags(todo, wanted_tags(tags->0))
}

/// The listing filter as a test on tasks.
pub open spec fn listing_filter(
    status: Option<Seq<char>>,
    category: Option<Seq<char>>,
    priority: Option<Seq<char>>,
    tags: Option<Seq<char>>,
    all: bool,
) -> spec_fn(TodoView) -> bool {
    |todo: TodoView| passes_filter(todo, status, category, priority, tags, all)
}

impl TodoListView {
    /// Ids are in order: every task has a positive id below `next_id`, and no
    /// two tasks share one.
    pub open spec fn well_formed(self) -> bool {
        &&& self.next_id >= 1
        &&& forall|i: int| 0 <= i < self.todos.len() ==> 0 < (#[trigger] self.todos[i]).id < self.next_id
        &&& forall|i: int, j: int|
            0 <= i < j < self.todos.len() ==> (#[trigger] self.todos[i]).id != (
            #[trigger] self.todos[j]).id
    }
}

/// Pushing a task pushes its view.
pub proof fn lemma_todo_views_push(s: Seq<Todo>, t: Todo)
    ensures
        todo_views(s.push(t)) == todo_views(s).push(t@),
{
    assert(todo_views(s.push(t)) =~= todo_views(s).push(t@));
}

/// Pushing a borrowed task pushes its view.
pub proof fn lemma_ref_views_push(s: Seq<&Todo>, t: &Todo)
    ensures
        ref_views(s.push(t)) == ref_views(s).push(t@),
{
    assert(ref_views(s.push(t)) =~= ref_views(s).push(t@));
}

/// Taking tasks out of a collection keeps its ids in order.
pub proof fn lemma_filter_keeps_well_formed(list: TodoListView, keep: spec_fn(TodoView) -> bool)
    requires
        list.well_formed(),
    ensures
        (TodoListView { todos: list.todos.filter(keep), ..list }).well_formed(),
    decreases list.todos.len(),
{
    let todos = list.todos;
    if todos.len() == 0 {
        reveal(Seq::filter);
    } else {
        let rest = todos.drop_last();
        let last = todos.last();
        let shorter = TodoListView { todos: rest, ..list };
        assert(shorter.well_formed()) by {
            assert forall|i: int| 0 <= i < rest.len() implies 0 < (#[trigger] rest[i]).id
                < list.next_id by {
                assert(rest[i] == todos[i]);
            }
            assert forall|i: int, j: int| 0 <= i < j < rest.len() implies (#[trigger] rest[i]).id != (
            #[trigger] rest[j]).id by {
                assert(rest[i] == todos[i] && rest[j] == todos[j]);
            }
        }
        lemma_filter_keeps_well_formed(shorter, keep);
        rest.lemma_filter_push(last, keep);
        assert(rest.push(last) == todos);
        let kept = rest.filter(keep);
        let out = todos.filter(keep);
        assert(todos[todos.len() - 1] == last);
        assert forall|i: int| 0 <= i < out.len() implies 0 < (#[trigger] out[i]).id
            < list.next_id by {
            if i < kept.len() {
                assert(out[i] == kept[i]);
            }
        }
        assert forall|i: int, j: int| 0 <= i < j < out.len() implies (#[trigger] out[i]).id != (
        #[trigger] out[j]).id by {
            if j < kept.len() {
                assert(out[i] == kept[i] && out[j] == kept[j]);
            } else {
                assert(out[i] == kept[i]);
                assert(kept.contains(kept[i]));
                rest.lemma_filter_contains_rev(keep, kept[i]);
                let at = choose|at: int| 0 <= at < rest.len() && rest[at] == kept[i];
                assert(todos[at] == kept[i]);
            }
        }
    }
}

/// What deleting a category leaves and takes: every task that is left is
/// outside the category and was there before; every task outside the
/// category, those without a category among them, is still there; and the
/// tasks left are no more than there were.
pub proof fn lemma_delete_by_category_takes_only_the_category(
    todos: Seq<TodoView>,
    category: Seq<char>,
)
    ensures
        forall|i: int|
            0 <= i < todos.filter(outside_category(category)).len() ==> {
                &&& (#[trigger] todos.filter(outside_category(category))[i]).category != Some(
                    category,
                )
                &&& todos.contains(todos.filter(outside_category(category))[i])
            },
        forall|i: int|
            0 <= i < todos.len() && (#[trigger] todos[i]).category != Some(category)
                ==> todos.filter(outside_category(category)).contains(todos[i]),
        todos.filter(outside_category(category)).len() <= todos.len(),
{
    let keep = outside_category(category);
    let left = todos.filter(keep);
    todos.lemma_filter_len(keep);
    assert forall|i: int| 0 <= i < left.len() implies (#[trigger] left[i]).category != Some(
        category,
    ) && todos.contains(left[i]) by {
        todos.lemma_filter_pred(keep, i);
        assert(left.contains(left[i]));
        todos.lemma_filter_contains_rev(keep, left[i]);
    }
    assert forall|i: int|
        0 <= i < todos.len() && (#[trigger] todos[i]).category != Some(category) implies left.contains(
        todos[i],
    ) by {
        todos.lemma_filter_contains(keep, i);
    }
}

/// A listing without `all` holds no archived task, whatever else is asked
/// for.
pub proof fn lemma_listing_hides_archived(
    todos: Seq<TodoView>,
    status: Option<Seq<char>>,
    category: Option<Seq<char>>,
    priority: Option<Seq<char>>,
    tags: Option<Seq<char>>,
)
    ensures
        forall|i: int|
            0 <= i < todos.filter(listing_filter(status, category, priority, tags, false)).len()
                ==> (#[trigger] todos.filter(
                listing_filter(status, category, priority, tags, false),
            )[i]).status != Status::Archived,
{
    let keep = listing_filter(status, category, priority, tags, false);
    let found = todos.filter(keep);
    assert forall|i: int| 0 <= i < found.len() implies (#[trigger] found[i]).status
        != Status::Archived by {
        todos.lemma_filter_pred(keep, i);
    }
}

/// The tags that a comma-separated filter asks for: see [`wanted_tags`].
fn split_wanted_tags(tags: &str) -> (wanted: Vec<String>)
    ensures
        strings_view(wanted@) == wanted_tags(tags@),
{
    let pieces = split(tags, ',');
    let mut wanted: Vec<String> = Vec::new();
    let mut i: usize = 0;
    while i < pieces.len()
        invariant
            i <= pieces.len(),
            strings_view(pieces@) == split_on(tags@, ','),
            wanted.len() == i,
            forall|j: int| 0 <= j < i ==> (#[trigger] wanted@[j])@ == trimmed(pieces@[j]@),
        decreases pieces.len() - i,
    {
        wanted.push(trim(pieces[i].as_str()));
        i += 1;
    }
    proof {
        assert forall|j: int| 0 <= j < wanted.len() implies strings_view(wanted@)[j]
            == wanted_tags(tags@)[j] by {
            assert(strings_view(pieces@)[j] == pieces@[j]@);
        }
        assert(strings_view(wanted@) =~= wanted_tags(tags@));
    }
    wanted
}

/// Whether the task carries every one of the wanted tags.
fn carries_all(todo: &Todo, wanted: &Vec<String>) -> (r: bool)
    ensures
        r == has_all_tags(todo@, strings_view(wanted@)),
{
    let mut k: usize = 0;
    while k < wanted.len()
        invariant
            k <= wanted.len(),
            forall|j: int| 0 <= j < k ==> todo@.tags.contains(#[trigger] strings_view(wanted@)[j]),
        decreases wanted.len() - k,
    {
        if !has_tag(&todo.tags, wanted[k].as_str()) {
            proof {
                assert(strings_view(wanted@)[k as int] == wanted@[k as int]@);
            }
            return false;
        }
        proof {
            assert(strings_view(wanted@)[k as int] == wanted@[k as int]@);
        }
        k += 1;
    }
    true
}

impl Clone for TodoList {
    fn clone(&self) -> (r: Self)
        ensures
            r@ == self@,
    {
        let mut todos: Vec<Todo> = Vec::new();
        let mut i: usize = 0;
        while i < self.todos.len()
            invariant
                i <= self.todos.len(),
                todo_views(todos@) == todo_views(self.todos@).take(i as int),
            decreases self.todos.len() - i,
        {
            let copy = self.todos[i].clone();
            proof {
                lemma_todo_views_push(todos@, copy);
                assert(todo_views(self.todos@).take(i + 1) == todo_views(self.todos@).take(
                    i as int,
                ).push(copy@));
            }
            todos.push(copy);
            i += 1;
        }
        proof {
            assert(todo_views(self.todos@).take(self.todos.len() as int) == todo_views(
                self.todos@,
            ));
        }
        TodoList { next_id: self.next_id, todos }
    }
}

impl Default for TodoList {
    fn default() -> (list: Self)
        ensures
            list@.next_id == 1,
            list@.todos.len() == 0,
            list@.well_formed(),
    {
        TodoList { next_id: 1, todos: Vec::new() }
    }
}

impl TodoList {
    /// The empty collection, whose first task will get the id 1.
    pub fn new() -> (list: Self)
        ensures
            list@.next_id == 1,
            list@.todos.len() == 0,
            list@.well_formed(),
    {
        TodoList { next_id: 1, todos: Vec::new() }
    }

    /// Makes a task created at `created` with the next id and moves the
    /// counter on. The task is not in the collection yet: [`TodoList::add_todo`]
    /// puts it there.
    pub fn create_todo_at(&mut self, title: String, created: Timestamp) -> (todo: Todo)
        requires
            old(self).next_id < u32::MAX,
        ensures
            todo@ == TodoView::fresh(title@, created).with_id(old(self).next_id),
            final(self)@.next_id == old(self)@.next_id + 1,
            final(self)@.todos == old(self)@.todos,
            old(self)@.well_formed() ==> final(self)@.well_formed(),
    {
        let mut todo = Todo::created_at(title, created);
        todo.id = self.next_id;
        self.next_id = self.next_id + 1;
        todo
    }

    /// Makes a task created now with the next id and moves the counter on.
    /// The task is not in the collection yet: [`TodoList::add_todo`] puts it
    /// there.
    pub fn create_todo(&mut self, title: String) -> (todo: Todo)
        requires
            old(self).next_id < u32::MAX,
        ensures
            todo@ == TodoView::fresh(title@, todo.created_date).with_id(old(self).next_id),
            todo.created_date.sub_second(),
            final(self)@.next_id == old(self)@.next_id + 1,
            final(self)@.todos == old(self)@.todos,
            old(self)@.well_formed() ==> final(self)@.well_formed(),
    {
        self.create_todo_at(title, Timestamp::now())
    }

    /// Whether [`TodoList::create_todo`] can still hand out an id.
    pub fn can_create(&self) -> (b: bool)
        ensures
            b == (self.next_id < u32::MAX),
    {
        self.next_id < u32::MAX
    }

    /// Puts a task at the end of the collection.
    pub fn add_todo(&mut self, todo: Todo)
        ensures
            final(self)@.todos == old(self)@.todos.push(todo@),
            final(self)@.next_id == old(self)@.next_id,
            old(self)@.well_formed() && 0 < todo.id < old(self).next_id && position_of(
                old(self)@.todos,
                todo.id,
            ) == old(self)@.todos.len() ==> final(self)@.well_formed(),
    {
        proof {
            lemma_todo_views_push(self.todos@, todo);
            crate::seqs::lemma_first_index(self@.todos, has_id(todo.id));
        }
        self.todos.push(todo);
    }

    /// The index of the first task with the id `id`.
    pub fn position(&self, id: u32) -> (r: Option<usize>)
        ensures
            match r {
                Some(i) => i == position_of(self@.todos, id) && i < self.todos.len(),
                None => position_of(self@.todos, id) == self.todos.len(),
            },
    {
        let mut i: usize = 0;
        while i < self.todos.len()
            invariant
                i <= self.todos.len(),
                forall|j: int| 0 <= j < i ==> !has_id(id)(#[trigger] self@.todos[j]),
            decreases self.todos.len() - i,
        {
            if self.todos[i].id == id {
                proof {
                    lemma_first_index_is(self@.todos, has_id(id), i as int);
                }
                return Some(i);
            }
            i += 1;
        }
        proof {
            lemma_first_index_is(self@.todos, has_id(id), i as int);
        }
        None
    }

    /// The first task with the id `id`.
    pub fn get_todo(&self, id: u32) -> (r: Option<&Todo>)
        ensures
            match r {
                Some(t) => {
                    &&& 0 <= position_of(self@.todos, id) < self.todos.len()
                    &&& *t == self.todos@[position_of(self@.todos, id)]
                    &&& t@ == self@.todos[position_of(self@.todos, id)]
                },
                None => position_of(self@.todos, id) == self.todos.len(),
            },
    {
        match self.position(id) {
            Some(i) => Some(&self.todos[i]),
            None => None,
        }
    }

    /// The first task with the id `id`, to be changed in place. Whatever is
    /// written through the reference is what the collection then holds at that
    /// index; nothing else changes.
    pub fn get_todo_mut(&mut self, id: u32) -> (r: Option<&mut Todo>)
        ensures
            match r {
                Some(t) => {
                    let i = position_of(old(self)@.todos, id);
                    &&& i < old(self).todos.len()
                    &&& *t == old(self).todos@[i]
                    &&& final(self).todos@ == old(self).todos@.update(i, *final(t))
                    &&& final(self).next_id == old(self).next_id
                },
                None => position_of(old(self)@.todos, id) == old(self).todos.len() && *final(self)
                    == *old(self),
            },
    {
        match self.position(id) {
            Some(i) => Some(&mut self.todos[i]),
            None => None,
        }
    }

    /// Removes the first task with the id `id`; where no task has it, the
    /// collection stays as it is and the id is reported as not found.
    pub fn delete_todo(&mut self, id: u32) -> (r: Result<(), TodoError>)
        ensures
            final(self)@.next_id == old(self)@.next_id,
            ({
                let i = position_of(old(self)@.todos, id);
                if i < old(self)@.todos.len() {
                    r == Ok::<(), TodoError>(()) && final(self)@.todos == old(self)@.todos.remove(i)
                } else {
                    r == Err::<(), TodoError>(TodoError::NotFound { id }) && final(self)@.todos
                        == old(self)@.todos
                }
            }),
            old(self)@.well_formed() ==> final(self)@.well_formed(),
    {
        match self.position(id) {
            Some(index) => {
                let ghost before = self.todos@;
                self.todos.remove(index);
                proof {
                    assert(todo_views(before.remove(index as int)) =~= todo_views(before).remove(
                        index as int,
                    ));
                    let old_views = todo_views(before);
                    let new_views = old_views.remove(index as int);
                    if old(self)@.well_formed() {
                        assert forall|i: int| 0 <= i < new_views.len() implies 0 < (
                        #[trigger] new_views[i]).id < self.next_id by {
                            if i < index {
                                assert(new_views[i] == old_views[i]);
                            } else {
                                assert(new_views[i] == old_views[i + 1]);
                            }
                        }
                        assert forall|i: int, j: int| 0 <= i < j < new_views.len() implies (
                        #[trigger] new_views[i]).id != (#[trigger] new_views[j]).id by {
                            let a = if i < index { i } else { i + 1 };
                            let b = if j < index { j } else { j + 1 };
                            assert(new_views[i] == old_views[a]);
                            assert(new_views[j] == old_views[b]);
                        }
                    }
                }
                Ok(())
            },
            None => Err(TodoError::NotFound { id }),
        }
    }
    /// Removes every task whose category is exactly `category`, and says how
    /// many there were. A task without a category, or with another one, stays
    /// where it is, in the order it had.
    pub fn delete_by_category(&mut self, category: &str) -> (count: usize)
        ensures
            final(self)@.todos == old(self)@.todos.filter(outside_category(category@)),
            final(self)@.next_id == old(self)@.next_id,
            count == old(self)@.todos.len() - final(self)@.todos.len(),
            old(self)@.well_formed() ==> final(self)@.well_formed(),
    {
        proof {
            if self@.well_formed() {
                lemma_filter_keeps_well_formed(self@, outside_category(category@));
            }
        }
        let initial_len = self.todos.len();
        let mut taken: Vec<Todo> = Vec::new();
        core::mem::swap(&mut self.todos, &mut taken);
        let ghost before = todo_views(taken@);
        let ghost keep = outside_category(category@);
        proof {
            assert(todo_views(self.todos@) =~= Seq::<TodoView>::empty());
            assert(before.take(0) =~= Seq::<TodoView>::empty());
            reveal(Seq::filter);
        }
        for t in it: taken
            invariant
                todo_views(it.seq()) == before,
                keep == outside_category(category@),
                todo_views(self.todos@) == before.take(it.index() as int).filter(keep),
                self.next_id == old(self).next_id,
        {
            proof {
                lemma_filter_take_next(before, keep, it.index() as int);
                assert(before[it.index() as int] == t@);
            }
            let matches = match &t.category {
                Some(cat) => same_text(cat.as_str(), category),
                None => false,
            };
            if !matches {
                proof {
                    lemma_todo_views_push(self.todos@, t);
                }
                self.todos.push(t);
            }
        }
        proof {
            assert(before.take(before.len() as int) == before);
            before.lemma_filter_len(keep);
        }
        initial_len - self.todos.len()
    }

    /// Removes every task whose status is `status`, and says how many there
    /// were.
    pub fn delete_with_status(&mut self, status: Status) -> (count: usize)
        ensures
            final(self)@.todos == old(self)@.todos.filter(status_is_not(status)),
            final(self)@.next_id == old(self)@.next_id,
            count == old(self)@.todos.len() - final(self)@.todos.len(),
            old(self)@.well_formed() ==> final(self)@.well_formed(),
    {
        proof {
            if self@.well_formed() {
                lemma_filter_keeps_well_formed(self@, status_is_not(status));
            }
        }
        let initial_len = self.todos.len();
        let mut taken: Vec<Todo> = Vec::new();
        core::mem::swap(&mut self.todos, &mut taken);
        let ghost before = todo_views(taken@);
        let ghost keep = status_is_not(status);
        proof {
            assert(todo_views(self.todos@) =~= Seq::<TodoView>::empty());
            assert(before.take(0) =~= Seq::<TodoView>::empty());
            reveal(Seq::filter);
        }
        for t in it: taken
            invariant
                todo_views(it.seq()) == before,
                keep == status_is_not(status),
                todo_views(self.todos@) == before.take(it.index() as int).filter(keep),
                self.next_id == old(self).next_id,
        {
            proof {
                lemma_filter_take_next(before, keep, it.index() as int);
                assert(before[it.index() as int] == t@);
            }
            if t.status != status {
                proof {
                    lemma_todo_views_push(self.todos@, t);
                }
                self.todos.push(t);
            }
        }
        proof {
            assert(before.take(before.len() as int) == before);
            before.lemma_filter_len(keep);
        }
        initial_len - self.todos.len()
    }

    /// Reads a status name, in any letter case, and removes every task with
    /// that status, saying how many there were. A text that names no status
    /// is refused and nothing is removed.
    pub fn delete_by_status(&mut self, status_str: &str) -> (r: Result<usize, TodoError>)
        ensures
            final(self)@.next_id == old(self)@.next_id,
            match status_named(lowercase(status_str@)) {
                Some(status) => {
                    &&& final(self)@.todos == old(self)@.todos.filter(status_is_not(status))
                    &&& r == Ok::<usize, TodoError>(
                        (old(self)@.todos.len() - final(self)@.todos.len()) as usize,
                    )
                },
                None => final(self)@.todos == old(self)@.todos && r == Err::<usize, TodoError>(
                    TodoError::InvalidStatus,
                ),
            },
            old(self)@.well_formed() ==> final(self)@.well_formed(),
    {
        match parse_status(status_str) {
            Ok(status) => Ok(self.delete_with_status(status)),
            Err(e) => Err(e),
        }
    }
    /// Updates the task with the id `id` from texts, at time `now`, as
    /// [`update_outcome`] defines it.
    pub fn update_todo_at(
        &mut self,
        id: u32,
        status: Option<String>,
        priority: Option<String>,
        tags: Option<String>,
        category: Option<String>,
        project: Option<String>,
        notes: Option<String>,
        now: Timestamp,
    ) -> (r: Result<(), TodoError>)
        ensures
            (final(self)@, r) == update_outcome(
                old(self)@,
                id,
                opt_text(status),
                opt_text(priority),
                opt_text(tags),
                opt_text(category),
                opt_text(project),
                opt_text(notes),
                now,
            ),
            old(self)@.well_formed() ==> final(self)@.well_formed(),
    {
        match self.position(id) {
            Some(i) => {
                let ghost before = self.todos@;
                let r = self.todos[i].apply_update(
                    status,
                    priority,
                    tags,
                    category,
                    project,
                    notes,
                    now,
                );
                proof {
                    assert(todo_views(self.todos@) =~= todo_views(before).update(
                        i as int,
                        self.todos@[i as int]@,
                    ));
                }
                r
            },
            None => Err(TodoError::NotFound { id }),
        }
    }

    /// Updates the task with the id `id` from texts, at the current time: the
    /// outcome is that of [`update_outcome`] for some time `now`.
    pub fn update_todo(
        &mut self,
        id: u32,
        status: Option<String>,
        priority: Option<String>,
        tags: Option<String>,
        category: Option<String>,
        project: Option<String>,
        notes: Option<String>,
    ) -> (r: Result<(), TodoError>)
        ensures
            exists|now: Timestamp|
                now.sub_second() && (final(self)@, r) == #[trigger] update_outcome(
                    old(self)@,
                    id,
                    opt_text(status),
                    opt_text(priority),
                    opt_text(tags),
                    opt_text(category),
                    opt_text(project),
                    opt_text(notes),
                    now,
                ),
            old(self)@.well_formed() ==> final(self)@.well_formed(),
    {
        let now = Timestamp::now();
        self.update_todo_at(id, status, priority, tags, category, project, notes, now)
    }
    /// The tasks that pass the listing filter, in the order of the
    /// collection: see [`passes_filter`]. Unless `all` is set, no archived
    /// task is among them.
    pub fn filter_todos(
        &self,
        status: Option<String>,
        category: Option<String>,
        priority: Option<String>,
        tags: Option<String>,
        all: bool,
    ) -> (found: Vec<&Todo>)
        ensures
            ref_views(found@) == self@.todos.filter(
                listing_filter(
                    opt_text(status),
                    opt_text(category),
                    opt_text(priority),
                    opt_text(tags),
                    all,
                ),
            ),
            !all ==> forall|i: int|
                0 <= i < found.len() ==> (#[trigger] found@[i])@.status != Status::Archived,
    {
        let ghost keep = listing_filter(
            opt_text(status),
            opt_text(category),
            opt_text(priority),
            opt_text(tags),
            all,
        );
        let target_status: Option<Status> = match &status {
            Some(s) => match parse_status(s.as_str()) {
                Ok(x) => Some(x),
                Err(_) => None,
            },
            None => None,
        };
        let target_priority: Option<Priority> = match &priority {
            Some(p) => match parse_priority(p.as_str()) {
                Ok(x) => Some(x),
                Err(_) => None,
            },
            None => None,
        };
        let target_tags: Option<Vec<String>> = match &tags {
            Some(t) => Some(split_wanted_tags(t.as_str())),
            None => None,
        };
        let mut found: Vec<&Todo> = Vec::new();
        let mut i: usize = 0;
        proof {
            assert(ref_views(found@) =~= Seq::<TodoView>::empty());
            assert(self@.todos.take(0) =~= Seq::<TodoView>::empty());
            reveal(Seq::filter);
        }
        while i < self.todos.len()
            invariant
                i <= self.todos.len(),
                keep == listing_filter(
                    opt_text(status),
                    opt_text(category),
                    opt_text(priority),
                    opt_text(tags),
                    all,
                ),
                target_status == (if status is Some {
                    status_named(lowercase(status->0@))
                } else {
                    None
                }),
                target_priority == (if priority is Some {
                    priority_named(lowercase(priority->0@))
                } else {
                    None
                }),
                target_tags is Some == tags is Some,
                tags is Some ==> strings_view(target_tags->0@) == wanted_tags(tags->0@),
                ref_views(found@) == self@.todos.take(i as int).filter(keep),
                !all ==> forall|j: int|
                    0 <= j < found.len() ==> (#[trigger] found@[j])@.status != Status::Archived,
            decreases self.todos.len() - i,
        {
            let todo = &self.todos[i];
            proof {
                lemma_filter_take_next(self@.todos, keep, i as int);
                assert(self@.todos[i as int] == todo@);
            }
            let visible = all || todo.status != Status::Archived;
            let status_ok = match target_status {
                Some(s) => todo.status == s,
                None => true,
            };
            let category_ok = match &category {
                Some(wanted) => match &todo.category {
                    Some(cat) => same_text(cat.as_str(), wanted.as_str()),
                    None => false,
                },
                None => true,
            };
            let priority_ok = match target_priority {
                Some(p) => todo.priority == p,
                None => true,
            };
            let tags_ok = match &target_tags {
                Some(wanted) => carries_all(todo, wanted),
                None => true,
            };
            if visible && status_ok && category_ok && priority_ok && tags_ok {
                proof {
                    lemma_ref_views_push(found@, todo);
                }
                found.push(todo);
            }
            i += 1;
        }
        proof {
            assert(self@.todos.take(self.todos.len() as int) == self@.todos);
        }
        found
    }
}

} // verus!
