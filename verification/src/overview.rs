//! The overview of a collection: the most urgent active tasks, a few of the
//! others, and three counts.

use crate::filters::{active_filter, get_active_todos, sort_todos_by_id, sort_todos_by_priority};
use crate::priority::Priority;
use crate::seqs::lemma_filter_take_next;
use crate::sorting::{by_id, by_priority, stable_sorted};
use crate::status::Status;
use crate::todo::{Todo, TodoView};
use crate::todo_list::{lemma_ref_views_push, ref_views, TodoList};
use vstd::prelude::*;

verus! {

/// How many of the most urgent tasks the overview shows.
pub const TOP_COUNT: usize = 4;

/// How many of the other tasks the overview shows.
pub const OTHER_COUNT: usize = 3;

/// The ids of the tasks, in their order.
pub open spec fn ids_of(todos: Seq<TodoView>) -> Seq<u32> {
    todos.map_values(|t: TodoView| t.id)
}

/// The test that a task has none of the ids.
pub open spec fn not_among(ids: Seq<u32>) -> spec_fn(TodoView) -> bool {
    |t: TodoView| !ids.contains(t.id)
}

/// The test that a task has the status `status`.
pub open spec fn has_status(status: Status) -> spec_fn(TodoView) -> bool {
    |t: TodoView| t.status == status
}

/// The first `count` tasks, or all of them where there are fewer.
pub open spec fn first_few(todos: Seq<TodoView>, count: int) -> Seq<TodoView> {
    if todos.len() <= count {
        todos
    } else {
        todos.take(count)
    }
}

/// The distance at which the other tasks are picked: a third of their
/// number, and one where they are three or fewer.
pub open spec fn sample_step(len: int) -> int {
    if len > 3 {
        len / 3
    } else {
        1
    }
}

/// Up to three tasks picked at even distances: the first, and every
/// `sample_step`-th after it.
pub open spec fn sampled(todos: Seq<TodoView>) -> Seq<TodoView> {
    let step = sample_step(todos.len() as int);
    if todos.len() == 0 {
        todos
    } else if todos.len() == 1 {
        seq![todos[0]]
    } else if todos.len() == 2 {
        seq![todos[0], todos[1]]
    } else {
        seq![todos[0], todos[step], todos[step + step]]
    }
}

/// The most urgent active tasks of the overview: the active tasks sorted by
/// priority, the first four of them.
pub open spec fn top_tasks(todos: Seq<TodoView>) -> Seq<TodoView> {
    first_few(stable_sorted(todos.filter(active_filter()), by_priority()), TOP_COUNT as int)
}

/// The other tasks of the overview: the active tasks that are not among the
/// most urgent, sorted by id, up to three of them picked at even distances.
pub open spec fn other_tasks(todos: Seq<TodoView>) -> Seq<TodoView> {
    sampled(
        stable_sorted(
            todos.filter(active_filter()).filter(not_among(ids_of(top_tasks(todos)))),
            by_id(),
        ),
    )
}

/// What the overview of a collection shows.
pub struct Overview<'a> {
    pub priority_todos: Vec<&'a Todo>,
    pub other_todos: Vec<&'a Todo>,
    pub total_active: usize,
    pub total_done: usize,
    pub total_in_progress: usize,
}

/// The mark shown beside a task in the overview: `!` for `P0`, `*` for `P1`,
/// else `>` for a task in progress, else `N` for a task with notes, else a
/// blank.
pub open spec fn overview_mark(todo: TodoView) -> char {
    if todo.priority == Priority::P0 {
        '!'
    } else if todo.priority == Priority::P1 {
        '*'
    } else if todo.status == Status::InProgress {
        '>'
    } else if todo.notes is Some {
        'N'
    } else {
        ' '
    }
}

/// The mark shown beside a task in the overview: see [`overview_mark`].
pub fn get_status_icon(todo: &Todo) -> (mark: char)
    ensures
        mark == overview_mark(todo@),
{
    match todo.priority {
        Priority::P0 => '!',
        Priority::P1 => '*',
        _ => {
            if todo.status == Status::InProgress {
                '>'
            } else if todo.notes.is_some() {
                'N'
            } else {
                ' '
            }
        },
    }
}

/// The letter that stands for a status in a listing: `T`, `W`, `D` or `A`.
pub open spec fn status_letter_of(status: Status) -> char {
    match status {
        Status::Todo => 'T',
        Status::InProgress => 'W',
        Status::Done => 'D',
        Status::Archived => 'A',
    }
}

/// The letter that stands for a status in a listing: `T`, `W`, `D` or `A`.
pub fn status_letter(status: &Status) -> (letter: char)
    ensures
        letter == status_letter_of(*status),
{
    match status {
        Status::Todo => 'T',
        Status::InProgress => 'W',
        Status::Done => 'D',
        Status::Archived => 'A',
    }
}

/// How many of the tasks have the status `status`.
fn count_with_status(todos: &Vec<Todo>, status: Status) -> (n: usize)
    ensures
        n == crate::todo_list::todo_views(todos@).filter(has_status(status)).len(),
{
    let ghost views = crate::todo_list::todo_views(todos@);
    let ghost keep = has_status(status);
    let mut n: usize = 0;
    let mut i: usize = 0;
    proof {
        assert(views.take(0) =~= Seq::<TodoView>::empty());
        reveal(Seq::filter);
    }
    while i < todos.len()
        invariant
            i <= todos.len(),
            views == crate::todo_list::todo_views(todos@),
            keep == has_status(status),
            n == views.take(i as int).filter(keep).len(),
            n <= i,
        decreases todos.len() - i,
    {
        proof {
            lemma_filter_take_next(views, keep, i as int);
            assert(views[i as int] == todos@[i as int]@);
        }
        if todos[i].status == status {
            n += 1;
        }
        i += 1;
    }
    proof {
        assert(views.take(todos.len() as int) == views);
    }
    n
}

/// The tasks that have none of the ids of `taken`.
fn without_taken<'a>(todos: &Vec<&'a Todo>, taken: &Vec<&'a Todo>) -> (rest: Vec<&'a Todo>)
    ensures
        ref_views(rest@) == ref_views(todos@).filter(not_among(ids_of(ref_views(taken@)))),
{
    let ghost views = ref_views(todos@);
    let ghost ids = ids_of(ref_views(taken@));
    let ghost keep = not_among(ids);
    let mut rest: Vec<&'a Todo> = Vec::new();
    let mut i: usize = 0;
    proof {
        assert(ref_views(rest@) =~= Seq::<TodoView>::empty());
        assert(views.take(0) =~= Seq::<TodoView>::empty());
        reveal(Seq::filter);
    }
    while i < todos.len()
        invariant
            i <= todos.len(),
            views == ref_views(todos@),
            ids == ids_of(ref_views(taken@)),
            keep == not_among(ids),
            ref_views(rest@) == views.take(i as int).filter(keep),
        decreases todos.len() - i,
    {
        let todo: &'a Todo = todos[i];
        proof {
            lemma_filter_take_next(views, keep, i as int);
            assert(views[i as int] == todo@);
        }
        let mut among = false;
        let mut k: usize = 0;
        while k < taken.len()
            invariant
                k <= taken.len(),
                ids == ids_of(ref_views(taken@)),
                among == exists|j: int| 0 <= j < k && #[trigger] ids[j] == todo.id,
            decreases taken.len() - k,
        {
            proof {
                assert(ids[k as int] == taken@[k as int]@.id);
            }
            if taken[k].id == todo.id {
                among = true;
            }
            k += 1;
        }
        if !among {
            proof {
                lemma_ref_views_push(rest@, todo);
            }
            rest.push(todo);
        }
        i += 1;
    }
    proof {
        assert(views.take(todos.len() as int) == views);
    }
    rest
}

/// The first `count` tasks, or all of them where there are fewer.
fn take_first<'a>(todos: &Vec<&'a Todo>, count: usize) -> (first: Vec<&'a Todo>)
    ensures
        ref_views(first@) == first_few(ref_views(todos@), count as int),
{
    let mut first: Vec<&'a Todo> = Vec::new();
    let mut i: usize = 0;
    proof {
        assert(ref_views(first@) =~= ref_views(todos@).take(0));
    }
    while i < todos.len() && i < count
        invariant
            i <= todos.len(),
            i <= count,
            ref_views(first@) == ref_views(todos@).take(i as int),
        decreases todos.len() - i,
    {
        let todo: &'a Todo = todos[i];
        proof {
            lemma_ref_views_push(first@, todo);
            assert(ref_views(todos@).take(i + 1) == ref_views(todos@).take(i as int).push(todo@));
        }
        first.push(todo);
        i += 1;
    }
    proof {
        if i == todos.len() {
            assert(ref_views(todos@).take(i as int) == ref_views(todos@));
        }
    }
    first
}

/// Up to three tasks picked at even distances: see [`sampled`].
fn sample<'a>(todos: &Vec<&'a Todo>) -> (picked: Vec<&'a Todo>)
    ensures
        ref_views(picked@) == sampled(ref_views(todos@)),
{
    let len = todos.len();
    let mut picked: Vec<&'a Todo> = Vec::new();
    if len == 0 {
        proof {
            assert(ref_views(picked@) =~= ref_views(todos@));
        }
        return picked;
    }
    let step = if len > 3 {
        len / 3
    } else {
        1
    };
    picked.push(todos[0]);
    if len >= 2 {
        picked.push(todos[step]);
    }
    if len >= 3 {
        picked.push(todos[step + step]);
    }
    proof {
        assert(ref_views(picked@) =~= sampled(ref_views(todos@)));
    }
    picked
}

impl TodoList {
    /// The overview of the collection: see [`top_tasks`] and [`other_tasks`].
    /// The counts are those of the whole collection: the tasks to do or in
    /// progress, the tasks done, and the tasks in progress.
    pub fn overview(&self) -> (overview: Overview<'_>)
        ensures
            ref_views(overview.priority_todos@) == top_tasks(self@.todos),
            ref_views(overview.other_todos@) == other_tasks(self@.todos),
            overview.total_active == self@.todos.filter(active_filter()).len(),
            overview.total_done == self@.todos.filter(has_status(Status::Done)).len(),
            overview.total_in_progress == self@.todos.filter(has_status(Status::InProgress)).len(),
    {
        let active = get_active_todos(self.todos.as_slice());
        let total_active = active.len();
        let mut sorted = get_active_todos(self.todos.as_slice());
        sort_todos_by_priority(&mut sorted);
        let priority_todos = take_first(&sorted, TOP_COUNT);
        let mut remaining = without_taken(&active, &priority_todos);
        sort_todos_by_id(&mut remaining);
        let other_todos = sample(&remaining);
        Overview {
            priority_todos,
            other_todos,
            total_active,
            total_done: count_with_status(&self.todos, Status::Done),
            total_in_progress: count_with_status(&self.todos, Status::InProgress),
        }
    }
}

} // verus!
