//! The read-only filter and search engine over a sequence of tasks.

use crate::priority::{parse_priority_for_filter, priority_named, Priority};
use crate::seqs::lemma_filter_take_next;
use crate::sorting::{
    by_date, by_id, by_priority, in_order, insertion_point, lemma_orders_are_sortable,
    lemma_stable_sorted_is_in_order, lemma_stable_sorted_keeps_tasks, stable_sorted,
};
use crate::status::{parse_status_for_filter, status_named, Status};
use crate::tags::has_tag;
use crate::text::{
    char_count, chars_of, contains_chars, contains_text, lowercase, same_text, skip_first,
    starts_with, starts_with_char, strings_view, to_lowercase,
};
use crate::todo::{Todo, TodoView};
use crate::todo_list::{lemma_ref_views_push, ref_views, todo_views};
use vstd::prelude::*;

verus! {

/// One of the task's tags, lowercased, contains `needle`.
pub open spec fn some_tag_mentions(tags: Seq<Seq<char>>, needle: Seq<char>) -> bool {
    exists|k: int| 0 <= k < tags.len() && contains_text(lowercase(#[trigger] tags[k]), needle)
}

/// The text `needle` occurs in the lowercased title, notes, category or
/// project of the task, or in one of its lowercased tags.
pub open spec fn mentions(todo: TodoView, needle: Seq<char>) -> bool {
    ||| contains_text(lowercase(todo.title), needle)
    ||| todo.notes is Some && contains_text(lowercase(todo.notes->0), needle)
    ||| some_tag_mentions(todo.tags, needle)
    ||| todo.category is Some && contains_text(lowercase(todo.category->0), needle)
    ||| todo.project is Some && contains_text(lowercase(todo.project->0), needle)
}

/// Whether a free-text search for `query` finds the task: it is not archived
/// and mentions the lowercased query. The empty query finds every task that
/// is not archived.
pub open spec fn matches_search(todo: TodoView, query: Seq<char>) -> bool {
    todo.status != Status::Archived && (query.len() == 0 || mentions(todo, lowercase(query)))
}

/// The free-text search as a test on tasks.
pub open spec fn search_filter(query: Seq<char>) -> spec_fn(TodoView) -> bool {
    |todo: TodoView| matches_search(todo, query)
}

/// Whether a query in the compact syntax finds the task. The forms are tried
/// in this order: `#x` asks for the tag that is `x` lowercased; `@x` asks for a
/// category that equals `x` once both are lowercased; `!x` asks for the
/// status that `x`, lowercased, names; two characters beginning with `p` ask
/// for the priority they name. A `!` or `p` query that names nothing, and
/// every other query, is a free-text search for the whole query.
pub open spec fn matches_query(todo: TodoView, query: Seq<char>) -> bool {
    if starts_with(query, '#') {
        todo.tags.contains(lowercase(query.drop_first()))
    } else if starts_with(query, '@') {
        todo.category is Some && lowercase(todo.category->0) == lowercase(query.drop_first())
    } else if starts_with(query, '!') && status_named(lowercase(query.drop_first())) is Some {
        todo.status == status_named(lowercase(query.drop_first()))->0
    } else if starts_with(query, 'p') && query.len() == 2 && priority_named(query) is Some {
        todo.priority == priority_named(query)->0
    } else {
        matches_search(todo, query)
    }
}

/// The compact query syntax as a test on tasks.
pub open spec fn query_filter(query: Seq<char>) -> spec_fn(TodoView) -> bool {
    |todo: TodoView| matches_query(todo, query)
}

/// The test that a task is still to do or in progress.
pub open spec fn active_filter() -> spec_fn(TodoView) -> bool {
    |todo: TodoView| todo.status.active()
}

/// Whether the lowercased text contains the needle.
fn lower_contains(text: &str, needle: &Vec<char>) -> (r: bool)
    ensures
        r == contains_text(lowercase(text@), needle@),
{
    let lower = to_lowercase(text);
    let chars = chars_of(lower.as_str());
    contains_chars(&chars, needle)
}

/// Whether the lowercased optional text contains the needle.
fn lower_opt_contains(text: &Option<String>, needle: &Vec<char>) -> (r: bool)
    ensures
        r == (text is Some && contains_text(lowercase(text->0@), needle@)),
{
    match text {
        Some(t) => lower_contains(t.as_str(), needle),
        None => false,
    }
}

/// Whether one of the tags, lowercased, contains the needle.
fn tags_mention(tags: &Vec<String>, needle: &Vec<char>) -> (r: bool)
    ensures
        r == some_tag_mentions(strings_view(tags@), needle@),
{
    let mut k: usize = 0;
    while k < tags.len()
        invariant
            k <= tags.len(),
            forall|j: int|
                0 <= j < k ==> !contains_text(
                    lowercase(#[trigger] strings_view(tags@)[j]),
                    needle@,
                ),
        decreases tags.len() - k,
    {
        proof {
            assert(strings_view(tags@)[k as int] == tags@[k as int]@);
        }
        if lower_contains(tags[k].as_str(), needle) {
            return true;
        }
        k += 1;
    }
    false
}

/// Whether the task mentions the needle: see [`mentions`].
pub(crate) fn todo_mentions(todo: &Todo, needle: &Vec<char>) -> (r: bool)
    ensures
        r == mentions(todo@, needle@),
{
    lower_contains(todo.title.as_str(), needle) || lower_opt_contains(&todo.notes, needle)
        || tags_mention(&todo.tags, needle) || lower_opt_contains(&todo.category, needle)
        || lower_opt_contains(&todo.project, needle)
}

/// The tasks that a free-text search for `query` finds, in their order:
/// those that are not archived and whose title, notes, category, project or
/// one of whose tags contains the query, letter case aside.
pub fn search_todos<'a>(todos: &'a [Todo], query: &str) -> (found: Vec<&'a Todo>)
    ensures
        ref_views(found@) == todo_views(todos@).filter(search_filter(query@)),
{
    let ghost keep = search_filter(query@);
    let ghost views = todo_views(todos@);
    let any = char_count(query) == 0;
    let query_lower = to_lowercase(query);
    let needle = chars_of(query_lower.as_str());
    let mut found: Vec<&Todo> = Vec::new();
    let mut i: usize = 0;
    proof {
        assert(ref_views(found@) =~= Seq::<TodoView>::empty());
        assert(views.take(0) =~= Seq::<TodoView>::empty());
        reveal(Seq::filter);
    }
    while i < todos.len()
        invariant
            i <= todos.len(),
            keep == search_filter(query@),
            views == todo_views(todos@),
            any == (query@.len() == 0),
            needle@ == lowercase(query@),
            ref_views(found@) == views.take(i as int).filter(keep),
        decreases todos.len() - i,
    {
        let todo = &todos[i];
        proof {
            lemma_filter_take_next(views, keep, i as int);
            assert(views[i as int] == todo@);
        }
        if todo.status != Status::Archived && (any || todo_mentions(todo, &needle)) {
            proof {
                lemma_ref_views_push(found@, todo);
            }
            found.push(todo);
        }
        i += 1;
    }
    proof {
        assert(views.take(todos.len() as int) == views);
    }
    found
}

/// A query of the compact syntax, read once.
pub(crate) enum Query {
    Tag(String),
    Category(String),
    WithStatus(Status),
    WithPriority(Priority),
    Text(Vec<char>),
    Everything,
}

impl Query {
    /// What the query asks of a task.
    pub(crate) open spec fn accepts(self, todo: TodoView) -> bool {
        match self {
            Query::Tag(tag) => todo.tags.contains(tag@),
            Query::Category(category) => todo.category is Some && lowercase(todo.category->0)
                == category@,
            Query::WithStatus(status) => todo.status == status,
            Query::WithPriority(priority) => todo.priority == priority,
            Query::Text(needle) => todo.status != Status::Archived && mentions(todo, needle@),
            Query::Everything => todo.status != Status::Archived,
        }
    }

    /// Reads a query of the compact syntax.
    pub(crate) fn read(query: &str) -> (q: Query)
        ensures
            forall|todo: TodoView| #[trigger] q.accepts(todo) == matches_query(todo, query@),
    {
        if starts_with_char(query, '#') {
            let rest = skip_first(query);
            return Query::Tag(to_lowercase(rest.as_str()));
        }
        if starts_with_char(query, '@') {
            let rest = skip_first(query);
            return Query::Category(to_lowercase(rest.as_str()));
        }
        if starts_with_char(query, '!') {
            let rest = skip_first(query);
            let status_str = to_lowercase(rest.as_str());
            match parse_status_for_filter(status_str.as_str()) {
                Ok(status) => {
                    return Query::WithStatus(status);
                },
                Err(_) => {},
            }
        }
        if starts_with_char(query, 'p') && char_count(query) == 2 {
            match parse_priority_for_filter(query) {
                Ok(priority) => {
                    return Query::WithPriority(priority);
                },
                Err(_) => {},
            }
        }
        if char_count(query) == 0 {
            return Query::Everything;
        }
        let query_lower = to_lowercase(query);
        Query::Text(chars_of(query_lower.as_str()))
    }

    /// Whether the task is what the query asks for.
    pub(crate) fn test(&self, todo: &Todo) -> (r: bool)
        ensures
            r == self.accepts(todo@),
    {
        match self {
            Query::Tag(tag) => has_tag(&todo.tags, tag.as_str()),
            Query::Category(category) => match &todo.category {
                Some(cat) => {
                    let lower = to_lowercase(cat.as_str());
                    same_text(lower.as_str(), category.as_str())
                },
                None => false,
            },
            Query::WithStatus(status) => todo.status == *status,
            Query::WithPriority(priority) => todo.priority == *priority,
            Query::Text(needle) => todo.status != Status::Archived && todo_mentions(todo, needle),
            Query::Everything => todo.status != Status::Archived,
        }
    }
}

/// The tasks that a query in the compact syntax finds, in their order: see
/// [`matches_query`]. Only the free-text search leaves archived tasks out.
pub fn filter_by_special_syntax<'a>(todos: &'a [Todo], query: &str) -> (found: Vec<&'a Todo>)
    ensures
        ref_views(found@) == todo_views(todos@).filter(query_filter(query@)),
{
    let ghost keep = query_filter(query@);
    let ghost views = todo_views(todos@);
    let parsed = Query::read(query);
    let mut found: Vec<&Todo> = Vec::new();
    let mut i: usize = 0;
    proof {
        assert(ref_views(found@) =~= Seq::<TodoView>::empty());
        assert(views.take(0) =~= Seq::<TodoView>::empty());
        reveal(Seq::filter);
    }
    while i < todos.len()
        invariant
            i <= todos.len(),
            keep == query_filter(query@),
            views == todo_views(todos@),
            forall|todo: TodoView| #[trigger] parsed.accepts(todo) == matches_query(todo, query@),
            ref_views(found@) == views.take(i as int).filter(keep),
        decreases todos.len() - i,
    {
        let todo = &todos[i];
        proof {
            lemma_filter_take_next(views, keep, i as int);
            assert(views[i as int] == todo@);
        }
        if parsed.test(todo) {
            proof {
                lemma_ref_views_push(found@, todo);
            }
            found.push(todo);
        }
        i += 1;
    }
    proof {
        assert(views.take(todos.len() as int) == views);
    }
    found
}

/// The tasks that are still to do or in progress, in their order.
pub fn get_active_todos<'a>(todos: &'a [Todo]) -> (found: Vec<&'a Todo>)
    ensures
        ref_views(found@) == todo_views(todos@).filter(active_filter()),
{
    let ghost keep = active_filter();
    let ghost views = todo_views(todos@);
    let mut found: Vec<&Todo> = Vec::new();
    let mut i: usize = 0;
    proof {
        assert(ref_views(found@) =~= Seq::<TodoView>::empty());
        assert(views.take(0) =~= Seq::<TodoView>::empty());
        reveal(Seq::filter);
    }
    while i < todos.len()
        invariant
            i <= todos.len(),
            keep == active_filter(),
            views == todo_views(todos@),
            ref_views(found@) == views.take(i as int).filter(keep),
        decreases todos.len() - i,
    {
        let todo = &todos[i];
        proof {
            lemma_filter_take_next(views, keep, i as int);
            assert(views[i as int] == todo@);
        }
        if todo.is_active() {
            proof {
                lemma_ref_views_push(found@, todo);
            }
            found.push(todo);
        }
        i += 1;
    }
    proof {
        assert(views.take(todos.len() as int) == views);
    }
    found
}

/// Every task, archived ones too, in their order.
pub fn get_all_todos_including_archived<'a>(todos: &'a [Todo]) -> (found: Vec<&'a Todo>)
    ensures
        ref_views(found@) == todo_views(todos@),
{
    let mut found: Vec<&Todo> = Vec::new();
    let mut i: usize = 0;
    proof {
        assert(ref_views(found@) =~= todo_views(todos@).take(0));
    }
    while i < todos.len()
        invariant
            i <= todos.len(),
            ref_views(found@) == todo_views(todos@).take(i as int),
        decreases todos.len() - i,
    {
        let todo = &todos[i];
        proof {
            lemma_ref_views_push(found@, todo);
            assert(todo_views(todos@).take(i + 1) == todo_views(todos@).take(i as int).push(
                todo@,
            ));
        }
        found.push(todo);
        i += 1;
    }
    proof {
        assert(todo_views(todos@).take(todos.len() as int) == todo_views(todos@));
    }
    found
}

/// The two orders that tasks are sorted by.
enum SortKey {
    Priority,
    Date,
    Id,
}

impl SortKey {
    /// The order as a relation on tasks.
    spec fn order(self) -> spec_fn(TodoView, TodoView) -> bool {
        match self {
            SortKey::Priority => by_priority(),
            SortKey::Date => by_date(),
            SortKey::Id => by_id(),
        }
    }

    /// Whether `a` strictly precedes `b` in the order.
    fn precedes(&self, a: &Todo, b: &Todo) -> (r: bool)
        ensures
            r == (self.order())(a@, b@),
    {
        match self {
            SortKey::Priority => {
                let x = a.priority_value();
                let y = b.priority_value();
                x < y || (x == y && b.created_date.is_before(&a.created_date))
            },
            SortKey::Date => b.created_date.is_before(&a.created_date),
            SortKey::Id => a.id < b.id,
        }
    }
}

/// Sorts the tasks by insertion, which keeps tasks of equal standing in the
/// order they had.
fn sort_refs<'a>(todos: &mut Vec<&'a Todo>, key: SortKey)
    ensures
        ref_views(final(todos)@) == stable_sorted(ref_views(old(todos)@), key.order()),
{
    let ghost order = key.order();
    let ghost views = ref_views(todos@);
    let mut out: Vec<&'a Todo> = Vec::new();
    let mut i: usize = 0;
    proof {
        assert(ref_views(out@) =~= Seq::<TodoView>::empty());
        assert(views.take(0) =~= Seq::<TodoView>::empty());
    }
    while i < todos.len()
        invariant
            i <= todos.len(),
            order == key.order(),
            views == ref_views(todos@),
            ref_views(out@) == stable_sorted(views.take(i as int), order),
        decreases todos.len() - i,
    {
        let x: &'a Todo = todos[i];
        let ghost sorted = ref_views(out@);
        let mut p: usize = out.len();
        proof {
            assert(sorted.take(p as int) == sorted);
        }
        while p > 0 && key.precedes(x, out[p - 1])
            invariant
                p <= out.len(),
                order == key.order(),
                sorted == ref_views(out@),
                insertion_point(sorted, x@, order) == insertion_point(
                    sorted.take(p as int),
                    x@,
                    order,
                ),
            decreases p,
        {
            proof {
                assert(sorted.take(p as int).last() == out@[p - 1]@);
                assert(sorted.take(p as int).drop_last() == sorted.take(p - 1));
            }
            p -= 1;
        }
        proof {
            if p > 0 {
                assert(sorted.take(p as int).last() == out@[p - 1]@);
            }
            assert(insertion_point(sorted, x@, order) == p);
            assert(views.take(i + 1).drop_last() == views.take(i as int));
            assert(views.take(i + 1).last() == x@);
            assert(ref_views(out@.insert(p as int, x)) =~= sorted.insert(p as int, x@));
        }
        out.insert(p, x);
        i += 1;
    }
    proof {
        assert(views.take(todos.len() as int) == views);
    }
    *todos = out;
}

/// Sorts the tasks by priority, most urgent first; among equal priorities the
/// task created later comes first, and tasks equal in both keep their order.
pub fn sort_todos_by_priority<'a>(todos: &mut Vec<&'a Todo>)
    ensures
        ref_views(final(todos)@) == stable_sorted(ref_views(old(todos)@), by_priority()),
        in_order(ref_views(final(todos)@), by_priority()),
        ref_views(final(todos)@).to_multiset() == ref_views(old(todos)@).to_multiset(),
{
    proof {
        lemma_orders_are_sortable();
        lemma_stable_sorted_is_in_order(ref_views(todos@), by_priority());
        lemma_stable_sorted_keeps_tasks(ref_views(todos@), by_priority());
    }
    sort_refs(todos, SortKey::Priority)
}

/// Sorts the tasks by id, lowest first; tasks with the same id keep their
/// order.
pub fn sort_todos_by_id<'a>(todos: &mut Vec<&'a Todo>)
    ensures
        ref_views(final(todos)@) == stable_sorted(ref_views(old(todos)@), by_id()),
        in_order(ref_views(final(todos)@), by_id()),
        ref_views(final(todos)@).to_multiset() == ref_views(old(todos)@).to_multiset(),
{
    proof {
        lemma_orders_are_sortable();
        lemma_stable_sorted_is_in_order(ref_views(todos@), by_id());
        lemma_stable_sorted_keeps_tasks(ref_views(todos@), by_id());
    }
    sort_refs(todos, SortKey::Id)
}

/// Sorts the tasks by creation time, latest first; tasks created at the same
/// time keep their order.
pub fn sort_todos_by_date<'a>(todos: &mut Vec<&'a Todo>)
    ensures
        ref_views(final(todos)@) == stable_sorted(ref_views(old(todos)@), by_date()),
        in_order(ref_views(final(todos)@), by_date()),
        ref_views(final(todos)@).to_multiset() == ref_views(old(todos)@).to_multiset(),
{
    proof {
        lemma_orders_are_sortable();
        lemma_stable_sorted_is_in_order(ref_views(todos@), by_date());
        lemma_stable_sorted_keeps_tasks(ref_views(todos@), by_date());
    }
    sort_refs(todos, SortKey::Date)
}

} // verus!
