//! Stable sorting of tasks, as a mathematical function and as laws about it.

use crate::todo::TodoView;
use vstd::prelude::*;

verus! {

/// More urgent first; among equal priorities, the task created later first.
pub open spec fn by_priority() -> spec_fn(TodoView, TodoView) -> bool {
    |a: TodoView, b: TodoView|
        a.priority.rank() < b.priority.rank() || (a.priority.rank() == b.priority.rank()
            && b.created_date.before(a.created_date))
}

/// The task created later first.
pub open spec fn by_date() -> spec_fn(TodoView, TodoView) -> bool {
    |a: TodoView, b: TodoView| b.created_date.before(a.created_date)
}

/// The lower id first.
pub open spec fn by_id() -> spec_fn(TodoView, TodoView) -> bool {
    |a: TodoView, b: TodoView| a.id < b.id
}

/// Where `x` goes into the sorted sequence `s`: behind every element that it
/// does not strictly precede, counted from the end.
pub open spec fn insertion_point(
    s: Seq<TodoView>,
    x: TodoView,
    precedes: spec_fn(TodoView, TodoView) -> bool,
) -> int
    decreases s.len(),
{
    if s.len() > 0 && precedes(x, s.last()) {
        insertion_point(s.drop_last(), x, precedes)
    } else {
        s.len() as int
    }
}

/// The tasks of `s` in the order that `precedes` asks for, where tasks that
/// neither precede the other keep the order they had in `s`.
pub open spec fn stable_sorted(
    s: Seq<TodoView>,
    precedes: spec_fn(TodoView, TodoView) -> bool,
) -> Seq<TodoView>
    decreases s.len(),
{
    if s.len() == 0 {
        s
    } else {
        let sorted = stable_sorted(s.drop_last(), precedes);
        sorted.insert(insertion_point(sorted, s.last(), precedes), s.last())
    }
}

/// No task stands behind one that it strictly precedes.
pub open spec fn in_order(s: Seq<TodoView>, precedes: spec_fn(TodoView, TodoView) -> bool) -> bool {
    forall|i: int, j: int| 0 <= i < j < s.len() ==> !precedes(#[trigger] s[j], #[trigger] s[i])
}

/// What makes `precedes` an order to sort by: two tasks never precede each
/// other; and where `a` does not precede `b` and `b` does not precede `c`,
/// `a` does not precede `c`.
pub open spec fn sortable(precedes: spec_fn(TodoView, TodoView) -> bool) -> bool {
    &&& forall|a: TodoView, b: TodoView| #[trigger] precedes(a, b) ==> !precedes(b, a)
    &&& forall|a: TodoView, b: TodoView, c: TodoView|
        !#[trigger] precedes(a, b) && !#[trigger] precedes(b, c) ==> !precedes(a, c)
}

/// Both orders of this library can be sorted by.
pub proof fn lemma_orders_are_sortable()
    ensures
        sortable(by_priority()),
        sortable(by_date()),
        sortable(by_id()),
{
}

/// The insertion point lies within the sequence; `x` strictly precedes every
/// element from there on, and not the element just before it.
pub proof fn lemma_insertion_point(
    s: Seq<TodoView>,
    x: TodoView,
    precedes: spec_fn(TodoView, TodoView) -> bool,
)
    ensures
        0 <= insertion_point(s, x, precedes) <= s.len(),
        forall|k: int| insertion_point(s, x, precedes) <= k < s.len() ==> precedes(x, #[trigger] s[k]),
        insertion_point(s, x, precedes) > 0 ==> !precedes(
            x,
            s[insertion_point(s, x, precedes) - 1],
        ),
    decreases s.len(),
{
    if s.len() > 0 && precedes(x, s.last()) {
        lemma_insertion_point(s.drop_last(), x, precedes);
        let p = insertion_point(s.drop_last(), x, precedes);
        assert forall|k: int| p <= k < s.len() implies precedes(x, #[trigger] s[k]) by {
            if k < s.len() - 1 {
                assert(s[k] == s.drop_last()[k]);
            }
        }
        if p > 0 {
            assert(s[p - 1] == s.drop_last()[p - 1]);
        }
    }
}

/// Sorting keeps the tasks: each one is there as often as before.
pub proof fn lemma_stable_sorted_keeps_tasks(
    s: Seq<TodoView>,
    precedes: spec_fn(TodoView, TodoView) -> bool,
)
    ensures
        stable_sorted(s, precedes).len() == s.len(),
        stable_sorted(s, precedes).to_multiset() == s.to_multiset(),
    decreases s.len(),
{
    broadcast use vstd::seq_lib::group_to_multiset_ensures;

    if s.len() > 0 {
        let rest = s.drop_last();
        let sorted = stable_sorted(rest, precedes);
        lemma_stable_sorted_keeps_tasks(rest, precedes);
        lemma_insertion_point(sorted, s.last(), precedes);
        let p = insertion_point(sorted, s.last(), precedes);
        assert(rest.push(s.last()) == s);
        assert(sorted.insert(p, s.last()).to_multiset() == sorted.to_multiset().insert(s.last()));
        assert(rest.push(s.last()).to_multiset() == rest.to_multiset().insert(s.last()));
    }
}

/// Sorting by an order that can be sorted by puts the tasks in that order.
pub proof fn lemma_stable_sorted_is_in_order(
    s: Seq<TodoView>,
    precedes: spec_fn(TodoView, TodoView) -> bool,
)
    requires
        sortable(precedes),
    ensures
        in_order(stable_sorted(s, precedes), precedes),
    decreases s.len(),
{
    if s.len() > 0 {
        let x = s.last();
        let sorted = stable_sorted(s.drop_last(), precedes);
        lemma_stable_sorted_is_in_order(s.drop_last(), precedes);
        lemma_insertion_point(sorted, x, precedes);
        let p = insertion_point(sorted, x, precedes);
        let out = sorted.insert(p, x);
        assert forall|i: int, j: int| 0 <= i < j < out.len() implies !precedes(
            #[trigger] out[j],
            #[trigger] out[i],
        ) by {
            if j == p {
                // out[j] is x, out[i] stands before the insertion point.
                assert(out[i] == sorted[i]);
                if i < p - 1 {
                    assert(!precedes(sorted[p - 1], sorted[i]));
                }
                assert(!precedes(x, sorted[p - 1]));
            } else if i == p {
                // out[i] is x, out[j] stands behind it: x strictly precedes it.
                assert(out[j] == sorted[j - 1]);
                assert(precedes(x, sorted[j - 1]));
            } else {
                let a = if i < p { i } else { i - 1 };
                let b = if j < p { j } else { j - 1 };
                assert(out[i] == sorted[a]);
                assert(out[j] == sorted[b]);
            }
        }
    }
}

/// Of two tasks the more urgent one is sorted first, whichever came first.
pub proof fn lemma_more_urgent_sorts_first(urgent: TodoView, other: TodoView)
    requires
        urgent.priority.rank() < other.priority.rank(),
    ensures
        stable_sorted(seq![urgent, other], by_priority()) == seq![urgent, other],
        stable_sorted(seq![other, urgent], by_priority()) == seq![urgent, other],
{
    let order = by_priority();
    let none = Seq::<TodoView>::empty();
    assert(seq![urgent, other].drop_last() == seq![urgent]);
    assert(seq![other, urgent].drop_last() == seq![other]);
    assert(seq![urgent].drop_last() == none);
    assert(seq![other].drop_last() == none);
    assert(stable_sorted(none, order) == none);
    assert(insertion_point(none, urgent, order) == 0);
    assert(insertion_point(none, other, order) == 0);
    assert(none.insert(0, urgent) == seq![urgent]);
    assert(none.insert(0, other) == seq![other]);
    assert(stable_sorted(seq![urgent], order) == seq![urgent]);
    assert(stable_sorted(seq![other], order) == seq![other]);
    assert(!order(other, urgent));
    assert(order(urgent, other));
    assert(insertion_point(seq![urgent], other, order) == 1);
    assert(seq![other].drop_last() == none);
    assert(insertion_point(seq![other], urgent, order) == 0);
    assert(seq![urgent].insert(1, other) == seq![urgent, other]);
    assert(seq![other].insert(0, urgent) == seq![urgent, other]);
}

} // verus!
