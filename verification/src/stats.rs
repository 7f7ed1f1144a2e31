//! Counts of the tasks of a collection, by status, priority and category.

use crate::priority::Priority;
use crate::seqs::{equal_to, first_index, lemma_first_index, lemma_first_index_is};
use crate::status::Status;
use crate::text::same_text;
use crate::todo::TodoView;
use crate::todo_list::TodoList;
use vstd::prelude::*;

verus! {

/// The test that a group is the one of `key`.
pub open spec fn is_group_of<K>(key: K) -> spec_fn((K, nat)) -> bool {
    |group: (K, nat)| group.0 == key
}

/// The groups after one more task with the key `key` was counted: its group
/// grows by one, or a new group of one is put at the end.
pub open spec fn counted<K>(groups: Seq<(K, nat)>, key: K) -> Seq<(K, nat)> {
    let i = first_index(groups, is_group_of(key));
    if i < groups.len() {
        groups.update(i, (key, groups[i].1 + 1))
    } else {
        groups.push((key, 1nat))
    }
}

/// The number of tasks for each key, the keys in the order in which they
/// first occur.
pub open spec fn tally<K>(keys: Seq<K>) -> Seq<(K, nat)>
    decreases keys.len(),
{
    if keys.len() == 0 {
        Seq::empty()
    } else {
        counted(tally(keys.drop_last()), keys.last())
    }
}

/// How often `key` occurs among the keys.
pub open spec fn occurrences<K>(keys: Seq<K>, key: K) -> nat {
    keys.filter(equal_to(key)).len()
}

/// What a tally holds: no key twice; for each key that occurs, and for no
/// other, one group; and in each group the number of times its key occurs.
pub proof fn lemma_tally_counts<K>(keys: Seq<K>)
    ensures
        forall|i: int, j: int|
            0 <= i < j < tally(keys).len() ==> (#[trigger] tally(keys)[i]).0 != (
            #[trigger] tally(keys)[j]).0,
        forall|i: int|
            0 <= i < tally(keys).len() ==> (#[trigger] tally(keys)[i]).1 == occurrences(
                keys,
                tally(keys)[i].0,
            ) && tally(keys)[i].1 > 0,
        forall|key: K|
            first_index(tally(keys), is_group_of(key)) == tally(keys).len() ==> #[trigger] occurrences(
                keys,
                key,
            ) == 0,
    decreases keys.len(),
{
    if keys.len() == 0 {
        assert forall|key: K| #[trigger] occurrences(keys, key) == 0 by {
            reveal(Seq::filter);
        }
    } else {
        let rest = keys.drop_last();
        let last = keys.last();
        let before = tally(rest);
        let after = tally(keys);
        lemma_tally_counts(rest);
        lemma_first_index(before, is_group_of(last));
        let at = first_index(before, is_group_of(last));
        assert(rest.push(last) == keys);
        assert forall|key: K| #[trigger]
            occurrences(keys, key) == occurrences(rest, key) + if key == last {
                1nat
            } else {
                0nat
            } by {
            rest.lemma_filter_push(last, equal_to(key));
        }
        assert forall|i: int| 0 <= i < after.len() implies (#[trigger] after[i]).1 == occurrences(
            keys,
            after[i].0,
        ) && after[i].1 > 0 by {
            if i < before.len() && i != at {
                assert(after[i] == before[i]);
                if before[i].0 == last {
                    if at < before.len() {
                        if i < at {
                            assert(!is_group_of(last)(before[i]));
                        } else {
                            assert(before[at].0 != before[i].0);
                        }
                    } else {
                        assert(!is_group_of(last)(before[i]));
                    }
                }
            } else if i == at && at < before.len() {
                assert(before[at].0 == last);
            } else {
                assert(after[i] == (last, 1nat));
                assert(occurrences(rest, last) == 0);
            }
        }
        assert forall|i: int, j: int| 0 <= i < j < after.len() implies (#[trigger] after[i]).0 != (
        #[trigger] after[j]).0 by {
            if at < before.len() {
                assert(after[i].0 == before[i].0);
                assert(after[j].0 == before[j].0);
            } else if j < before.len() {
                assert(after[i] == before[i]);
                assert(after[j] == before[j]);
            } else {
                assert(after[i] == before[i]);
                assert(!is_group_of(last)(before[i]));
            }
        }
        assert forall|key: K|
            first_index(after, is_group_of(key)) == after.len() implies #[trigger] occurrences(
            keys,
            key,
        ) == 0 by {
            lemma_first_index(after, is_group_of(key));
            lemma_first_index(before, is_group_of(key));
            let f = first_index(before, is_group_of(key));
            if f < before.len() {
                assert(after[f].0 == before[f].0);
                assert(is_group_of(key)(after[f]));
                assert(false);
            }
            if key == last {
                if at < before.len() {
                    assert(is_group_of(key)(after[at]));
                } else {
                    assert(is_group_of(key)(after[before.len() as int]));
                }
                assert(false);
            }
        }
    }
}

/// The statuses of the tasks, in their order.
pub open spec fn statuses(todos: Seq<TodoView>) -> Seq<Status> {
    todos.map_values(|t: TodoView| t.status)
}

/// The priorities of the tasks, in their order.
pub open spec fn priorities(todos: Seq<TodoView>) -> Seq<Priority> {
    todos.map_values(|t: TodoView| t.priority)
}

/// The categories of the tasks that have one, in their order.
pub open spec fn categories(todos: Seq<TodoView>) -> Seq<Seq<char>>
    decreases todos.len(),
{
    if todos.len() == 0 {
        Seq::empty()
    } else if todos.last().category is Some {
        categories(todos.drop_last()).push(todos.last().category->0)
    } else {
        categories(todos.drop_last())
    }
}

/// No group counts more than `bound` tasks.
pub open spec fn counts_within<K>(groups: Seq<(K, nat)>, bound: int) -> bool {
    forall|g: int| 0 <= g < groups.len() ==> (#[trigger] groups[g]).1 <= bound
}

/// Counting one more task keeps every count within the number of tasks
/// counted.
pub proof fn lemma_counted_within<K>(groups: Seq<(K, nat)>, key: K, bound: int)
    requires
        counts_within(groups, bound),
        bound >= 0,
    ensures
        counts_within(counted(groups, key), bound + 1),
{
    lemma_first_index(groups, is_group_of(key));
    let out = counted(groups, key);
    let i = first_index(groups, is_group_of(key));
    assert forall|g: int| 0 <= g < out.len() implies (#[trigger] out[g]).1 <= bound + 1 by {
        if g < groups.len() && g != i {
            assert(out[g] == groups[g]);
        } else if g == i && i < groups.len() {
            assert(groups[i].1 <= bound);
        }
    }
}

/// The counts of a collection.
#[derive(Debug)]
pub struct Stats {
    pub total: usize,
    pub by_status: Vec<(Status, usize)>,
    pub by_priority: Vec<(Priority, usize)>,
    pub by_category: Vec<(String, usize)>,
}

/// Groups with machine counts, as groups with natural counts.
pub open spec fn groups_view<K>(groups: Seq<(K, usize)>) -> Seq<(K, nat)> {
    groups.map_values(|g: (K, usize)| (g.0, g.1 as nat))
}

/// Groups keyed by strings, as groups keyed by texts.
pub open spec fn named_groups_view(groups: Seq<(String, usize)>) -> Seq<(Seq<char>, nat)> {
    groups.map_values(|g: (String, usize)| (g.0@, g.1 as nat))
}

/// Counts one more task with the status `key`.
fn count_status(groups: &mut Vec<(Status, usize)>, key: Status, bound: usize)
    requires
        counts_within(groups_view(old(groups)@), bound as int),
        bound < usize::MAX,
    ensures
        groups_view(final(groups)@) == counted(groups_view(old(groups)@), key),
{
    let ghost before = groups_view(groups@);
    let mut i: usize = 0;
    while i < groups.len()
        invariant
            i <= groups.len(),
            before == groups_view(groups@),
            groups@ == old(groups)@,
            counts_within(before, bound as int),
            bound < usize::MAX,
            forall|j: int| 0 <= j < i ==> !is_group_of(key)(#[trigger] before[j]),
        decreases groups.len() - i,
    {
        if groups[i].0 == key {
            proof {
                lemma_first_index_is(before, is_group_of(key), i as int);
                assert(before[i as int].1 <= bound);
            }
            let n = groups[i].1;
            groups[i] = (key, n + 1);
            proof {
                assert(groups_view(groups@) =~= before.update(
                    i as int,
                    (key, (before[i as int].1 + 1) as nat),
                ));
            }
            return ;
        }
        i += 1;
    }
    proof {
        lemma_first_index_is(before, is_group_of(key), i as int);
        assert(groups_view(groups@.push((key, 1usize))) =~= before.push((key, 1nat)));
    }
    groups.push((key, 1));
}

/// Counts one more task with the priority `key`.
fn count_priority(groups: &mut Vec<(Priority, usize)>, key: Priority, bound: usize)
    requires
        counts_within(groups_view(old(groups)@), bound as int),
        bound < usize::MAX,
    ensures
        groups_view(final(groups)@) == counted(groups_view(old(groups)@), key),
{
    let ghost before = groups_view(groups@);
    let mut i: usize = 0;
    while i < groups.len()
        invariant
            i <= groups.len(),
            before == groups_view(groups@),
            groups@ == old(groups)@,
            counts_within(before, bound as int),
            bound < usize::MAX,
            forall|j: int| 0 <= j < i ==> !is_group_of(key)(#[trigger] before[j]),
        decreases groups.len() - i,
    {
        if groups[i].0 == key {
            proof {
                lemma_first_index_is(before, is_group_of(key), i as int);
                assert(before[i as int].1 <= bound);
            }
            let n = groups[i].1;
            groups[i] = (key, n + 1);
            proof {
                assert(groups_view(groups@) =~= before.update(
                    i as int,
                    (key, (before[i as int].1 + 1) as nat),
                ));
            }
            return ;
        }
        i += 1;
    }
    proof {
        lemma_first_index_is(before, is_group_of(key), i as int);
        assert(groups_view(groups@.push((key, 1usize))) =~= before.push((key, 1nat)));
    }
    groups.push((key, 1));
}

/// Counts one more task with the category `key`.
fn count_category(groups: &mut Vec<(String, usize)>, key: &String, bound: usize)
    requires
        counts_within(named_groups_view(old(groups)@), bound as int),
        bound < usize::MAX,
    ensures
        named_groups_view(final(groups)@) == counted(named_groups_view(old(groups)@), key@),
{
    let ghost before = named_groups_view(groups@);
    let mut i: usize = 0;
    while i < groups.len()
        invariant
            i <= groups.len(),
            before == named_groups_view(groups@),
            groups@ == old(groups)@,
            counts_within(before, bound as int),
            bound < usize::MAX,
            forall|j: int| 0 <= j < i ==> !is_group_of(key@)(#[trigger] before[j]),
        decreases groups.len() - i,
    {
        if same_text(groups[i].0.as_str(), key.as_str()) {
            proof {
                lemma_first_index_is(before, is_group_of(key@), i as int);
                assert(before[i as int].1 <= bound);
                assert(before[i as int].0 == key@);
            }
            let n = groups[i].1;
            groups[i].1 = n + 1;
            proof {
                assert(named_groups_view(groups@) =~= before.update(
                    i as int,
                    (key@, (before[i as int].1 + 1) as nat),
                ));
            }
            return ;
        }
        proof {
            assert(before[i as int].0 == groups@[i as int].0@);
        }
        i += 1;
    }
    let name = key.clone();
    proof {
        lemma_first_index_is(before, is_group_of(key@), i as int);
        assert(named_groups_view(groups@.push((name, 1usize))) =~= before.push((key@, 1nat)));
    }
    groups.push((name, 1));
}

impl TodoList {
    /// The counts of the collection: the number of tasks, and the number for
    /// each status, each priority and each category that occurs, every
    /// grouping in the order in which its keys first occur. A task without a
    /// category is in no category group.
    pub fn stats(&self) -> (stats: Stats)
        ensures
            stats.total == self@.todos.len(),
            groups_view(stats.by_status@) == tally(statuses(self@.todos)),
            groups_view(stats.by_priority@) == tally(priorities(self@.todos)),
            named_groups_view(stats.by_category@) == tally(categories(self@.todos)),
    {
        let ghost todos = self@.todos;
        let mut by_status: Vec<(Status, usize)> = Vec::new();
        let mut by_priority: Vec<(Priority, usize)> = Vec::new();
        let mut by_category: Vec<(String, usize)> = Vec::new();
        let mut i: usize = 0;
        proof {
            assert(groups_view(by_status@) =~= Seq::<(Status, nat)>::empty());
            assert(groups_view(by_priority@) =~= Seq::<(Priority, nat)>::empty());
            assert(named_groups_view(by_category@) =~= Seq::<(Seq<char>, nat)>::empty());
            assert(statuses(todos.take(0)) =~= Seq::<Status>::empty());
            assert(priorities(todos.take(0)) =~= Seq::<Priority>::empty());
            assert(todos.take(0) =~= Seq::<TodoView>::empty());
        }
        while i < self.todos.len()
            invariant
                i <= self.todos.len(),
                todos == self@.todos,
                groups_view(by_status@) == tally(statuses(todos.take(i as int))),
                groups_view(by_priority@) == tally(priorities(todos.take(i as int))),
                named_groups_view(by_category@) == tally(categories(todos.take(i as int))),
                counts_within(groups_view(by_status@), i as int),
                counts_within(groups_view(by_priority@), i as int),
                counts_within(named_groups_view(by_category@), i as int),
            decreases self.todos.len() - i,
        {
            let todo = &self.todos[i];
            proof {
                let next = todos.take(i + 1);
                assert(next.drop_last() == todos.take(i as int));
                assert(next.last() == todo@);
                assert(statuses(next).drop_last() == statuses(todos.take(i as int)));
                assert(statuses(next).last() == todo@.status);
                assert(priorities(next).drop_last() == priorities(todos.take(i as int)));
                assert(priorities(next).last() == todo@.priority);
                lemma_counted_within(groups_view(by_status@), todo@.status, i as int);
                lemma_counted_within(groups_view(by_priority@), todo@.priority, i as int);
                if todo@.category is Some {
                    let names = categories(todos.take(i as int));
                    assert(categories(next) == names.push(todo@.category->0));
                    assert(categories(next).drop_last() == names);
                    lemma_counted_within(
                        named_groups_view(by_category@),
                        todo@.category->0,
                        i as int,
                    );
                }
            }
            count_status(&mut by_status, todo.status, i);
            count_priority(&mut by_priority, todo.priority, i);
            if let Some(category) = &todo.category {
                count_category(&mut by_category, category, i);
            }
            i += 1;
        }
        proof {
            assert(todos.take(self.todos.len() as int) == todos);
        }
        Stats { total: self.todos.len(), by_status, by_priority, by_category }
    }
}

} // verus!
