//! Small facts about sequences that the rest of the library leans on.

use vstd::prelude::*;

verus! {

/// The test that a value is `value`.
pub open spec fn equal_to<T>(value: T) -> spec_fn(T) -> bool {
    |x: T| x == value
}

/// The index of the first element of `s` that satisfies `p`, or the length
/// of `s` where none does.
pub open spec fn first_index<T>(s: Seq<T>, p: spec_fn(T) -> bool) -> int
    decreases s.len(),
{
    if s.len() == 0 {
        0
    } else {
        let i = first_index(s.drop_last(), p);
        if i < s.len() - 1 {
            i
        } else if p(s.last()) {
            s.len() - 1
        } else {
            s.len() as int
        }
    }
}

/// No element before `first_index` satisfies the test, and the element at
/// that index, where there is one, does.
pub proof fn lemma_first_index<T>(s: Seq<T>, p: spec_fn(T) -> bool)
    ensures
        0 <= first_index(s, p) <= s.len(),
        forall|j: int| 0 <= j < first_index(s, p) ==> !p(#[trigger] s[j]),
        first_index(s, p) < s.len() ==> p(s[first_index(s, p)]),
    decreases s.len(),
{
    if s.len() > 0 {
        lemma_first_index(s.drop_last(), p);
        let i = first_index(s.drop_last(), p);
        assert forall|j: int| 0 <= j < first_index(s, p) implies !p(#[trigger] s[j]) by {
            if j < s.len() - 1 {
                assert(s[j] == s.drop_last()[j]);
            }
        }
        if i < s.len() - 1 {
            assert(s[i] == s.drop_last()[i]);
        }
    }
}

/// An index whose element satisfies the test, with none before it that does,
/// is the first index.
pub proof fn lemma_first_index_is<T>(s: Seq<T>, p: spec_fn(T) -> bool, i: int)
    requires
        0 <= i <= s.len(),
        forall|j: int| 0 <= j < i ==> !p(#[trigger] s[j]),
        i < s.len() ==> p(s[i]),
    ensures
        first_index(s, p) == i,
{
    lemma_first_index(s, p);
    let f = first_index(s, p);
    if f < i {
        assert(!p(s[f]));
    } else if i < f {
        assert(p(s[i]));
    }
}

/// Filtering by a test that every element passes keeps the sequence.
pub proof fn lemma_filter_all<T>(s: Seq<T>, p: spec_fn(T) -> bool)
    requires
        forall|j: int| 0 <= j < s.len() ==> p(#[trigger] s[j]),
    ensures
        s.filter(p) == s,
    decreases s.len(),
{
    if s.len() == 0 {
        reveal(Seq::filter);
    } else {
        let rest = s.drop_last();
        assert(p(s[s.len() - 1]));
        assert forall|j: int| 0 <= j < rest.len() implies p(#[trigger] rest[j]) by {
            assert(rest[j] == s[j]);
        }
        lemma_filter_all(rest, p);
        rest.lemma_filter_push(s.last(), p);
        assert(rest.push(s.last()) == s);
    }
}

/// What filtering keeps of the first `i + 1` elements, from what it keeps of
/// the first `i`.
pub proof fn lemma_filter_take_next<T>(s: Seq<T>, p: spec_fn(T) -> bool, i: int)
    requires
        0 <= i < s.len(),
    ensures
        s.take(i + 1).filter(p) == if p(s[i]) {
            s.take(i).filter(p).push(s[i])
        } else {
            s.take(i).filter(p)
        },
{
    assert(s.take(i + 1) == s.take(i).push(s[i]));
    s.take(i).lemma_filter_push(s[i], p);
}

/// Filtering a sequence in which nothing occurs twice gives one in which
/// nothing occurs twice.
pub proof fn lemma_filter_no_duplicates<T>(s: Seq<T>, p: spec_fn(T) -> bool)
    requires
        s.no_duplicates(),
    ensures
        s.filter(p).no_duplicates(),
    decreases s.len(),
{
    if s.len() == 0 {
        reveal(Seq::filter);
    } else {
        let rest = s.drop_last();
        let last = s.last();
        assert(rest.no_duplicates()) by {
            assert forall|i: int, j: int| 0 <= i < rest.len() && 0 <= j < rest.len() && i != j implies rest[i]
                != rest[j] by {
                assert(rest[i] == s[i] && rest[j] == s[j]);
            }
        }
        lemma_filter_no_duplicates(rest, p);
        rest.lemma_filter_push(last, p);
        assert(rest.push(last) == s);
        let kept = rest.filter(p);
        if p(last) {
            assert forall|i: int, j: int|
                0 <= i < kept.push(last).len() && 0 <= j < kept.push(last).len() && i != j implies kept.push(
                last,
            )[i] != kept.push(last)[j] by {
                let k = if i < kept.len() {
                    i
                } else {
                    j
                };
                if i < kept.len() && j < kept.len() {
                } else {
                    assert(kept.contains(kept[k]));
                    rest.lemma_filter_contains_rev(p, kept[k]);
                    let at = choose|at: int| 0 <= at < rest.len() && rest[at] == kept[k];
                    assert(s[at] == kept[k]);
                    assert(s[s.len() - 1] == last);
                }
            }
        }
    }
}

/// Two tests that agree on every value keep the same elements.
pub proof fn lemma_filter_same<T>(s: Seq<T>, p: spec_fn(T) -> bool, q: spec_fn(T) -> bool)
    requires
        forall|x: T| #[trigger] p(x) == q(x),
    ensures
        s.filter(p) == s.filter(q),
    decreases s.len(),
{
    if s.len() == 0 {
        reveal(Seq::filter);
    } else {
        let rest = s.drop_last();
        lemma_filter_same(rest, p, q);
        rest.lemma_filter_push(s.last(), p);
        rest.lemma_filter_push(s.last(), q);
        assert(rest.push(s.last()) == s);
    }
}

} // verus!
