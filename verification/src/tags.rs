//! Tags: lowercase labels without spaces, kept in the order they were added
//! and never twice.

use crate::error::TodoError;
use crate::seqs::{
    first_index, lemma_filter_all, lemma_filter_no_duplicates, lemma_first_index,
    lemma_first_index_is,
};
use crate::text::{
    char_count, contains_char, lowercase, replace_char, replaced, same_text, skip_first,
    lemma_split_without_separator, split, split_on, starts_with, starts_with_char, strings_view, to_lowercase, trim, trimmed,
};
use vstd::prelude::*;

verus! {

/// The most characters a tag may have.
pub const MAX_TAG_LENGTH: usize = 30;

/// `tags` with `tag` at the end, unless it is among them already.
pub open spec fn with_tag(tags: Seq<Seq<char>>, tag: Seq<char>) -> Seq<Seq<char>> {
    if tags.contains(tag) {
        tags
    } else {
        tags.push(tag)
    }
}

/// The test that a text differs from `tag`.
pub open spec fn differs_from(tag: Seq<char>) -> spec_fn(Seq<char>) -> bool {
    |t: Seq<char>| t != tag
}

/// `tags` without any occurrence of `tag`.
pub open spec fn without_tag(tags: Seq<Seq<char>>, tag: Seq<char>) -> Seq<Seq<char>> {
    tags.filter(differs_from(tag))
}

/// What one token of a tag delta does. Trimmed, `+name` adds the lowercase
/// name unless it is empty or present; `-name` removes the lowercase name;
/// any other token changes nothing.
pub open spec fn apply_delta(tags: Seq<Seq<char>>, token: Seq<char>) -> Seq<Seq<char>> {
    let t = trimmed(token);
    if starts_with(t, '+') {
        let tag = lowercase(t.drop_first());
        if tag.len() > 0 {
            with_tag(tags, tag)
        } else {
            tags
        }
    } else if starts_with(t, '-') {
        without_tag(tags, lowercase(t.drop_first()))
    } else {
        tags
    }
}

/// The tokens applied one after another, first to last.
pub open spec fn apply_deltas(tags: Seq<Seq<char>>, tokens: Seq<Seq<char>>) -> Seq<Seq<char>>
    decreases tokens.len(),
{
    if tokens.len() == 0 {
        tags
    } else {
        apply_delta(apply_deltas(tags, tokens.drop_last()), tokens.last())
    }
}

/// `tags` after the comma-separated delta `input` was applied.
pub open spec fn updated_tags(tags: Seq<Seq<char>>, input: Seq<char>) -> Seq<Seq<char>> {
    apply_deltas(tags, split_on(input, ','))
}

/// What one piece of a tag list adds: trimmed and lowercased, nothing if that
/// is empty, else the text with spaces turned into underscores, unless present.
pub open spec fn add_piece(tags: Seq<Seq<char>>, piece: Seq<char>) -> Seq<Seq<char>> {
    let t = lowercase(trimmed(piece));
    if t.len() == 0 {
        tags
    } else {
        with_tag(tags, replaced(t, ' ', '_'))
    }
}

/// The tags that the pieces give, first to last.
pub open spec fn add_pieces(pieces: Seq<Seq<char>>) -> Seq<Seq<char>>
    decreases pieces.len(),
{
    if pieces.len() == 0 {
        Seq::<Seq<char>>::empty()
    } else {
        add_piece(add_pieces(pieces.drop_last()), pieces.last())
    }
}

/// The tags that a comma-separated list stands for.
pub open spec fn normalized_tags(input: Seq<char>) -> Seq<Seq<char>> {
    add_pieces(split_on(input, ','))
}

/// A tag is acceptable when it is within the length limit and holds no space.
pub open spec fn tag_ok(tag: Seq<char>) -> bool {
    tag.len() <= MAX_TAG_LENGTH && !tag.contains(' ')
}

/// The test that a tag is not acceptable.
pub open spec fn bad_tag() -> spec_fn(Seq<char>) -> bool {
    |tag: Seq<char>| !tag_ok(tag)
}

/// The index of the first tag that is not acceptable, or the number of tags
/// where all are.
pub open spec fn first_bad_tag(tags: Seq<Seq<char>>) -> int {
    first_index(tags, bad_tag())
}

/// The verdict on a list of tags. The first tag that is not acceptable is
/// reported with its index: for its length if that is over the limit, else
/// for the space in it.
pub open spec fn tags_check(tags: Seq<Seq<char>>) -> Result<(), TodoError> {
    let i = first_bad_tag(tags);
    if i >= tags.len() {
        Ok(())
    } else if tags[i].len() > MAX_TAG_LENGTH {
        Err(TodoError::TagTooLong { index: i as usize, len: tags[i].len() as usize })
    } else {
        Err(TodoError::TagHasSpace { index: i as usize })
    }
}

/// Pushing a string pushes its view.
pub proof fn lemma_strings_view_push(v: Seq<String>, s: String)
    ensures
        strings_view(v.push(s)) == strings_view(v).push(s@),
{
    assert(strings_view(v.push(s)) =~= strings_view(v).push(s@));
}

/// A text whose spaces were replaced holds no space.
pub proof fn lemma_replaced_has_no_space(s: Seq<char>)
    ensures
        !replaced(s, ' ', '_').contains(' '),
{
    let r = replaced(s, ' ', '_');
    if r.contains(' ') {
        let i = choose|i: int| 0 <= i < r.len() && r[i] == ' ';
        assert(r[i] == if s[i] == ' ' { '_' } else { s[i] });
    }
}

/// Removing a tag that is not present changes nothing.
pub proof fn lemma_without_absent_tag(tags: Seq<Seq<char>>, tag: Seq<char>)
    requires
        !tags.contains(tag),
    ensures
        without_tag(tags, tag) == tags,
{
    assert forall|j: int| 0 <= j < tags.len() implies differs_from(tag)(#[trigger] tags[j]) by {
        assert(tags.contains(tags[j]));
    }
    lemma_filter_all(tags, differs_from(tag));
}

/// A delta of one token `+name` leaves the tags as they are where the
/// lowercase name is among them already.
pub proof fn lemma_adding_present_tag_changes_nothing(tags: Seq<Seq<char>>, delta: Seq<char>)
    requires
        !delta.contains(','),
        starts_with(trimmed(delta), '+'),
        tags.contains(lowercase(trimmed(delta).drop_first())),
    ensures
        updated_tags(tags, delta) == tags,
{
    lemma_split_without_separator(delta, ',');
    assert(seq![delta].drop_last() == Seq::<Seq<char>>::empty());
    assert(apply_deltas(tags, seq![delta].drop_last()) == tags);
}

/// A delta of one token `-name` leaves the tags as they are where the
/// lowercase name is not among them.
pub proof fn lemma_removing_absent_tag_changes_nothing(tags: Seq<Seq<char>>, delta: Seq<char>)
    requires
        !delta.contains(','),
        starts_with(trimmed(delta), '-'),
        !tags.contains(lowercase(trimmed(delta).drop_first())),
    ensures
        updated_tags(tags, delta) == tags,
{
    lemma_split_without_separator(delta, ',');
    assert(seq![delta].drop_last() == Seq::<Seq<char>>::empty());
    assert(apply_deltas(tags, seq![delta].drop_last()) == tags);
    lemma_without_absent_tag(tags, lowercase(trimmed(delta).drop_first()));
}

/// Adding a tag unless it is present never makes a tag occur twice.
pub proof fn lemma_with_tag_no_duplicates(tags: Seq<Seq<char>>, tag: Seq<char>)
    requires
        tags.no_duplicates(),
    ensures
        with_tag(tags, tag).no_duplicates(),
{
    if !tags.contains(tag) {
        let out = tags.push(tag);
        assert forall|i: int, j: int| 0 <= i < out.len() && 0 <= j < out.len() && i != j implies out[i]
            != out[j] by {
            if i < tags.len() && j < tags.len() {
            } else if i < tags.len() {
                assert(tags.contains(tags[i]));
            } else {
                assert(tags.contains(tags[j]));
            }
        }
    }
}

/// A tag delta never makes a tag occur twice.
pub proof fn lemma_updated_tags_no_duplicates(tags: Seq<Seq<char>>, tokens: Seq<Seq<char>>)
    requires
        tags.no_duplicates(),
    ensures
        apply_deltas(tags, tokens).no_duplicates(),
    decreases tokens.len(),
{
    if tokens.len() > 0 {
        let before = apply_deltas(tags, tokens.drop_last());
        lemma_updated_tags_no_duplicates(tags, tokens.drop_last());
        let t = trimmed(tokens.last());
        lemma_with_tag_no_duplicates(before, lowercase(t.drop_first()));
        lemma_filter_no_duplicates(before, differs_from(lowercase(t.drop_first())));
    }
}

/// No tag occurs twice among the tags that a comma-separated list stands
/// for.
pub proof fn lemma_normalized_tags_no_duplicates(pieces: Seq<Seq<char>>)
    ensures
        add_pieces(pieces).no_duplicates(),
    decreases pieces.len(),
{
    if pieces.len() > 0 {
        lemma_normalized_tags_no_duplicates(pieces.drop_last());
        lemma_with_tag_no_duplicates(
            add_pieces(pieces.drop_last()),
            replaced(lowercase(trimmed(pieces.last())), ' ', '_'),
        );
    }
}

/// Whether `tag` is among `tags`.
pub fn has_tag(tags: &Vec<String>, tag: &str) -> (found: bool)
    ensures
        found == strings_view(tags@).contains(tag@),
{
    let mut i: usize = 0;
    while i < tags.len()
        invariant
            i <= tags.len(),
            forall|j: int| 0 <= j < i ==> strings_view(tags@)[j] != tag@,
        decreases tags.len() - i,
    {
        if same_text(tags[i].as_str(), tag) {
            proof {
                assert(strings_view(tags@)[i as int] == tag@);
            }
            return true;
        }
        i += 1;
    }
    false
}

/// Adds `tag` at the end of `tags` unless it is among them already.
pub fn add_tag(tags: &mut Vec<String>, tag: String)
    ensures
        strings_view(final(tags)@) == with_tag(strings_view(old(tags)@), tag@),
{
    if !has_tag(tags, tag.as_str()) {
        proof {
            lemma_strings_view_push(tags@, tag);
        }
        tags.push(tag);
    }
}

/// Removes every occurrence of `tag` from `tags`.
pub fn remove_tag(tags: &mut Vec<String>, tag: &str)
    ensures
        strings_view(final(tags)@) == without_tag(strings_view(old(tags)@), tag@),
{
    let ghost before = strings_view(tags@);
    let ghost keep = differs_from(tag@);
    let mut kept: Vec<String> = Vec::new();
    let mut i: usize = 0;
    while i < tags.len()
        invariant
            i <= tags.len(),
            before == strings_view(tags@),
            keep == differs_from(tag@),
            strings_view(kept@) == before.take(i as int).filter(keep),
        decreases tags.len() - i,
    {
        proof {
            assert(before.take(i + 1) == before.take(i as int).push(before[i as int]));
            before.take(i as int).lemma_filter_push(before[i as int], keep);
        }
        if !same_text(tags[i].as_str(), tag) {
            let t = tags[i].clone();
            proof {
                lemma_strings_view_push(kept@, t);
            }
            kept.push(t);
        }
        i += 1;
    }
    proof {
        assert(before.take(tags.len() as int) == before);
    }
    *tags = kept;
}

/// Applies one token of a tag delta, as [`apply_delta`] defines it.
fn apply_token(tags: &mut Vec<String>, token: &str)
    ensures
        strings_view(final(tags)@) == apply_delta(strings_view(old(tags)@), token@),
{
    let part = trim(token);
    if starts_with_char(part.as_str(), '+') {
        let rest = skip_first(part.as_str());
        let tag = to_lowercase(rest.as_str());
        if char_count(tag.as_str()) > 0 {
            add_tag(tags, tag);
        }
    } else if starts_with_char(part.as_str(), '-') {
        let rest = skip_first(part.as_str());
        let tag = to_lowercase(rest.as_str());
        remove_tag(tags, tag.as_str());
    }
}

/// Applies a tag delta: comma-separated tokens, `+name` to add a tag and
/// `-name` to remove one. Names are lowercased; a token without either sign
/// is passed over.
pub fn update_tags(tags: &mut Vec<String>, tags_str: &str)
    ensures
        strings_view(final(tags)@) == updated_tags(strings_view(old(tags)@), tags_str@),
        strings_view(old(tags)@).no_duplicates() ==> strings_view(final(tags)@).no_duplicates(),
{
    proof {
        if strings_view(tags@).no_duplicates() {
            lemma_updated_tags_no_duplicates(strings_view(tags@), split_on(tags_str@, ','));
        }
    }
    let tokens = split(tags_str, ',');
    let ghost before = strings_view(tags@);
    let ghost all = strings_view(tokens@);
    let mut i: usize = 0;
    while i < tokens.len()
        invariant
            i <= tokens.len(),
            all == strings_view(tokens@),
            strings_view(tags@) == apply_deltas(before, all.take(i as int)),
        decreases tokens.len() - i,
    {
        proof {
            assert(all.take(i + 1).drop_last() == all.take(i as int));
            assert(all.take(i + 1).last() == tokens@[i as int]@);
        }
        apply_token(tags, tokens[i].as_str());
        i += 1;
    }
    proof {
        assert(all.take(tokens.len() as int) == all);
    }
}

/// The tags that a comma-separated list stands for: each piece trimmed and
/// lowercased, empty pieces dropped, spaces turned into underscores, and a
/// tag that came before not taken again.
pub fn normalize_tags(tags_input: &str) -> (tags: Vec<String>)
    ensures
        strings_view(tags@) == normalized_tags(tags_input@),
        strings_view(tags@).no_duplicates(),
{
    proof {
        lemma_normalized_tags_no_duplicates(split_on(tags_input@, ','));
    }
    let pieces = split(tags_input, ',');
    let ghost all = strings_view(pieces@);
    let mut tags: Vec<String> = Vec::new();
    let mut i: usize = 0;
    proof {
        assert(strings_view(tags@) =~= Seq::<Seq<char>>::empty());
    }
    while i < pieces.len()
        invariant
            i <= pieces.len(),
            all == strings_view(pieces@),
            strings_view(tags@) == add_pieces(all.take(i as int)),
        decreases pieces.len() - i,
    {
        proof {
            assert(all.take(i + 1).drop_last() == all.take(i as int));
            assert(all.take(i + 1).last() == pieces@[i as int]@);
        }
        let piece = trim(pieces[i].as_str());
        let lower = to_lowercase(piece.as_str());
        if char_count(lower.as_str()) > 0 {
            let tag = replace_char(lower.as_str(), ' ', '_');
            add_tag(&mut tags, tag);
        }
        i += 1;
    }
    proof {
        assert(all.take(pieces.len() as int) == all);
    }
    tags
}

/// Checks tags against the length limit and for spaces, first tag first, as
/// [`tags_check`] defines it.
pub fn check_tags(tags: &Vec<String>) -> (r: Result<(), TodoError>)
    ensures
        r == tags_check(strings_view(tags@)),
{
    let ghost views = strings_view(tags@);
    let mut i: usize = 0;
    while i < tags.len()
        invariant
            i <= tags.len(),
            views == strings_view(tags@),
            forall|j: int| 0 <= j < i ==> !bad_tag()(#[trigger] views[j]),
        decreases tags.len() - i,
    {
        proof {
            assert(views[i as int] == tags@[i as int]@);
        }
        let n = char_count(tags[i].as_str());
        if n > MAX_TAG_LENGTH {
            proof {
                lemma_first_index_is(views, bad_tag(), i as int);
            }
            return Err(TodoError::TagTooLong { index: i, len: n });
        }
        if contains_char(tags[i].as_str(), ' ') {
            proof {
                lemma_first_index_is(views, bad_tag(), i as int);
            }
            return Err(TodoError::TagHasSpace { index: i });
        }
        i += 1;
    }
    proof {
        lemma_first_index_is(views, bad_tag(), i as int);
    }
    Ok(())
}

/// No tag that a comma-separated list stands for holds a space.
pub proof fn lemma_normalized_tags_have_no_space(pieces: Seq<Seq<char>>)
    ensures
        forall|j: int|
            0 <= j < add_pieces(pieces).len() ==> !(#[trigger] add_pieces(pieces)[j]).contains(' '),
    decreases pieces.len(),
{
    if pieces.len() > 0 {
        let before = add_pieces(pieces.drop_last());
        let tag = replaced(lowercase(trimmed(pieces.last())), ' ', '_');
        lemma_normalized_tags_have_no_space(pieces.drop_last());
        lemma_replaced_has_no_space(lowercase(trimmed(pieces.last())));
        assert forall|j: int| 0 <= j < add_pieces(pieces).len() implies !(
        #[trigger] add_pieces(pieces)[j]).contains(' ') by {
            if j < before.len() {
                assert(add_pieces(pieces)[j] == before[j]);
            } else {
                assert(add_pieces(pieces)[j] == tag);
            }
        }
    }
}

/// Tags that come out of normalization are never refused for a space: the
/// only fault they can have is their length.
pub proof fn lemma_normalized_tags_fail_only_on_length(input: Seq<char>)
    ensures
        !(tags_check(normalized_tags(input)) matches Err(TodoError::TagHasSpace { .. })),
{
    let tags = normalized_tags(input);
    lemma_normalized_tags_have_no_space(split_on(input, ','));
    lemma_first_index(tags, bad_tag());
}

/// Normalizes a comma-separated tag list and checks the result: the tags of
/// [`normalized_tags`] where [`tags_check`] accepts them, else its error.
pub fn validate_and_normalize_tags(tags_input: &str) -> (r: Result<Vec<String>, TodoError>)
    ensures
        match tags_check(normalized_tags(tags_input@)) {
            Ok(_) => r is Ok && strings_view(r->Ok_0@) == normalized_tags(tags_input@),
            Err(e) => r == Err::<Vec<String>, TodoError>(e),
        },
{
    let tags = normalize_tags(tags_input);
    match check_tags(&tags) {
        Ok(_) => Ok(tags),
        Err(e) => Err(e),
    }
}

} // verus!
