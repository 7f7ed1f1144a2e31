//! Text as sequences of characters.
//!
//! Every string is read through its view, a `Seq<char>`. The operations here
//! are the ones the task rules are written in: trimming, splitting on a
//! separator, replacing spaces, substring search and joining. Whitespace is
//! the Unicode property of that name. One notion comes from the standard
//! library and is only named here: the lowercase form of a text.

use vstd::prelude::*;

verus! {

/// Whether `c` is whitespace: a character with the Unicode property
/// `White_Space`. These are the controls from tab to carriage return, the
/// blank, next line, the no-break space, the Ogham space mark, the spaces
/// from en quad to hair space, the line and paragraph separators, the narrow
/// no-break space, the medium mathematical space and the ideographic space.
pub open spec fn is_whitespace(c: char) -> bool {
    let n = c as u32;
    ||| 0x0009 <= n <= 0x000D
    ||| n == 0x0020
    ||| n == 0x0085
    ||| n == 0x00A0
    ||| n == 0x1680
    ||| 0x2000 <= n <= 0x200A
    ||| n == 0x2028
    ||| n == 0x2029
    ||| n == 0x202F
    ||| n == 0x205F
    ||| n == 0x3000
}

/// The lowercase form that the standard library gives a text (`str::to_lowercase`).
pub uninterp spec fn lowercase(s: Seq<char>) -> Seq<char>;

/// The views of a sequence of strings.
pub open spec fn strings_view(v: Seq<String>) -> Seq<Seq<char>> {
    v.map_values(|s: String| s@)
}

/// `s` without its leading whitespace.
pub open spec fn trim_start(s: Seq<char>) -> Seq<char>
    decreases s.len(),
{
    if s.len() > 0 && is_whitespace(s.first()) {
        trim_start(s.drop_first())
    } else {
        s
    }
}

/// `s` without its trailing whitespace.
pub open spec fn trim_end(s: Seq<char>) -> Seq<char>
    decreases s.len(),
{
    if s.len() > 0 && is_whitespace(s.last()) {
        trim_end(s.drop_last())
    } else {
        s
    }
}

/// `s` without leading and trailing whitespace.
pub open spec fn trimmed(s: Seq<char>) -> Seq<char> {
    trim_end(trim_start(s))
}

/// The pieces of `s` between occurrences of `sep`. There is always at least
/// one piece; a separator at either end, or two in a row, give an empty piece.
pub open spec fn split_on(s: Seq<char>, sep: char) -> Seq<Seq<char>>
    decreases s.len(),
{
    if s.len() == 0 {
        seq![Seq::<char>::empty()]
    } else {
        let before = split_on(s.drop_last(), sep);
        if s.last() == sep {
            before.push(Seq::<char>::empty())
        } else {
            before.drop_last().push(before.last().push(s.last()))
        }
    }
}

/// `s` with every occurrence of `from` replaced by `to`.
pub open spec fn replaced(s: Seq<char>, from: char, to: char) -> Seq<char> {
    s.map_values(|c: char| if c == from { to } else { c })
}

/// `pat` occurs in `s` at index `i`.
pub open spec fn occurs_at(s: Seq<char>, pat: Seq<char>, i: int) -> bool {
    0 <= i && i + pat.len() <= s.len() && s.subrange(i, i + pat.len()) == pat
}

/// `pat` occurs somewhere in `s`. The empty text occurs in every text.
pub open spec fn contains_text(s: Seq<char>, pat: Seq<char>) -> bool {
    exists|i: int| occurs_at(s, pat, i)
}

/// `s` begins with the character `c`.
pub open spec fn starts_with(s: Seq<char>, c: char) -> bool {
    s.len() > 0 && s[0] == c
}

/// The parts written one after another with `sep` between neighbours.
pub open spec fn joined(parts: Seq<Seq<char>>, sep: Seq<char>) -> Seq<char>
    decreases parts.len(),
{
    if parts.len() == 0 {
        Seq::<char>::empty()
    } else if parts.len() == 1 {
        parts[0]
    } else {
        joined(parts.drop_last(), sep) + sep + parts.last()
    }
}

/// `s` as it is where it has at most `max` characters; else its first `keep`
/// characters followed by three dots.
pub open spec fn shortened(s: Seq<char>, max: int, keep: int) -> Seq<char> {
    if s.len() > max {
        s.take(keep) + seq!['.', '.', '.']
    } else {
        s
    }
}

/// The character that stands for a digit; `0` for what is no digit.
pub open spec fn digit_char(d: int) -> char {
    if d == 1 {
        '1'
    } else if d == 2 {
        '2'
    } else if d == 3 {
        '3'
    } else if d == 4 {
        '4'
    } else if d == 5 {
        '5'
    } else if d == 6 {
        '6'
    } else if d == 7 {
        '7'
    } else if d == 8 {
        '8'
    } else if d == 9 {
        '9'
    } else {
        '0'
    }
}

/// The decimal numeral of `n`, without leading zeros.
pub open spec fn decimal(n: nat) -> Seq<char>
    decreases n,
{
    if n < 10 {
        seq![digit_char(n as int)]
    } else {
        decimal(n / 10).push(digit_char((n % 10) as int))
    }
}

/// `s` begins with the text `pat`.
pub open spec fn starts_with_text(s: Seq<char>, pat: Seq<char>) -> bool {
    pat.len() <= s.len() && s.take(pat.len() as int) == pat
}

/// `with` before each character of `s`.
pub open spec fn led_by(s: Seq<char>, with: Seq<char>) -> Seq<char>
    decreases s.len(),
{
    if s.len() == 0 {
        s
    } else {
        led_by(s.drop_last(), with) + with + seq![s.last()]
    }
}

/// `s` with every occurrence of `pat` replaced by `with`, the occurrences
/// taken from the left and not overlapping. The empty text occurs before
/// every character and at the end.
pub open spec fn replaced_text(s: Seq<char>, pat: Seq<char>, with: Seq<char>) -> Seq<char>
    decreases s.len(),
{
    if pat.len() == 0 {
        led_by(s, with) + with
    } else if starts_with_text(s, pat) {
        with + replaced_text(s.skip(pat.len() as int), pat, with)
    } else if s.len() == 0 {
        s
    } else {
        seq![s[0]] + replaced_text(s.skip(1), pat, with)
    }
}

/// Calls `char::is_whitespace`, which says whether a character has the
/// Unicode property `White_Space`: that is what [`is_whitespace`] states.
#[verifier::external_body]
fn char_is_whitespace(c: char) -> (b: bool)
    ensures
        b == is_whitespace(c),
{
    c.is_whitespace()
}

/// Calls `str::to_lowercase`, whose result [`lowercase`] names.
#[verifier::external_body]
pub(crate) fn to_lowercase(s: &str) -> (r: String)
    ensures
        r@ == lowercase(s@),
{
    s.to_lowercase()
}

/// Calls `String::push`: the character is appended at the end of the string.
#[verifier::external_body]
fn push_char(s: &mut String, c: char)
    ensures
        final(s)@ == old(s)@.push(c),
{
    s.push(c)
}

/// The string that holds the characters of `v`, in order.
fn string_from_chars(v: &Vec<char>) -> (r: String)
    ensures
        r@ == v@,
{
    let mut r = String::new();
    let mut i: usize = 0;
    while i < v.len()
        invariant
            i <= v.len(),
            r@ == v@.take(i as int),
        decreases v.len() - i,
    {
        push_char(&mut r, v[i]);
        proof {
            assert(v@.take(i + 1) == v@.take(i as int).push(v@[i as int]));
        }
        i += 1;
    }
    proof {
        assert(v@.take(v.len() as int) == v@);
    }
    r
}

/// The characters of `s`, in order.
pub fn chars_of(s: &str) -> (v: Vec<char>)
    ensures
        v@ == s@,
{
    let mut v: Vec<char> = Vec::new();
    for c in it: s.chars()
        invariant
            v@ == it.seq().take(it.index() as int),
            it.seq() == s@,
    {
        v.push(c);
    }
    v
}

/// The number of characters in `s`.
pub fn char_count(s: &str) -> (n: usize)
    ensures
        n == s@.len(),
{
    s.unicode_len()
}

/// Whether two texts hold the same characters.
pub fn same_text(a: &str, b: &str) -> (r: bool)
    ensures
        r == (a@ == b@),
{
    let x = a.to_owned();
    let y = b.to_owned();
    x == y
}

/// A copy of the characters of `v` from `from` up to `to`.
fn copy_range(v: &Vec<char>, from: usize, to: usize) -> (r: Vec<char>)
    requires
        from <= to <= v.len(),
    ensures
        r@ == v@.subrange(from as int, to as int),
{
    let mut r: Vec<char> = Vec::new();
    let mut i: usize = from;
    while i < to
        invariant
            from <= i <= to <= v.len(),
            r@ == v@.subrange(from as int, i as int),
        decreases to - i,
    {
        r.push(v[i]);
        i += 1;
    }
    r
}

/// Trimming the tail of `s` after `k` leading whitespace characters were
/// skipped gives what trimming `s` gives.
proof fn lemma_trim_start_skip(s: Seq<char>, k: int)
    requires
        0 <= k <= s.len(),
        forall|j: int| 0 <= j < k ==> is_whitespace(#[trigger] s[j]),
    ensures
        trim_start(s) == trim_start(s.subrange(k, s.len() as int)),
    decreases k,
{
    if k == 0 {
        assert(s.subrange(0, s.len() as int) == s);
    } else {
        let t = s.drop_first();
        assert forall|j: int| 0 <= j < k - 1 implies is_whitespace(#[trigger] t[j]) by {
            assert(t[j] == s[j + 1]);
        }
        lemma_trim_start_skip(t, k - 1);
        assert(t.subrange(k - 1, t.len() as int) == s.subrange(k, s.len() as int));
        assert(is_whitespace(s[0]));
    }
}

/// Trimming the head of `s` before its last `s.len() - k` characters, all
/// whitespace, gives what trimming `s` gives.
proof fn lemma_trim_end_skip(s: Seq<char>, k: int)
    requires
        0 <= k <= s.len(),
        forall|j: int| k <= j < s.len() ==> is_whitespace(#[trigger] s[j]),
    ensures
        trim_end(s) == trim_end(s.subrange(0, k)),
    decreases s.len() - k,
{
    if k == s.len() {
        assert(s.subrange(0, k) == s);
    } else {
        let t = s.drop_last();
        assert forall|j: int| k <= j < t.len() implies is_whitespace(#[trigger] t[j]) by {
            assert(t[j] == s[j]);
        }
        lemma_trim_end_skip(t, k);
        assert(t.subrange(0, k) == s.subrange(0, k));
        assert(is_whitespace(s[s.len() - 1]));
    }
}

/// What trimming leaves: a contiguous part of `s` that neither begins nor
/// ends with whitespace, with nothing but whitespace cut away on either side.
pub proof fn lemma_trimmed_shape(s: Seq<char>) -> (bounds: (int, int))
    ensures
        0 <= bounds.0 <= bounds.1 <= s.len(),
        trimmed(s) == s.subrange(bounds.0, bounds.1),
        forall|j: int| 0 <= j < bounds.0 ==> is_whitespace(#[trigger] s[j]),
        forall|j: int| bounds.1 <= j < s.len() ==> is_whitespace(#[trigger] s[j]),
        trimmed(s).len() > 0 ==> !is_whitespace(trimmed(s).first()) && !is_whitespace(
            trimmed(s).last(),
        ),
    decreases s.len(),
{
    if s.len() > 0 && is_whitespace(s.first()) {
        let t = s.drop_first();
        let (a, b) = lemma_trimmed_shape(t);
        assert(t.subrange(a, b) == s.subrange(a + 1, b + 1));
        assert forall|j: int| 0 <= j < a + 1 implies is_whitespace(#[trigger] s[j]) by {
            if j > 0 {
                assert(s[j] == t[j - 1]);
            }
        }
        assert forall|j: int| b + 1 <= j < s.len() implies is_whitespace(#[trigger] s[j]) by {
            assert(s[j] == t[j - 1]);
        }
        (a + 1, b + 1)
    } else {
        assert(trim_start(s) == s);
        let b = lemma_trim_end_shape(s);
        assert(s.subrange(0, b) == trim_end(s));
        (0, b)
    }
}

/// What trimming the end leaves: a prefix of `s` that does not end with
/// whitespace, with nothing but whitespace after it.
proof fn lemma_trim_end_shape(s: Seq<char>) -> (b: int)
    ensures
        0 <= b <= s.len(),
        trim_end(s) == s.subrange(0, b),
        forall|j: int| b <= j < s.len() ==> is_whitespace(#[trigger] s[j]),
        b > 0 ==> !is_whitespace(s[b - 1]),
    decreases s.len(),
{
    if s.len() > 0 && is_whitespace(s.last()) {
        let t = s.drop_last();
        let b = lemma_trim_end_shape(t);
        assert(t.subrange(0, b) == s.subrange(0, b));
        assert forall|j: int| b <= j < s.len() implies is_whitespace(#[trigger] s[j]) by {
            if j < t.len() {
                assert(s[j] == t[j]);
            }
        }
        b
    } else {
        assert(s.subrange(0, s.len() as int) == s);
        s.len() as int
    }
}

/// What splitting gives: at least one piece, no piece with the separator in
/// it, and the text again when the pieces are joined by the separator.
pub proof fn lemma_split_then_join(s: Seq<char>, sep: char)
    ensures
        split_on(s, sep).len() >= 1,
        forall|k: int| 0 <= k < split_on(s, sep).len() ==> !(#[trigger] split_on(s, sep)[k]).contains(sep),
        joined(split_on(s, sep), seq![sep]) == s,
    decreases s.len(),
{
    let parts = split_on(s, sep);
    if s.len() == 0 {
        assert(parts[0] == Seq::<char>::empty());
        assert(joined(parts, seq![sep]) == parts[0]);
    } else {
        let c = s.last();
        let before = split_on(s.drop_last(), sep);
        lemma_split_then_join(s.drop_last(), sep);
        assert(s.drop_last().push(c) == s);
        if c == sep {
            assert(parts.drop_last() == before);
            assert(parts.last() == Seq::<char>::empty());
            assert(joined(parts, seq![sep]) =~= s.drop_last() + seq![sep]);
            assert forall|k: int| 0 <= k < parts.len() implies !(#[trigger] parts[k]).contains(
                sep,
            ) by {
                if k < before.len() {
                    assert(parts[k] == before[k]);
                }
            }
        } else {
            let grown = before.last().push(c);
            assert(parts.last() == grown);
            assert(parts.drop_last() == before.drop_last());
            assert forall|k: int| 0 <= k < parts.len() implies !(#[trigger] parts[k]).contains(
                sep,
            ) by {
                if k < before.len() - 1 {
                    assert(parts[k] == before[k]);
                } else {
                    if grown.contains(sep) {
                        let at = choose|at: int| 0 <= at < grown.len() && grown[at] == sep;
                        assert(before.last()[at] == sep);
                        assert(before.last().contains(sep));
                    }
                }
            }
            if before.len() == 1 {
                assert(joined(before, seq![sep]) == before[0]);
                assert(parts[0] == grown);
                assert(joined(parts, seq![sep]) == grown);
            } else {
                assert(joined(parts, seq![sep]) =~= (joined(before.drop_last(), seq![sep])
                    + seq![sep] + before.last()).push(c));
            }
        }
    }
}

/// A text without the separator is its own single piece.
pub proof fn lemma_split_without_separator(s: Seq<char>, sep: char)
    requires
        !s.contains(sep),
    ensures
        split_on(s, sep) == seq![s],
    decreases s.len(),
{
    if s.len() == 0 {
        assert(s == Seq::<char>::empty());
    } else {
        let t = s.drop_last();
        assert(s[s.len() - 1] != sep);
        assert forall|j: int| 0 <= j < t.len() implies t[j] != sep by {
            assert(t[j] == s[j]);
        }
        lemma_split_without_separator(t, sep);
        assert(t.push(s.last()) == s);
        assert(seq![t].drop_last().push(t.push(s.last())) == seq![s]);
    }
}

/// Trimming never makes a text longer.
pub proof fn lemma_trimmed_is_no_longer(s: Seq<char>)
    ensures
        trimmed(s).len() <= s.len(),
{
    let _ = lemma_trimmed_shape(s);
}

/// Trimming what was trimmed changes nothing.
pub proof fn lemma_trimmed_twice(s: Seq<char>)
    ensures
        trimmed(trimmed(s)) == trimmed(s),
{
    let _ = lemma_trimmed_shape(s);
    let t = trimmed(s);
    if t.len() > 0 {
        assert(trim_start(t) == t);
        assert(trim_end(t) == t);
    } else {
        assert(trim_start(t) == t);
        assert(trim_end(t) == t);
    }
}

/// The characters of `v` without leading and trailing whitespace.
fn trim_chars(v: &Vec<char>) -> (r: Vec<char>)
    ensures
        r@ == trimmed(v@),
{
    let n = v.len();
    let mut start: usize = 0;
    while start < n && char_is_whitespace(v[start])
        invariant
            start <= n == v.len(),
            forall|j: int| 0 <= j < start ==> is_whitespace(#[trigger] v@[j]),
        decreases n - start,
    {
        start += 1;
    }
    let mut end: usize = n;
    while end > start && char_is_whitespace(v[end - 1])
        invariant
            start <= end <= n == v.len(),
            forall|j: int| end <= j < n ==> is_whitespace(#[trigger] v@[j]),
        decreases end,
    {
        end -= 1;
    }
    proof {
        let s = v@;
        let tail = s.subrange(start as int, n as int);
        lemma_trim_start_skip(s, start as int);
        if start < n {
            assert(tail.first() == s[start as int]);
        }
        assert(trim_start(tail) == tail);
        assert forall|j: int| end - start <= j < tail.len() implies is_whitespace(
            #[trigger] tail[j],
        ) by {
            assert(tail[j] == s[j + start]);
        }
        lemma_trim_end_skip(tail, end - start);
        let mid = tail.subrange(0, end - start);
        assert(mid == s.subrange(start as int, end as int));
        if end > start {
            assert(mid.last() == s[end - 1]);
        }
        assert(trim_end(mid) == mid);
    }
    copy_range(v, start, end)
}

/// `s` without leading and trailing whitespace.
pub fn trim(s: &str) -> (r: String)
    ensures
        r@ == trimmed(s@),
{
    let v = chars_of(s);
    let t = trim_chars(&v);
    string_from_chars(&t)
}

/// Whether nothing but whitespace is in `s`.
pub fn is_blank(s: &str) -> (b: bool)
    ensures
        b == (trimmed(s@).len() == 0),
{
    let v = chars_of(s);
    let t = trim_chars(&v);
    t.len() == 0
}

/// The pieces of `s` between occurrences of `sep`, as [`split_on`] defines them.
pub fn split(s: &str, sep: char) -> (parts: Vec<String>)
    ensures
        strings_view(parts@) == split_on(s@, sep),
{
    let v = chars_of(s);
    let mut parts: Vec<String> = Vec::new();
    let mut current: Vec<char> = Vec::new();
    let mut i: usize = 0;
    while i < v.len()
        invariant
            i <= v.len(),
            v@ == s@,
            strings_view(parts@).push(current@) == split_on(v@.take(i as int), sep),
        decreases v.len() - i,
    {
        let c = v[i];
        proof {
            let next = v@.take(i + 1);
            assert(next.drop_last() == v@.take(i as int));
            assert(next.last() == c);
            let before = strings_view(parts@).push(current@);
            assert(before.drop_last() == strings_view(parts@));
            assert(before.last() == current@);
        }
        if c == sep {
            let piece = string_from_chars(&current);
            let ghost old_parts = parts@;
            parts.push(piece);
            current = Vec::new();
            proof {
                assert(strings_view(parts@) == strings_view(old_parts).push(piece@));
            }
        } else {
            current.push(c);
        }
        i += 1;
    }
    let piece = string_from_chars(&current);
    let ghost old_parts = parts@;
    parts.push(piece);
    proof {
        assert(v@.take(v.len() as int) == v@);
        assert(strings_view(parts@) == strings_view(old_parts).push(piece@));
    }
    parts
}

/// `s` with every occurrence of `from` replaced by `to`.
pub fn replace_char(s: &str, from: char, to: char) -> (r: String)
    ensures
        r@ == replaced(s@, from, to),
{
    let v = chars_of(s);
    let mut out: Vec<char> = Vec::new();
    let mut i: usize = 0;
    while i < v.len()
        invariant
            i <= v.len(),
            out@ == replaced(v@.take(i as int), from, to),
        decreases v.len() - i,
    {
        let c = v[i];
        out.push(if c == from { to } else { c });
        proof {
            assert(out@ == replaced(v@.take(i + 1), from, to));
        }
        i += 1;
    }
    proof {
        assert(v@.take(v.len() as int) == v@);
    }
    string_from_chars(&out)
}

/// Whether `pat` stands in `v` at index `i`.
fn occurs_at_index(v: &Vec<char>, pat: &Vec<char>, i: usize) -> (r: bool)
    requires
        i + pat.len() <= v.len(),
    ensures
        r == occurs_at(v@, pat@, i as int),
{
    let mut j: usize = 0;
    while j < pat.len()
        invariant
            j <= pat.len(),
            i + pat.len() <= v.len(),
            v@.subrange(i as int, i + j) == pat@.take(j as int),
        decreases pat.len() - j,
    {
        if v[i + j] != pat[j] {
            proof {
                let window = v@.subrange(i as int, i + pat.len());
                assert(window[j as int] != pat@[j as int]);
            }
            return false;
        }
        proof {
            assert(v@.subrange(i as int, i + j + 1) == v@.subrange(i as int, i + j).push(
                v@[i + j],
            ));
            assert(pat@.take(j + 1) == pat@.take(j as int).push(pat@[j as int]));
        }
        j += 1;
    }
    proof {
        assert(pat@.take(pat.len() as int) == pat@);
    }
    true
}

/// Whether `pat` occurs in `v`.
pub(crate) fn contains_chars(v: &Vec<char>, pat: &Vec<char>) -> (r: bool)
    ensures
        r == contains_text(v@, pat@),
{
    if pat.len() > v.len() {
        return false;
    }
    let last = v.len() - pat.len();
    let mut i: usize = 0;
    loop
        invariant
            i <= last,
            last == v.len() - pat.len(),
            forall|k: int| 0 <= k < i ==> !occurs_at(v@, pat@, k),
        decreases last - i,
    {
        if occurs_at_index(v, pat, i) {
            return true;
        }
        if i == last {
            return false;
        }
        i += 1;
    }
}

/// Whether `needle` occurs somewhere in `haystack`.
pub fn contains(haystack: &str, needle: &str) -> (r: bool)
    ensures
        r == contains_text(haystack@, needle@),
{
    let h = chars_of(haystack);
    let n = chars_of(needle);
    contains_chars(&h, &n)
}

/// Whether the character `c` occurs in `s`.
pub fn contains_char(s: &str, c: char) -> (r: bool)
    ensures
        r == s@.contains(c),
{
    let v = chars_of(s);
    let mut i: usize = 0;
    while i < v.len()
        invariant
            i <= v.len(),
            v@ == s@,
            forall|k: int| 0 <= k < i ==> v@[k] != c,
        decreases v.len() - i,
    {
        if v[i] == c {
            return true;
        }
        i += 1;
    }
    false
}

/// Whether `s` begins with the character `c`.
pub fn starts_with_char(s: &str, c: char) -> (r: bool)
    ensures
        r == starts_with(s@, c),
{
    s.unicode_len() > 0 && s.get_char(0) == c
}

/// `s` without its first character; the empty text where `s` is empty.
pub fn skip_first(s: &str) -> (r: String)
    ensures
        r@ == if s@.len() > 0 { s@.drop_first() } else { s@ },
{
    let v = chars_of(s);
    if v.len() == 0 {
        return string_from_chars(&v);
    }
    let rest = copy_range(&v, 1, v.len());
    string_from_chars(&rest)
}

/// The parts written one after another with `sep` between neighbours.
pub fn join(parts: &Vec<String>, sep: &str) -> (r: String)
    ensures
        r@ == joined(strings_view(parts@), sep@),
{
    let mut out = String::new();
    let mut i: usize = 0;
    while i < parts.len()
        invariant
            i <= parts.len(),
            out@ == joined(strings_view(parts@).take(i as int), sep@),
        decreases parts.len() - i,
    {
        proof {
            let next = strings_view(parts@).take(i + 1);
            assert(next.drop_last() == strings_view(parts@).take(i as int));
            assert(next.last() == parts@[i as int]@);
        }
        if i > 0 {
            out.append(sep);
        }
        out.append(parts[i].as_str());
        i += 1;
    }
    proof {
        assert(strings_view(parts@).take(parts.len() as int) == strings_view(parts@));
    }
    out
}

/// `s` with the character `c` put in at index `at`.
pub fn insert_char(s: &str, at: usize, c: char) -> (r: String)
    requires
        at <= s@.len(),
    ensures
        r@ == s@.insert(at as int, c),
{
    let mut v = chars_of(s);
    v.insert(at, c);
    string_from_chars(&v)
}

/// `s` without the character at index `at`.
pub fn remove_char(s: &str, at: usize) -> (r: String)
    requires
        at < s@.len(),
    ensures
        r@ == s@.remove(at as int),
{
    let mut v = chars_of(s);
    v.remove(at);
    string_from_chars(&v)
}

/// Shortens a text for a column: see [`shortened`].
pub fn shorten(s: &str, max: usize, keep: usize) -> (r: String)
    requires
        keep <= max,
    ensures
        r@ == shortened(s@, max as int, keep as int),
{
    let v = chars_of(s);
    if v.len() > max {
        let mut out = copy_range(&v, 0, keep);
        out.push('.');
        out.push('.');
        out.push('.');
        proof {
            assert(out@ =~= s@.take(keep as int) + seq!['.', '.', '.']);
        }
        string_from_chars(&out)
    } else {
        string_from_chars(&v)
    }
}

/// The character that stands for a digit.
fn digit(d: u64) -> (c: char)
    requires
        d < 10,
    ensures
        c == digit_char(d as int),
{
    if d == 1 {
        '1'
    } else if d == 2 {
        '2'
    } else if d == 3 {
        '3'
    } else if d == 4 {
        '4'
    } else if d == 5 {
        '5'
    } else if d == 6 {
        '6'
    } else if d == 7 {
        '7'
    } else if d == 8 {
        '8'
    } else if d == 9 {
        '9'
    } else {
        '0'
    }
}

/// The decimal numeral of `n`, without leading zeros.
pub fn to_decimal(n: u64) -> (r: String)
    ensures
        r@ == decimal(n as nat),
{
    let mut reversed: Vec<char> = Vec::new();
    let mut rest: u64 = n;
    while rest >= 10
        invariant
            decimal(n as nat) == decimal(rest as nat) + reversed@.reverse(),
        decreases rest,
    {
        let c = digit(rest % 10);
        proof {
            assert(decimal(rest as nat) == decimal((rest / 10) as nat).push(c));
            assert(reversed@.push(c).reverse() =~= seq![c] + reversed@.reverse());
            assert(decimal((rest / 10) as nat).push(c) + reversed@.reverse() =~= decimal(
                (rest / 10) as nat,
            ) + (seq![c] + reversed@.reverse()));
        }
        reversed.push(c);
        rest = rest / 10;
    }
    let first = digit(rest);
    let mut out: Vec<char> = Vec::new();
    out.push(first);
    let mut i: usize = reversed.len();
    while i > 0
        invariant
            i <= reversed.len(),
            out@ == seq![first] + reversed@.reverse().take(reversed.len() - i),
        decreases i,
    {
        i -= 1;
        proof {
            let r = reversed@.reverse();
            let k = reversed.len() - i - 1;
            assert(r[k] == reversed@[i as int]);
            assert(r.take(k + 1) =~= r.take(k).push(r[k]));
            assert((seq![first] + r.take(k)).push(r[k]) =~= seq![first] + r.take(k + 1));
        }
        out.push(reversed[i]);
    }
    proof {
        let r = reversed@.reverse();
        assert(r.take(reversed.len() as int) == r);
        assert(decimal(rest as nat) == seq![first]);
    }
    string_from_chars(&out)
}

/// Whether `s` begins with the text `prefix`.
pub fn starts_with_str(s: &str, prefix: &str) -> (r: bool)
    ensures
        r == starts_with_text(s@, prefix@),
{
    let v = chars_of(s);
    let p = chars_of(prefix);
    if p.len() > v.len() {
        return false;
    }
    let r = occurs_at_index(&v, &p, 0);
    proof {
        assert(v@.subrange(0, p.len() as int) == v@.take(p.len() as int));
    }
    r
}

/// Appends the characters of `from` to `to`.
fn extend_chars(to: &mut Vec<char>, from: &Vec<char>)
    ensures
        final(to)@ == old(to)@ + from@,
{
    let ghost before = to@;
    let mut i: usize = 0;
    while i < from.len()
        invariant
            i <= from.len(),
            to@ == before + from@.take(i as int),
        decreases from.len() - i,
    {
        proof {
            assert(from@.take(i + 1) == from@.take(i as int).push(from@[i as int]));
            assert((before + from@.take(i as int)).push(from@[i as int]) =~= before + from@.take(
                i + 1,
            ));
        }
        to.push(from[i]);
        i += 1;
    }
    proof {
        assert(from@.take(from.len() as int) == from@);
    }
}

/// `s` with every occurrence of `pat` replaced by `with`: see
/// [`replaced_text`].
pub fn replace_text(s: &str, pat: &str, with: &str) -> (r: String)
    ensures
        r@ == replaced_text(s@, pat@, with@),
{
    let v = chars_of(s);
    let p = chars_of(pat);
    let w = chars_of(with);
    let mut out: Vec<char> = Vec::new();
    let mut i: usize = 0;
    if p.len() == 0 {
        while i < v.len()
            invariant
                i <= v.len(),
                out@ == led_by(v@.take(i as int), w@),
            decreases v.len() - i,
        {
            proof {
                assert(v@.take(i + 1).drop_last() == v@.take(i as int));
                assert(v@.take(i + 1).last() == v@[i as int]);
            }
            extend_chars(&mut out, &w);
            out.push(v[i]);
            proof {
                assert(out@ =~= led_by(v@.take(i as int), w@) + w@ + seq![v@[i as int]]);
            }
            i += 1;
        }
        proof {
            assert(v@.take(v.len() as int) == v@);
        }
        extend_chars(&mut out, &w);
        return string_from_chars(&out);
    }
    proof {
        assert(v@.skip(0) == v@);
        assert(out@ + replaced_text(v@, p@, w@) =~= replaced_text(v@, p@, w@));
    }
    while i < v.len()
        invariant
            i <= v.len(),
            p.len() > 0,
            out@ + replaced_text(v@.skip(i as int), p@, w@) == replaced_text(v@, p@, w@),
        decreases v.len() - i,
    {
        let ghost rest = v@.skip(i as int);
        let here = p.len() <= v.len() - i && occurs_at_index(&v, &p, i);
        proof {
            if p.len() <= v.len() - i {
                assert(rest.take(p.len() as int) == v@.subrange(i as int, i + p.len()));
            }
            assert(here == starts_with_text(rest, p@));
        }
        if here {
            proof {
                assert(rest.skip(p.len() as int) == v@.skip(i + p.len()));
                assert(out@ + (w@ + replaced_text(v@.skip(i + p.len()), p@, w@)) =~= (out@ + w@)
                    + replaced_text(v@.skip(i + p.len()), p@, w@));
            }
            extend_chars(&mut out, &w);
            i += p.len();
        } else {
            proof {
                assert(rest[0] == v@[i as int]);
                assert(rest.skip(1) == v@.skip(i + 1));
                assert(out@ + (seq![v@[i as int]] + replaced_text(v@.skip(i + 1), p@, w@))
                    =~= out@.push(v@[i as int]) + replaced_text(v@.skip(i + 1), p@, w@));
            }
            out.push(v[i]);
            i += 1;
        }
    }
    proof {
        assert(v@.skip(v.len() as int) =~= Seq::<char>::empty());
        assert(out@ + Seq::<char>::empty() =~= out@);
    }
    string_from_chars(&out)
}

} // verus!
