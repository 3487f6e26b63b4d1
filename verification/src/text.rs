//! Text helpers shared by the whole crate.
//!
//! Strings are specified through their view, a `Seq<char>`. The helpers here
//! move between `&str`, `String` and `Vec<char>` and do the small amount of
//! character work the crawlers and sinks need.

use vstd::prelude::*;
use vstd::string::StringExecFns;

verus! {

/// Appends one character to a string.
///
/// Trusted: calls `String::push`, which appends the given `char` to the end
/// of the string.
#[verifier::external_body]
pub(crate) fn push_char(s: &mut String, c: char)
    ensures
        final(s)@ == old(s)@.push(c),
{
    s.push(c)
}

/// The lower-case form of `s` that the standard library gives.
pub uninterp spec fn lowercased(s: Seq<char>) -> Seq<char>;

/// The lower-case form of a string.
///
/// Trusted: calls `str::to_lowercase`, which lower-cases by the rules of
/// Unicode. The contract only names the result.
#[verifier::external_body]
pub(crate) fn lowercase(s: &str) -> (out: String)
    ensures
        out@ == lowercased(s@),
{
    s.to_lowercase()
}

/// The characters of `s`, in order.
pub fn chars_of(s: &str) -> (out: Vec<char>)
    ensures
        out@ == s@,
{
    broadcast use vstd::string::group_string_axioms;

    let mut out: Vec<char> = Vec::new();
    for c in it: s.chars()
        invariant
            it.seq() == s@,
            out@ == s@.take(it.index()),
    {
        out.push(c);
        assert(s@.take(it.index() + 1) == s@.take(it.index()).push(c));
    }
    assert(s@.take(s@.len() as int) == s@);
    out
}

/// The string made of `chars`, in order.
pub fn text_of(chars: &Vec<char>) -> (out: String)
    ensures
        out@ == chars@,
{
    let mut out = String::new();
    let mut i: usize = 0;
    while i < chars.len()
        invariant
            i <= chars.len(),
            out@ == chars@.take(i as int),
        decreases chars.len() - i,
    {
        push_char(&mut out, chars[i]);
        assert(chars@.take(i + 1) == chars@.take(i as int).push(chars@[i as int]));
        i += 1;
    }
    assert(chars@.take(chars@.len() as int) == chars@);
    out
}

/// `a` followed by `b`.
pub fn concat(a: &str, b: &str) -> (out: String)
    ensures
        out@ == a@ + b@,
{
    a.to_owned().concat(b)
}

/// `a`, `b` and `c` one after the other.
pub fn concat3(a: &str, b: &str, c: &str) -> (out: String)
    ensures
        out@ == a@ + b@ + c@,
{
    a.to_owned().concat(b).concat(c)
}

/// Whether two strings hold the same characters.
pub fn same(a: &str, b: &str) -> (r: bool)
    ensures
        r == (a@ == b@),
{
    a.to_owned() == b.to_owned()
}

/// The views of a list of strings.
pub open spec fn views(list: Seq<String>) -> Seq<Seq<char>> {
    list.map_values(|s: String| s@)
}

/// Whether `list` holds a string equal to `item`.
pub fn contains(list: &Vec<String>, item: &str) -> (r: bool)
    ensures
        r == views(list@).contains(item@),
{
    let mut i: usize = 0;
    while i < list.len()
        invariant
            i <= list.len(),
            forall|j: int| 0 <= j < i ==> list@[j]@ != item@,
        decreases list.len() - i,
    {
        if same(list[i].as_str(), item) {
            assert(views(list@)[i as int] == item@);
            return true;
        }
        i += 1;
    }
    assert forall|j: int| 0 <= j < views(list@).len() implies views(list@)[j] != item@ by {
        assert(views(list@)[j] == list@[j]@);
    }
    false
}

/// A copy of a list of strings.
pub fn clone_strings(list: &Vec<String>) -> (out: Vec<String>)
    ensures
        views(out@) == views(list@),
{
    let mut out: Vec<String> = Vec::new();
    let mut i: usize = 0;
    while i < list.len()
        invariant
            i <= list.len(),
            out.len() == i,
            forall|j: int| 0 <= j < i ==> out@[j]@ == list@[j]@,
        decreases list.len() - i,
    {
        out.push(list[i].clone());
        i += 1;
    }
    assert(views(out@) =~= views(list@));
    out
}

/// Whether the standard library counts `c` as white space.
pub uninterp spec fn whitespace(c: char) -> bool;

/// Whether `c` is white space.
///
/// Trusted: calls `char::is_whitespace`, which goes by the Unicode property
/// `White_Space`. The contract only names the result.
#[verifier::external_body]
pub(crate) fn is_whitespace(c: char) -> (r: bool)
    ensures
        r == whitespace(c),
{
    c.is_whitespace()
}

/// How `s` looks in the standard library's `Debug` formatting: in double
/// quotes, with escapes.
pub uninterp spec fn debug_form(s: Seq<char>) -> Seq<char>;

/// The `Debug` form of a string.
///
/// Trusted: formats with `{:?}`, that is with the `Debug` impl of `str`. The
/// contract only names the result.
#[verifier::external_body]
pub(crate) fn debug_text(s: &str) -> (out: String)
    ensures
        out@ == debug_form(s@),
{
    format!("{:?}", s)
}

/// Whether `p` stands in `s` at position `i`.
pub open spec fn occurs_at(s: Seq<char>, p: Seq<char>, i: int) -> bool {
    0 <= i && i + p.len() <= s.len() && s.subrange(i, i + p.len()) == p
}

/// The first position from `i` on at which `p` stands in `s`.
pub open spec fn find_from(s: Seq<char>, p: Seq<char>, i: int) -> Option<int>
    decreases s.len() - i,
{
    if i < 0 || i + p.len() > s.len() {
        None
    } else if occurs_at(s, p, i) {
        Some(i)
    } else if i >= s.len() {
        None
    } else {
        find_from(s, p, i + 1)
    }
}

/// `s` from `pos` on, with every occurrence of `from` replaced by `to`.
/// Occurrences are taken from left to right and do not overlap.
pub open spec fn replaced_from(s: Seq<char>, from: Seq<char>, to: Seq<char>, pos: int) -> Seq<char>
    decreases s.len() - pos,
{
    match find_from(s, from, pos) {
        Some(i) => if 0 <= pos <= i && from.len() > 0 && i + from.len() <= s.len() {
            s.subrange(pos, i) + to + replaced_from(s, from, to, i + from.len())
        } else {
            s.skip(pos)
        },
        None => s.skip(pos),
    }
}

/// `s` with every occurrence of the non-empty text `from` replaced by `to`.
pub open spec fn replaced(s: Seq<char>, from: Seq<char>, to: Seq<char>) -> Seq<char> {
    replaced_from(s, from, to, 0)
}

/// The pieces of `s` from `pos` on between the occurrences of `p`.
pub open spec fn split_from(s: Seq<char>, p: Seq<char>, pos: int) -> Seq<Seq<char>>
    decreases s.len() - pos,
{
    match find_from(s, p, pos) {
        Some(i) => if 0 <= pos <= i && p.len() > 0 && i + p.len() <= s.len() {
            seq![s.subrange(pos, i)] + split_from(s, p, i + p.len())
        } else {
            seq![s.skip(pos)]
        },
        None => seq![s.skip(pos)],
    }
}

/// The pieces of `s` between the occurrences of the non-empty text `p`.
/// There is always at least one piece.
pub open spec fn split(s: Seq<char>, p: Seq<char>) -> Seq<Seq<char>> {
    split_from(s, p, 0)
}

/// The length of the longest prefix of `s` whose characters all satisfy `f`.
pub open spec fn prefix_run(s: Seq<char>, f: spec_fn(char) -> bool) -> nat
    decreases s.len(),
{
    if s.len() == 0 || !f(s[0]) {
        0
    } else {
        1 + prefix_run(s.skip(1), f)
    }
}

/// The length of the longest suffix of `s` whose characters all satisfy `f`.
pub open spec fn suffix_run(s: Seq<char>, f: spec_fn(char) -> bool) -> nat
    decreases s.len(),
{
    if s.len() == 0 || !f(s.last()) {
        0
    } else {
        1 + suffix_run(s.drop_last(), f)
    }
}

/// `s` without the white space at its start and end.
pub open spec fn trimmed(s: Seq<char>) -> Seq<char> {
    let rest = s.skip(prefix_run(s, |c: char| whitespace(c)) as int);
    rest.take(rest.len() - suffix_run(rest, |c: char| whitespace(c)))
}

/// `s` without the copies of `p` at its start.
pub open spec fn without_prefixes(s: Seq<char>, p: Seq<char>) -> Seq<char>
    decreases s.len(),
{
    if p.len() > 0 && occurs_at(s, p, 0) {
        without_prefixes(s.skip(p.len() as int), p)
    } else {
        s
    }
}

/// `s` without the characters `c` at its end.
pub open spec fn without_trailing(s: Seq<char>, c: char) -> Seq<char>
    decreases s.len(),
{
    if s.len() > 0 && s.last() == c {
        without_trailing(s.drop_last(), c)
    } else {
        s
    }
}

/// What follows the last `c` in `s`; all of `s` where there is none.
pub open spec fn after_last(s: Seq<char>, c: char) -> Seq<char>
    decreases s.len(),
{
    if s.len() > 0 && s.last() != c {
        after_last(s.drop_last(), c).push(s.last())
    } else {
        Seq::empty()
    }
}

/// The texts of `parts`, with `separator` between them.
pub open spec fn joined(parts: Seq<Seq<char>>, separator: Seq<char>) -> Seq<char>
    decreases parts.len(),
{
    if parts.len() == 0 {
        Seq::empty()
    } else if parts.len() == 1 {
        parts[0]
    } else {
        joined(parts.drop_last(), separator) + separator + parts.last()
    }
}

/// A run of `k` characters that satisfy `f`, up to the end of `s` or to a
/// character that does not, is the prefix run of `s`.
pub proof fn lemma_prefix_run(s: Seq<char>, f: spec_fn(char) -> bool, k: nat)
    requires
        k <= s.len(),
        forall|j: int| 0 <= j < k ==> f(#[trigger] s[j]),
        k == s.len() || !f(s[k as int]),
    ensures
        prefix_run(s, f) == k,
    decreases k,
{
    if k > 0 {
        let t = s.skip(1);
        assert forall|j: int| 0 <= j < k - 1 implies f(#[trigger] t[j]) by {
            assert(t[j] == s[j + 1]);
        }
        lemma_prefix_run(t, f, (k - 1) as nat);
    }
}

/// The same for the end of `s`.
pub proof fn lemma_suffix_run(s: Seq<char>, f: spec_fn(char) -> bool, k: nat)
    requires
        k <= s.len(),
        forall|j: int| s.len() - k <= j < s.len() ==> f(#[trigger] s[j]),
        k == s.len() || !f(s[s.len() - k - 1]),
    ensures
        suffix_run(s, f) == k,
    decreases k,
{
    if k > 0 {
        let t = s.drop_last();
        assert forall|j: int| t.len() - (k - 1) <= j < t.len() implies f(#[trigger] t[j]) by {
            assert(t[j] == s[j]);
        }
        if k - 1 < t.len() {
            assert(t[t.len() - (k - 1) - 1] == s[s.len() - k - 1]);
        }
        lemma_suffix_run(t, f, (k - 1) as nat);
    }
}

/// Whether `p` stands in `s` at position `i`.
pub fn occurs(s: &Vec<char>, p: &Vec<char>, i: usize) -> (r: bool)
    ensures
        r == occurs_at(s@, p@, i as int),
{
    if p.len() > s.len() || i > s.len() - p.len() {
        return false;
    }
    let mut k: usize = 0;
    while k < p.len()
        invariant
            k <= p.len(),
            i + p.len() <= s.len(),
            forall|j: int| 0 <= j < k ==> s@[i + j] == p@[j],
        decreases p.len() - k,
    {
        if s[i + k] != p[k] {
            assert(s@.subrange(i as int, i + p@.len())[k as int] == s@[i + k]);
            return false;
        }
        k += 1;
    }
    assert(s@.subrange(i as int, i + p@.len()) =~= p@);
    true
}

/// The first position from `from` on at which `p` stands in `s`.
pub fn find(s: &Vec<char>, p: &Vec<char>, from: usize) -> (r: Option<usize>)
    ensures
        match r {
            Some(i) => find_from(s@, p@, from as int) == Some(i as int) && from <= i && i + p@.len()
                <= s@.len(),
            None => find_from(s@, p@, from as int) is None,
        },
{
    if p.len() > s.len() || from > s.len() - p.len() {
        return None;
    }
    let last = s.len() - p.len();
    let mut i: usize = from;
    loop
        invariant
            from <= i <= last,
            last == s.len() - p.len(),
            find_from(s@, p@, from as int) == find_from(s@, p@, i as int),
        decreases last - i,
    {
        if occurs(s, p, i) {
            return Some(i);
        }
        if i == last {
            assert(find_from(s@, p@, i + 1) is None);
            return None;
        }
        i += 1;
    }
}

/// Appends the characters of `s` from `from` up to `to` to `out`.
pub fn extend_range(out: &mut Vec<char>, s: &Vec<char>, from: usize, to: usize)
    requires
        from <= to <= s.len(),
    ensures
        final(out)@ == old(out)@ + s@.subrange(from as int, to as int),
{
    let mut i: usize = from;
    while i < to
        invariant
            from <= i <= to,
            to <= s.len(),
            out@ == old(out)@ + s@.subrange(from as int, i as int),
        decreases to - i,
    {
        out.push(s[i]);
        assert(out@ =~= old(out)@ + s@.subrange(from as int, i + 1));
        i += 1;
    }
}

/// Replaces every occurrence of the non-empty text `from` in `s` by `to`.
pub fn replace(s: &str, from: &str, to: &str) -> (out: String)
    requires
        from@.len() > 0,
    ensures
        out@ == replaced(s@, from@, to@),
{
    let text = chars_of(s);
    let pattern = chars_of(from);
    let with = chars_of(to);
    let mut out: Vec<char> = Vec::new();
    let mut pos: usize = 0;
    let mut more = true;
    assert(out@ + replaced_from(text@, pattern@, with@, 0) =~= replaced(s@, from@, to@));
    while more
        invariant
            pos <= text.len(),
            pattern@.len() > 0,
            more ==> out@ + replaced_from(text@, pattern@, with@, pos as int) == replaced(
                text@,
                pattern@,
                with@,
            ),
            !more ==> out@ == replaced(text@, pattern@, with@),
        decreases (text.len() - pos) + if more { 1int } else { 0int },
    {
        let ghost before = out@;
        match find(&text, &pattern, pos) {
            Some(i) => {
                extend_range(&mut out, &text, pos, i);
                let ghost middle = out@;
                let mut k: usize = 0;
                while k < with.len()
                    invariant
                        k <= with.len(),
                        out@ == middle + with@.take(k as int),
                    decreases with.len() - k,
                {
                    out.push(with[k]);
                    assert(out@ =~= middle + with@.take(k + 1));
                    k += 1;
                }
                assert(with@.take(with@.len() as int) =~= with@);
                assert(out@ + replaced_from(text@, pattern@, with@, i + pattern@.len()) =~= before
                    + replaced_from(text@, pattern@, with@, pos as int));
                pos = i + pattern.len();
            },
            None => {
                extend_range(&mut out, &text, pos, text.len());
                assert(text@.subrange(pos as int, text@.len() as int) =~= text@.skip(pos as int));
                more = false;
            },
        }
    }
    text_of(&out)
}

/// Splits `s` at every occurrence of the non-empty text `p`.
pub fn split_text(s: &str, p: &str) -> (out: Vec<String>)
    requires
        p@.len() > 0,
    ensures
        views(out@) == split(s@, p@),
        out@.len() > 0,
{
    let text = chars_of(s);
    let pattern = chars_of(p);
    let mut out: Vec<String> = Vec::new();
    let mut pos: usize = 0;
    let mut more = true;
    assert(views(out@) + split_from(text@, pattern@, 0) =~= split(s@, p@));
    while more
        invariant
            pos <= text.len(),
            pattern@.len() > 0,
            more ==> views(out@) + split_from(text@, pattern@, pos as int) == split(text@, pattern@),
            !more ==> views(out@) == split(text@, pattern@) && out@.len() > 0,
        decreases (text.len() - pos) + if more { 1int } else { 0int },
    {
        let ghost before = out@;
        let mut piece: Vec<char> = Vec::new();
        match find(&text, &pattern, pos) {
            Some(i) => {
                extend_range(&mut piece, &text, pos, i);
                let part = text_of(&piece);
                out.push(part);
                assert(part@ =~= text@.subrange(pos as int, i as int));
                assert(views(out@) =~= views(before).push(part@));
                assert(views(out@) + split_from(text@, pattern@, i + pattern@.len()) =~= views(before)
                    + split_from(text@, pattern@, pos as int));
                pos = i + pattern.len();
            },
            None => {
                extend_range(&mut piece, &text, pos, text.len());
                let part = text_of(&piece);
                out.push(part);
                assert(part@ =~= text@.skip(pos as int));
                assert(views(out@) =~= views(before).push(part@));
                assert(views(out@) =~= views(before) + split_from(text@, pattern@, pos as int));
                more = false;
            },
        }
    }
    out
}

/// Removes the white space at the start and the end of `s`.
pub fn trim(s: &str) -> (out: String)
    ensures
        out@ == trimmed(s@),
{
    let text = chars_of(s);
    let ghost ws = |c: char| whitespace(c);
    let mut start: usize = 0;
    while start < text.len() && is_whitespace(text[start])
        invariant
            start <= text.len(),
            forall|j: int| 0 <= j < start ==> whitespace(#[trigger] text@[j]),
        decreases text.len() - start,
    {
        start += 1;
    }
    let mut end: usize = text.len();
    while end > start && is_whitespace(text[end - 1])
        invariant
            start <= end <= text.len(),
            forall|j: int| end <= j < text.len() ==> whitespace(#[trigger] text@[j]),
        decreases end - start,
    {
        end -= 1;
    }
    proof {
        lemma_prefix_run(text@, ws, start as nat);
        let rest = text@.skip(start as int);
        assert forall|j: int| rest.len() - (text.len() - end) <= j < rest.len() implies ws(
            #[trigger] rest[j],
        ) by {
            assert(rest[j] == text@[j + start]);
        }
        if end > start {
            assert(rest[rest.len() - (text.len() - end) - 1] == text@[end - 1]);
        }
        lemma_suffix_run(rest, ws, (text.len() - end) as nat);
        assert(rest.take(rest.len() - (text.len() - end)) =~= text@.subrange(
            start as int,
            end as int,
        ));
    }
    let mut out: Vec<char> = Vec::new();
    extend_range(&mut out, &text, start, end);
    assert(out@ =~= text@.subrange(start as int, end as int));
    text_of(&out)
}

/// Removes the copies of the non-empty text `p` at the start of `s`.
pub fn strip_prefixes(s: &str, p: &str) -> (out: String)
    requires
        p@.len() > 0,
    ensures
        out@ == without_prefixes(s@, p@),
{
    let text = chars_of(s);
    let pattern = chars_of(p);
    let mut pos: usize = 0;
    assert(text@.skip(0) =~= text@);
    while occurs(&text, &pattern, pos)
        invariant
            pos <= text.len(),
            pattern@.len() > 0,
            without_prefixes(text@, pattern@) == without_prefixes(text@.skip(pos as int), pattern@),
        decreases text.len() - pos,
    {
        proof {
            let rest = text@.skip(pos as int);
            assert(rest.subrange(0, pattern@.len() as int) =~= text@.subrange(
                pos as int,
                pos + pattern@.len(),
            ));
            assert(rest.skip(pattern@.len() as int) =~= text@.skip(pos + pattern@.len()));
        }
        pos += pattern.len();
    }
    proof {
        let rest = text@.skip(pos as int);
        if pos + pattern@.len() <= text@.len() {
            assert(rest.subrange(0, pattern@.len() as int) =~= text@.subrange(
                pos as int,
                pos + pattern@.len(),
            ));
        }
    }
    let mut out: Vec<char> = Vec::new();
    extend_range(&mut out, &text, pos, text.len());
    assert(out@ =~= text@.skip(pos as int));
    text_of(&out)
}

/// Removes the characters `c` at the end of `s`.
pub fn strip_trailing(s: &str, c: char) -> (out: String)
    ensures
        out@ == without_trailing(s@, c),
{
    let text = chars_of(s);
    let mut end: usize = text.len();
    assert(text@.take(end as int) =~= text@);
    while end > 0 && text[end - 1] == c
        invariant
            end <= text.len(),
            without_trailing(text@, c) == without_trailing(text@.take(end as int), c),
        decreases end,
    {
        assert(text@.take(end as int).drop_last() =~= text@.take(end - 1));
        end -= 1;
    }
    let mut out: Vec<char> = Vec::new();
    extend_range(&mut out, &text, 0, end);
    assert(out@ =~= text@.take(end as int));
    text_of(&out)
}

/// What follows the last `c` in `s`.
pub fn tail_after(s: &str, c: char) -> (out: String)
    ensures
        out@ == after_last(s@, c),
{
    let text = chars_of(s);
    let mut start: usize = text.len();
    assert(text@.take(start as int) =~= text@);
    assert(text@.skip(start as int) =~= Seq::<char>::empty());
    while start > 0 && text[start - 1] != c
        invariant
            start <= text.len(),
            after_last(text@, c) == after_last(text@.take(start as int), c) + text@.skip(
                start as int,
            ),
        decreases start,
    {
        assert(text@.take(start as int).drop_last() =~= text@.take(start - 1));
        assert(after_last(text@.take(start - 1), c).push(text@[start - 1]) + text@.skip(
            start as int,
        ) =~= after_last(text@.take(start - 1), c) + text@.skip(start - 1));
        start -= 1;
    }
    let mut out: Vec<char> = Vec::new();
    extend_range(&mut out, &text, start, text.len());
    assert(out@ =~= text@.skip(start as int));
    text_of(&out)
}

/// Joins `parts` with `separator` between them.
pub fn join(parts: &Vec<String>, separator: &str) -> (out: String)
    ensures
        out@ == joined(views(parts@), separator@),
{
    let mut out = String::new();
    let mut i: usize = 0;
    assert(views(parts@).take(0) =~= Seq::<Seq<char>>::empty());
    while i < parts.len()
        invariant
            i <= parts.len(),
            out@ == joined(views(parts@).take(i as int), separator@),
        decreases parts.len() - i,
    {
        let ghost before = views(parts@).take(i as int);
        let ghost after = views(parts@).take(i + 1);
        assert(after.drop_last() =~= before);
        assert(after.last() == parts@[i as int]@);
        if i > 0 {
            out = out.concat(separator);
        }
        out = out.concat(parts[i].as_str());
        assert(out@ =~= joined(after, separator@)) by {
            if i == 0 {
                assert(after[0] == parts@[0]@);
                assert(before =~= Seq::<Seq<char>>::empty());
            }
        }
        i += 1;
    }
    assert(views(parts@).take(parts@.len() as int) =~= views(parts@));
    out
}

} // verus!
