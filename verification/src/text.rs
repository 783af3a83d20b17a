//! Searching and cutting text.
//!
//! Every function here is stated over the characters of its arguments, `Seq<char>`, so that
//! the rules built on top of them can be read as statements about text and nothing else.

use vstd::prelude::*;

verus! {

/// `p` stands in `s` starting at position `i`.
pub open spec fn occurs_at(s: Seq<char>, p: Seq<char>, i: int) -> bool {
    &&& 0 <= i
    &&& i + p.len() <= s.len()
    &&& forall|k: int| 0 <= k < p.len() ==> s[i + k] == p[k]
}

/// `s` begins with `p`.
pub open spec fn is_prefix(p: Seq<char>, s: Seq<char>) -> bool {
    occurs_at(s, p, 0)
}

/// `s` ends with `p`.
pub open spec fn is_suffix(p: Seq<char>, s: Seq<char>) -> bool {
    occurs_at(s, p, s.len() - p.len())
}

/// `p` stands somewhere in `s`.
pub open spec fn occurs_in(p: Seq<char>, s: Seq<char>) -> bool {
    exists|i: int| occurs_at(s, p, i)
}

/// `p` stands in `s` at `i` and nowhere before `i`.
pub open spec fn is_first_occurrence(s: Seq<char>, p: Seq<char>, i: int) -> bool {
    &&& occurs_at(s, p, i)
    &&& forall|j: int| 0 <= j < i ==> !occurs_at(s, p, j)
}

/// The position of the first occurrence of `p` in `s`; meaningful when `occurs_in(p, s)`.
pub open spec fn first_position(s: Seq<char>, p: Seq<char>) -> int {
    choose|i: int| is_first_occurrence(s, p, i)
}

/// `s` without its leading `p`, or `s` itself where it does not begin with `p`.
pub open spec fn without_prefix(s: Seq<char>, p: Seq<char>) -> Seq<char> {
    if is_prefix(p, s) {
        s.subrange(p.len() as int, s.len() as int)
    } else {
        s
    }
}

/// `s` without its trailing `p`, or `s` itself where it does not end with `p`.
pub open spec fn without_suffix(s: Seq<char>, p: Seq<char>) -> Seq<char> {
    if is_suffix(p, s) {
        s.subrange(0, s.len() - p.len())
    } else {
        s
    }
}

/// `s` with its first occurrence of `from` replaced by `to`, or `s` itself where `from` does
/// not occur.
pub open spec fn replace_first(s: Seq<char>, from: Seq<char>, to: Seq<char>) -> Seq<char> {
    if occurs_in(from, s) {
        let i = first_position(s, from);
        s.subrange(0, i) + to + s.subrange(i + from.len(), s.len() as int)
    } else {
        s
    }
}

/// A text has at most one first occurrence of a pattern.
pub proof fn lemma_first_occurrence_unique(s: Seq<char>, p: Seq<char>, i: int, j: int)
    requires
        is_first_occurrence(s, p, i),
        is_first_occurrence(s, p, j),
    ensures
        i == j,
{
    if i < j {
        assert(!occurs_at(s, p, i));
    } else if j < i {
        assert(!occurs_at(s, p, j));
    }
}

/// Where a pattern occurs at all, it has a first occurrence, at or before any given one.
pub proof fn lemma_first_occurrence_exists(s: Seq<char>, p: Seq<char>, i: int)
    requires
        occurs_at(s, p, i),
    ensures
        occurs_in(p, s),
        is_first_occurrence(s, p, first_position(s, p)),
        first_position(s, p) <= i,
    decreases i,
{
    if exists|j: int| 0 <= j < i && occurs_at(s, p, j) {
        let j = choose|j: int| 0 <= j < i && occurs_at(s, p, j);
        lemma_first_occurrence_exists(s, p, j);
    } else {
        assert(is_first_occurrence(s, p, i));
        lemma_first_occurrence_unique(s, p, i, first_position(s, p));
    }
}

/// Where `i` is a first occurrence, `first_position` is `i`.
pub proof fn lemma_first_position(s: Seq<char>, p: Seq<char>, i: int)
    requires
        is_first_occurrence(s, p, i),
    ensures
        occurs_in(p, s),
        first_position(s, p) == i,
{
    lemma_first_occurrence_unique(s, p, i, first_position(s, p));
}

/// Putting a stripped prefix back gives the text; a text without the prefix is left alone.
pub proof fn lemma_prefix_restores(s: Seq<char>, p: Seq<char>)
    ensures
        is_prefix(p, s) ==> p + without_prefix(s, p) == s,
        !is_prefix(p, s) ==> without_prefix(s, p) == s,
        without_prefix(s, p).len() == if is_prefix(p, s) {
            s.len() - p.len()
        } else {
            s.len() as int
        },
{
    if is_prefix(p, s) {
        assert(forall|k: int| 0 <= k < p.len() ==> s[0 + k] == p[k]);
        assert(p + without_prefix(s, p) =~= s);
    }
}

/// Putting a stripped suffix back gives the text; a text without the suffix is left alone.
pub proof fn lemma_suffix_restores(s: Seq<char>, p: Seq<char>)
    ensures
        is_suffix(p, s) ==> without_suffix(s, p) + p == s,
        !is_suffix(p, s) ==> without_suffix(s, p) == s,
        without_suffix(s, p).len() == if is_suffix(p, s) {
            s.len() - p.len()
        } else {
            s.len() as int
        },
{
    if is_suffix(p, s) {
        let at = s.len() - p.len();
        assert(forall|k: int| 0 <= k < p.len() ==> s[at + k] == p[k]);
        assert(without_suffix(s, p) + p =~= s);
    }
}

/// The characters of `s`, in order, as a vector that can be indexed in constant time.
pub fn chars_of(s: &str) -> (v: Vec<char>)
    ensures
        v@ == s@,
{
    let mut v: Vec<char> = Vec::new();
    for c in it: s.chars()
        invariant
            it.seq() == s@,
            v@ == it.seq().take(it.index() as int),
    {
        v.push(c);
    }
    assert(s@.take(s@.len() as int) == s@);
    v
}

/// Whether `p` stands in `s` at position `i`.
pub fn matches_at(s: &Vec<char>, p: &Vec<char>, i: usize) -> (r: bool)
    ensures
        r == occurs_at(s@, p@, i as int),
{
    if p.len() > s.len() || i > s.len() - p.len() {
        return false;
    }
    let mut k: usize = 0;
    while k < p.len()
        invariant
            k <= p.len(),
            i + p.len() <= s.len(),
            forall|j: int| 0 <= j < k ==> s@[i + j] == p@[j],
        decreases p.len() - k,
    {
        if s[i + k] != p[k] {
            return false;
        }
        k += 1;
    }
    true
}

/// The position at which `p` first stands in `s`, if it stands there at all.
pub fn find(s: &Vec<char>, p: &Vec<char>) -> (r: Option<usize>)
    ensures
        match r {
            Some(i) => is_first_occurrence(s@, p@, i as int),
            None => !occurs_in(p@, s@),
        },
{
    if p.len() > s.len() {
        return None;
    }
    let last: usize = s.len() - p.len();
    let mut i: usize = 0;
    loop
        invariant
            i <= last,
            last == s.len() - p.len(),
            forall|j: int| 0 <= j < i ==> !occurs_at(s@, p@, j),
        decreases last - i,
    {
        if matches_at(s, p, i) {
            return Some(i);
        }
        if i == last {
            return None;
        }
        i += 1;
    }
}

/// Whether two texts hold the same characters.
pub fn equal(a: &str, b: &str) -> (r: bool)
    ensures
        r == (a@ == b@),
{
    let x = chars_of(a);
    let y = chars_of(b);
    let r = x.len() == y.len() && matches_at(&x, &y, 0);
    proof {
        if r {
            assert(a@ =~= b@);
        }
    }
    r
}

/// Whether `s` begins with `p`.
pub fn starts_with(s: &str, p: &str) -> (r: bool)
    ensures
        r == is_prefix(p@, s@),
{
    matches_at(&chars_of(s), &chars_of(p), 0)
}

/// Whether `s` ends with `p`.
pub fn ends_with(s: &str, p: &str) -> (r: bool)
    ensures
        r == is_suffix(p@, s@),
{
    let x = chars_of(s);
    let y = chars_of(p);
    if y.len() > x.len() {
        return false;
    }
    matches_at(&x, &y, x.len() - y.len())
}

/// Whether `p` stands somewhere in `s`.
pub fn contains(s: &str, p: &str) -> (r: bool)
    ensures
        r == occurs_in(p@, s@),
{
    find(&chars_of(s), &chars_of(p)).is_some()
}

/// `s` without its leading `p`; `s` itself where it does not begin with `p`.
pub fn strip_prefix<'a>(s: &'a str, p: &str) -> (r: &'a str)
    ensures
        r@ == without_prefix(s@, p@),
{
    let x = chars_of(s);
    let y = chars_of(p);
    if matches_at(&x, &y, 0) {
        s.substring_char(y.len(), x.len())
    } else {
        s
    }
}

/// `s` without its trailing `p`; `s` itself where it does not end with `p`.
pub fn strip_suffix<'a>(s: &'a str, p: &str) -> (r: &'a str)
    ensures
        r@ == without_suffix(s@, p@),
{
    let x = chars_of(s);
    let y = chars_of(p);
    if y.len() <= x.len() && matches_at(&x, &y, x.len() - y.len()) {
        s.substring_char(0, x.len() - y.len())
    } else {
        s
    }
}

/// `s` with its first occurrence of `from` replaced by `to`; a copy of `s` where `from` does
/// not occur.
pub fn replace_first_occurrence(s: &str, from: &str, to: &str) -> (r: String)
    ensures
        r@ == replace_first(s@, from@, to@),
{
    let x = chars_of(s);
    let y = chars_of(from);
    match find(&x, &y) {
        Some(i) => {
            proof {
                lemma_first_position(s@, from@, i as int);
                assert(occurs_at(x@, y@, i as int));
            }
            let end: usize = x.len();
            let mut out = String::from_str(s.substring_char(0, i));
            out.append(to);
            out.append(s.substring_char(i + y.len(), end));
            out
        },
        None => String::from_str(s),
    }
}

/// The pieces into which the separator `sep` cuts `s`, in order. A text without the separator
/// is one piece; a separator at either end leaves an empty piece there.
pub open spec fn segments(s: Seq<char>, sep: char) -> Seq<Seq<char>>
    decreases s.len(),
{
    if s.len() == 0 {
        seq![Seq::<char>::empty()]
    } else {
        let before = segments(s.drop_last(), sep);
        if s.last() == sep {
            before.push(Seq::<char>::empty())
        } else {
            before.update(before.len() - 1, before.last().push(s.last()))
        }
    }
}

/// The pieces put together again, with `sep` between each two.
pub open spec fn joined(parts: Seq<Seq<char>>, sep: char) -> Seq<char>
    decreases parts.len(),
{
    if parts.len() == 0 {
        Seq::<char>::empty()
    } else if parts.len() == 1 {
        parts[0]
    } else {
        joined(parts.drop_last(), sep).push(sep) + parts.last()
    }
}

/// The characters of each text of a list.
pub open spec fn texts(parts: Seq<String>) -> Seq<Seq<char>> {
    Seq::new(parts.len(), |i: int| parts[i]@)
}

/// Cutting always leaves at least one piece.
pub proof fn lemma_segments_nonempty(s: Seq<char>, sep: char)
    ensures
        segments(s, sep).len() >= 1,
    decreases s.len(),
{
    if s.len() > 0 {
        lemma_segments_nonempty(s.drop_last(), sep);
    }
}

/// A text is cut into two pieces or more exactly where it holds the separator.
pub proof fn lemma_segments_two_iff_separator(s: Seq<char>, sep: char)
    ensures
        segments(s, sep).len() >= 2 <==> exists|i: int| 0 <= i < s.len() && s[i] == sep,
    decreases s.len(),
{
    lemma_segments_nonempty(s, sep);
    if s.len() > 0 {
        let front = s.drop_last();
        lemma_segments_nonempty(front, sep);
        lemma_segments_two_iff_separator(front, sep);
        if s.last() == sep {
            assert(s[s.len() - 1] == sep);
        } else if segments(s, sep).len() >= 2 {
            let i = choose|i: int| 0 <= i < front.len() && front[i] == sep;
            assert(s[i] == sep);
        } else if exists|i: int| 0 <= i < s.len() && s[i] == sep {
            let i = choose|i: int| 0 <= i < s.len() && s[i] == sep;
            assert(front[i] == sep);
        }
    }
}

/// No piece holds the separator.
pub proof fn lemma_segments_hold_no_separator(s: Seq<char>, sep: char)
    ensures
        forall|i: int, k: int|
            0 <= i < segments(s, sep).len() && 0 <= k < segments(s, sep)[i].len()
                ==> segments(s, sep)[i][k] != sep,
    decreases s.len(),
{
    if s.len() > 0 {
        lemma_segments_nonempty(s.drop_last(), sep);
        lemma_segments_hold_no_separator(s.drop_last(), sep);
    }
}

/// Joining the pieces with the separator gives the text back.
pub proof fn lemma_joined_segments(s: Seq<char>, sep: char)
    ensures
        joined(segments(s, sep), sep) == s,
    decreases s.len(),
{
    if s.len() == 0 {
        assert(joined(segments(s, sep), sep) =~= s);
    } else {
        let before = segments(s.drop_last(), sep);
        lemma_segments_nonempty(s.drop_last(), sep);
        lemma_joined_segments(s.drop_last(), sep);
        if s.last() == sep {
            let all = before.push(Seq::<char>::empty());
            assert(all.drop_last() =~= before);
            assert(joined(all, sep) =~= s);
        } else {
            let all = before.update(before.len() - 1, before.last().push(s.last()));
            if before.len() == 1 {
                assert(joined(all, sep) =~= s);
            } else {
                assert(all.drop_last() =~= before.drop_last());
                assert(all.last() == before.last().push(s.last()));
                assert(joined(before, sep) == joined(before.drop_last(), sep).push(sep)
                    + before.last());
                assert(joined(all, sep) == joined(before.drop_last(), sep).push(sep)
                    + before.last().push(s.last()));
                assert(s =~= s.drop_last().push(s.last()));
                assert(joined(all, sep) =~= s);
            }
        }
    }
}

/// The pieces into which `sep` cuts `s`.
pub fn split(s: &str, sep: char) -> (parts: Vec<String>)
    ensures
        texts(parts@) == segments(s@, sep),
{
    let cs = chars_of(s);
    let n: usize = cs.len();
    let mut parts: Vec<String> = Vec::new();
    let mut start: usize = 0;
    let mut i: usize = 0;
    assert(s@.take(0) =~= Seq::<char>::empty());
    assert(segments(s@.take(0), sep) =~= texts(parts@).push(s@.subrange(0, 0)));
    while i < n
        invariant
            cs@ == s@,
            n == cs.len(),
            start <= i <= n,
            segments(s@.take(i as int), sep) == texts(parts@).push(s@.subrange(start as int, i as int)),
        decreases n - i,
    {
        let ghost done = texts(parts@);
        let ghost open = s@.subrange(start as int, i as int);
        proof {
            assert(s@.take(i + 1).drop_last() =~= s@.take(i as int));
            assert(s@.take(i + 1).last() == s@[i as int]);
        }
        if cs[i] == sep {
            parts.push(String::from_str(s.substring_char(start, i)));
            start = i + 1;
            proof {
                assert(texts(parts@) =~= done.push(open));
                assert(s@.subrange(start as int, i + 1) =~= Seq::<char>::empty());
            }
        } else {
            proof {
                assert(s@.subrange(start as int, i + 1) =~= open.push(s@[i as int]));
                assert(done.push(open).update(done.len() as int, open.push(s@[i as int]))
                    =~= done.push(open.push(s@[i as int])));
            }
        }
        i += 1;
    }
    let ghost done = texts(parts@);
    parts.push(String::from_str(s.substring_char(start, n)));
    proof {
        assert(s@.take(n as int) =~= s@);
        assert(texts(parts@) =~= done.push(s@.subrange(start as int, n as int)));
    }
    parts
}

} // verus!
