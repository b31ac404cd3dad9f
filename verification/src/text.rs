//! Character sequences: the model that every contract of this crate speaks in,
//! and the executable operations on it.
//!
//! Patterns are matched as plain text, position by position. Nothing here knows
//! about keys or paths; the modules above give the patterns their meaning.

use vstd::prelude::*;

verus! {

/// `String::push` appends the given character to the end of the string.
pub assume_specification[ String::push ](s: &mut String, ch: char)
    ensures
        final(s)@ == old(s)@.push(ch),
;

/// `p` stands in `s` at position `i`.
pub open spec fn occurs_at(s: Seq<char>, p: Seq<char>, i: int) -> bool {
    0 <= i && i + p.len() <= s.len() && s.subrange(i, i + p.len()) == p
}

/// `p` stands somewhere in `s`.
pub open spec fn contains(s: Seq<char>, p: Seq<char>) -> bool {
    exists|i: int| occurs_at(s, p, i)
}

/// `s` begins with `p`.
pub open spec fn starts_with(s: Seq<char>, p: Seq<char>) -> bool {
    occurs_at(s, p, 0)
}

/// `s` ends with `p`.
pub open spec fn ends_with(s: Seq<char>, p: Seq<char>) -> bool {
    occurs_at(s, p, s.len() - p.len())
}

/// The first position at or after `from` where `p` stands in `s`, or the
/// length of `s` where there is none.
pub open spec fn first_match(s: Seq<char>, p: Seq<char>, from: int) -> int
    decreases s.len() - from,
{
    if from < 0 || from >= s.len() || from + p.len() > s.len() {
        s.len() as int
    } else if occurs_at(s, p, from) {
        from
    } else {
        first_match(s, p, from + 1)
    }
}

/// What is left of `s` from position `from` on when every occurrence of `p` is
/// taken out, scanning left to right; an occurrence that overlaps an earlier
/// one does not count. An empty `p` takes nothing out.
pub open spec fn removed_from(s: Seq<char>, p: Seq<char>, from: int) -> Seq<char>
    decreases s.len() - from,
{
    if from < 0 || from >= s.len() {
        Seq::<char>::empty()
    } else if p.len() > 0 && occurs_at(s, p, from) {
        removed_from(s, p, from + p.len())
    } else {
        seq![s[from]] + removed_from(s, p, from + 1)
    }
}

/// `s` without any occurrence of `p`.
pub open spec fn removed(s: Seq<char>, p: Seq<char>) -> Seq<char> {
    removed_from(s, p, 0)
}

/// `s` without one carriage return at its end.
pub open spec fn without_cr(s: Seq<char>) -> Seq<char> {
    if s.len() > 0 && s.last() == '\r' {
        s.drop_last()
    } else {
        s
    }
}

/// The pattern that ends a line.
pub open spec fn newline() -> Seq<char> {
    seq!['\n']
}

/// The lines of `s` from position `from` on. A line ends at a line feed; the
/// line feed, and a carriage return right before it, are not part of the line.
/// Text after the last line feed is a line of its own, kept as it is.
pub open spec fn lines_from(s: Seq<char>, from: int) -> Seq<Seq<char>>
    decreases s.len() - from,
{
    if from < 0 || from >= s.len() {
        Seq::<Seq<char>>::empty()
    } else {
        let end = first_match(s, newline(), from);
        if end < from || end >= s.len() {
            seq![s.subrange(from, s.len() as int)]
        } else {
            seq![without_cr(s.subrange(from, end))] + lines_from(s, end + 1)
        }
    }
}

/// The lines of `s`.
pub open spec fn lines(s: Seq<char>) -> Seq<Seq<char>> {
    lines_from(s, 0)
}

/// `first_match` stays within `from..=len` and, short of `len`, names an
/// occurrence.
pub proof fn lemma_first_match_bounds(s: Seq<char>, p: Seq<char>, from: int)
    requires
        0 <= from <= s.len(),
    ensures
        from <= first_match(s, p, from) <= s.len(),
        first_match(s, p, from) < s.len() ==> occurs_at(s, p, first_match(s, p, from)),
        forall|i: int| from <= i < first_match(s, p, from) ==> !occurs_at(s, p, i),
        first_match(s, p, from) == s.len() && p.len() > 0 ==> forall|i: int|
            from <= i ==> !occurs_at(s, p, i),
    decreases s.len() - from,
{
    if from >= s.len() || from + p.len() > s.len() {
    } else if occurs_at(s, p, from) {
    } else {
        lemma_first_match_bounds(s, p, from + 1);
    }
}

/// The character sequences that the items of `v` hold.
pub open spec fn views(v: Seq<Vec<char>>) -> Seq<Seq<char>> {
    v.map_values(|x: Vec<char>| x@)
}

/// The character sequences that the strings of `v` hold.
pub open spec fn texts(v: Seq<String>) -> Seq<Seq<char>> {
    v.map_values(|s: String| s@)
}

/// The characters of `s`, in order.
pub fn to_chars(s: &str) -> (v: Vec<char>)
    ensures
        v@ == s@,
{
    let mut v: Vec<char> = Vec::new();
    let it = s.chars();
    for c in iter: it
        invariant
            v@ == iter.seq().take(iter.index()),
    {
        v.push(c);
    }
    v
}

/// The string made of the characters of `v`, in order.
pub fn from_chars(v: &Vec<char>) -> (s: String)
    ensures
        s@ == v@,
{
    let mut s = String::new();
    let mut i: usize = 0;
    while i < v.len()
        invariant
            i <= v.len(),
            s@ == v@.take(i as int),
        decreases v.len() - i,
    {
        s.push(v[i]);
        i += 1;
    }
    s
}

/// Tells whether `p` stands in `s` at position `i`.
pub fn matches_at(s: &Vec<char>, p: &Vec<char>, i: usize) -> (b: bool)
    ensures
        b == occurs_at(s@, p@, i as int),
{
    if p.len() > s.len() || i > s.len() - p.len() {
        return false;
    }
    let mut j: usize = 0;
    while j < p.len()
        invariant
            j <= p.len(),
            i + p.len() <= s.len(),
            forall|k: int| 0 <= k < j ==> s@[i + k] == p@[k],
        decreases p.len() - j,
    {
        if s[i + j] != p[j] {
            assert(s@.subrange(i as int, i + p.len())[j as int] == s@[i + j]);
            return false;
        }
        j += 1;
    }
    assert(s@.subrange(i as int, i + p.len()) =~= p@);
    true
}

/// The position of the first occurrence of `p` in `s` at or after `from`, or
/// the length of `s`.
pub fn find_match(s: &Vec<char>, p: &Vec<char>, from: usize) -> (r: usize)
    requires
        from <= s.len(),
    ensures
        r == first_match(s@, p@, from as int),
        from <= r <= s.len(),
{
    let mut i: usize = from;
    while i < s.len()
        invariant
            from <= i <= s.len(),
            first_match(s@, p@, i as int) == first_match(s@, p@, from as int),
        decreases s.len() - i,
    {
        if matches_at(s, p, i) {
            return i;
        }
        i += 1;
    }
    i
}

/// Tells whether `p` stands somewhere in `s`.
pub fn contains_pattern(s: &Vec<char>, p: &Vec<char>) -> (b: bool)
    ensures
        b == contains(s@, p@),
{
    let at = find_match(s, p, 0);
    proof {
        lemma_first_match_bounds(s@, p@, 0);
    }
    if p.len() == 0 {
        assert(occurs_at(s@, p@, 0)) by {
            assert(s@.subrange(0, 0) =~= p@);
        }
        true
    } else {
        at < s.len()
    }
}

/// Tells whether `a` and `b` hold the same characters.
pub fn same_chars(a: &Vec<char>, b: &Vec<char>) -> (same: bool)
    ensures
        same == (a@ == b@),
{
    if a.len() != b.len() {
        return false;
    }
    assert(a@.subrange(0, a@.len() as int) =~= a@);
    matches_at(a, b, 0)
}

/// Tells whether `s` begins with `p`.
pub fn has_prefix(s: &Vec<char>, p: &Vec<char>) -> (b: bool)
    ensures
        b == starts_with(s@, p@),
{
    matches_at(s, p, 0)
}

/// Tells whether `s` ends with `p`.
pub fn has_suffix(s: &Vec<char>, p: &Vec<char>) -> (b: bool)
    ensures
        b == ends_with(s@, p@),
{
    if p.len() > s.len() {
        false
    } else {
        matches_at(s, p, s.len() - p.len())
    }
}

/// The characters of `s` from `from` up to, not including, `to`.
pub fn slice(s: &Vec<char>, from: usize, to: usize) -> (r: Vec<char>)
    requires
        from <= to <= s.len(),
    ensures
        r@ == s@.subrange(from as int, to as int),
{
    let mut r: Vec<char> = Vec::new();
    let mut i: usize = from;
    while i < to
        invariant
            from <= i <= to <= s.len(),
            r@ == s@.subrange(from as int, i as int),
        decreases to - i,
    {
        r.push(s[i]);
        i += 1;
    }
    r
}

/// Puts the characters of `more` after those of `out`.
pub fn extend(out: &mut Vec<char>, more: &Vec<char>)
    ensures
        final(out)@ == old(out)@ + more@,
{
    let mut i: usize = 0;
    while i < more.len()
        invariant
            i <= more.len(),
            out@ == old(out)@ + more@.take(i as int),
        decreases more.len() - i,
    {
        out.push(more[i]);
        i += 1;
    }
    assert(more@.take(more.len() as int) =~= more@);
}

/// `s` without any occurrence of `p`.
pub fn remove_all(s: &Vec<char>, p: &Vec<char>) -> (r: Vec<char>)
    ensures
        r@ == removed(s@, p@),
{
    let mut r: Vec<char> = Vec::new();
    let mut i: usize = 0;
    while i < s.len()
        invariant
            i <= s.len(),
            r@ + removed_from(s@, p@, i as int) == removed(s@, p@),
        decreases s.len() - i,
    {
        if p.len() > 0 && matches_at(s, p, i) {
            i += p.len();
        } else {
            assert(r@.push(s@[i as int]) + removed_from(s@, p@, i + 1) =~= r@ + (seq![s@[i as int]]
                + removed_from(s@, p@, i + 1)));
            r.push(s[i]);
            i += 1;
        }
    }
    assert(r@ + Seq::<char>::empty() =~= r@);
    r
}

/// The lines of `s`.
pub fn split_lines(s: &Vec<char>) -> (r: Vec<Vec<char>>)
    ensures
        views(r@) == lines(s@),
{
    let nl: Vec<char> = vec!['\n'];
    assert(nl@ =~= newline());
    let mut r: Vec<Vec<char>> = Vec::new();
    let mut i: usize = 0;
    assert(views(r@) =~= Seq::<Seq<char>>::empty());
    while i < s.len()
        invariant
            i <= s.len(),
            nl@ == newline(),
            views(r@) + lines_from(s@, i as int) == lines(s@),
        decreases s.len() - i,
    {
        let end = find_match(s, &nl, i);
        let ghost before = views(r@);
        if end >= s.len() {
            let line = slice(s, i, s.len());
            r.push(line);
            assert(views(r@) =~= before + seq![s@.subrange(i as int, s.len() as int)]);
            assert(views(r@) =~= lines(s@));
            return r;
        }
        let stop = if end > i && s[end - 1] == '\r' {
            end - 1
        } else {
            end
        };
        let line = slice(s, i, stop);
        assert(line@ =~= without_cr(s@.subrange(i as int, end as int)));
        r.push(line);
        assert(views(r@) =~= before + seq![without_cr(s@.subrange(i as int, end as int))]);
        assert(views(r@) + lines_from(s@, end + 1) =~= before + (seq![
            without_cr(s@.subrange(i as int, end as int)),
        ] + lines_from(s@, end + 1)));
        i = end + 1;
    }
    assert(views(r@) + Seq::<Seq<char>>::empty() =~= views(r@));
    r
}

} // verus!
