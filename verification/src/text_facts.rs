//! Facts about matching, removing and line splitting that the laws of this
//! crate are proved from.

use vstd::prelude::*;
use crate::text::{
    contains, ends_with, first_match, lemma_first_match_bounds, lines, lines_from, newline,
    occurs_at, removed, removed_from, without_cr,
};

verus! {

/// The character `c` is nowhere in `s`.
pub open spec fn free_of(s: Seq<char>, c: char) -> bool {
    forall|j: int| 0 <= j < s.len() ==> s[j] != c
}

/// `s` ends with the character `c` and holds it nowhere else.
pub open spec fn ends_only_with(s: Seq<char>, c: char) -> bool {
    s.len() > 0 && s.last() == c && free_of(s.drop_last(), c)
}

/// `s` is one line as it stands: no line feed in it, no carriage return at
/// its end.
pub open spec fn single_line(s: Seq<char>) -> bool {
    free_of(s, '\n') && !(s.len() > 0 && s.last() == '\r')
}

/// What is found cannot be longer than where it is found.
pub proof fn lemma_contains_length(s: Seq<char>, p: Seq<char>)
    requires
        contains(s, p),
    ensures
        p.len() <= s.len(),
{
}

/// A text begins with its own beginning.
pub proof fn lemma_contains_own_prefix(k: Seq<char>, v: Seq<char>)
    ensures
        occurs_at(k + v, k, 0),
        contains(k + v, k),
{
    assert((k + v).subrange(0, k.len() as int) =~= k);
}

/// Matching in the second part of a text is matching in that part alone.
pub proof fn lemma_occurs_in_suffix(a: Seq<char>, b: Seq<char>, p: Seq<char>, i: int)
    requires
        i >= 0,
    ensures
        occurs_at(a + b, p, a.len() + i) <==> occurs_at(b, p, i),
{
    if i + p.len() <= b.len() {
        assert((a + b).subrange(a.len() + i, a.len() + i + p.len()) =~= b.subrange(
            i,
            i + p.len(),
        ));
    }
}

/// Matching within the first part of a text is matching in that part alone.
pub proof fn lemma_occurs_in_prefix(a: Seq<char>, b: Seq<char>, p: Seq<char>, i: int)
    requires
        i + p.len() <= a.len(),
    ensures
        occurs_at(a + b, p, i) <==> occurs_at(a, p, i),
{
    if 0 <= i {
        assert((a + b).subrange(i, i + p.len()) =~= a.subrange(i, i + p.len()));
    }
}

/// What either part holds, the whole holds.
pub proof fn lemma_contains_in_parts(a: Seq<char>, b: Seq<char>, p: Seq<char>)
    ensures
        contains(a, p) ==> contains(a + b, p),
        contains(b, p) ==> contains(a + b, p),
{
    if contains(a, p) {
        let i = choose|i: int| occurs_at(a, p, i);
        lemma_occurs_in_prefix(a, b, p, i);
    }
    if contains(b, p) {
        let i = choose|i: int| occurs_at(b, p, i);
        lemma_occurs_in_suffix(a, b, p, i);
    }
}

/// A pattern without the character `c` is found in `a`, `c`, `b` put
/// together exactly when it is found in `a` or in `b`.
pub proof fn lemma_contains_split(a: Seq<char>, c: char, b: Seq<char>, p: Seq<char>)
    requires
        free_of(p, c),
    ensures
        contains(a + seq![c] + b, p) <==> contains(a, p) || contains(b, p),
{
    let s = a + seq![c] + b;
    lemma_contains_in_parts(a + seq![c], b, p);
    lemma_contains_in_parts(a, seq![c], p);
    if contains(s, p) {
        let i = choose|i: int| occurs_at(s, p, i);
        if i + p.len() <= a.len() {
            assert(s =~= a + (seq![c] + b));
            lemma_occurs_in_prefix(a, seq![c] + b, p, i);
        } else if i > a.len() {
            lemma_occurs_in_suffix(a + seq![c], b, p, i - a.len() - 1);
        } else {
            let j = a.len() - i;
            assert(s.subrange(i, i + p.len())[j] == s[a.len() as int]);
            assert(p[j] == c);
        }
    }
}

/// Searching the second part of a text is searching that part alone.
pub proof fn lemma_first_match_suffix(a: Seq<char>, b: Seq<char>, p: Seq<char>, i: int)
    requires
        0 <= i,
    ensures
        first_match(a + b, p, a.len() + i) == a.len() + first_match(b, p, i),
    decreases b.len() - i,
{
    if i >= b.len() || i + p.len() > b.len() {
    } else {
        lemma_occurs_in_suffix(a, b, p, i);
        if !occurs_at(b, p, i) {
            lemma_first_match_suffix(a, b, p, i + 1);
        }
    }
}

/// What a search finds in the first part of a text, it finds in the whole.
pub proof fn lemma_first_match_prefix(a: Seq<char>, b: Seq<char>, p: Seq<char>, i: int)
    requires
        0 <= i,
        first_match(a, p, i) < a.len(),
    ensures
        first_match(a + b, p, i) == first_match(a, p, i),
    decreases a.len() - i,
{
    if i >= a.len() || i + p.len() > a.len() {
    } else {
        lemma_occurs_in_prefix(a, b, p, i);
        if !occurs_at(a, p, i) {
            lemma_first_match_prefix(a, b, p, i + 1);
        }
    }
}

/// Where nothing matches from `from` on, removing leaves the rest as it is.
pub proof fn lemma_removed_from_unmatched(s: Seq<char>, p: Seq<char>, from: int)
    requires
        0 <= from <= s.len(),
        forall|i: int| from <= i ==> !occurs_at(s, p, i),
    ensures
        removed_from(s, p, from) == s.skip(from),
    decreases s.len() - from,
{
    if from < s.len() {
        lemma_removed_from_unmatched(s, p, from + 1);
        assert(seq![s[from]] + s.skip(from + 1) =~= s.skip(from));
    } else {
        assert(s.skip(from) =~= Seq::<char>::empty());
    }
}

/// Removing what is not there changes nothing.
pub proof fn lemma_removed_absent(s: Seq<char>, p: Seq<char>)
    requires
        !contains(s, p),
    ensures
        removed(s, p) == s,
{
    lemma_removed_from_unmatched(s, p, 0);
    assert(s.skip(0) =~= s);
}

/// Removing from the second part of a text is removing from that part alone.
pub proof fn lemma_removed_from_suffix(a: Seq<char>, b: Seq<char>, p: Seq<char>, i: int)
    requires
        0 <= i,
    ensures
        removed_from(a + b, p, a.len() + i) == removed_from(b, p, i),
    decreases b.len() - i,
{
    if i < b.len() {
        lemma_occurs_in_suffix(a, b, p, i);
        if p.len() > 0 && occurs_at(b, p, i) {
            lemma_removed_from_suffix(a, b, p, i + p.len());
        } else {
            lemma_removed_from_suffix(a, b, p, i + 1);
        }
    }
}

/// A key in front of a value that does not hold it comes off cleanly.
pub proof fn lemma_removed_key(k: Seq<char>, v: Seq<char>)
    requires
        k.len() > 0,
        !contains(v, k),
    ensures
        removed(k + v, k) == v,
{
    lemma_contains_own_prefix(k, v);
    lemma_removed_from_suffix(k, v, k, 0);
    lemma_removed_absent(v, k);
}

/// A text put together from parts without `c` is without `c`.
pub proof fn lemma_free_of_parts(a: Seq<char>, b: Seq<char>, c: char)
    requires
        free_of(a, c),
        free_of(b, c),
    ensures
        free_of(a + b, c),
{
}

/// In a text that ends only with `c`, `c` stands at the last place alone.
pub proof fn lemma_ends_only_with(s: Seq<char>, c: char, j: int)
    requires
        ends_only_with(s, c),
        0 <= j < s.len(),
    ensures
        (s[j] == c) == (j == s.len() - 1),
{
    if j < s.len() - 1 {
        assert(s.drop_last()[j] == s[j]);
    }
}

/// A key is not found in a line made of another key and a value, when both
/// keys end with the one `c` they hold, the key is no ending of the other,
/// and the value does not hold it.
pub proof fn lemma_key_not_in_other_line(head: Seq<char>, key: Seq<char>, v: Seq<char>, c: char)
    requires
        ends_only_with(head, c),
        ends_only_with(key, c),
        !ends_with(head, key),
        !contains(v, key),
    ensures
        !contains(head + v, key),
{
    let s = head + v;
    if contains(s, key) {
        let i = choose|i: int| occurs_at(s, key, i);
        let last = i + key.len() - 1;
        assert(s.subrange(i, i + key.len())[key.len() - 1] == s[last]);
        assert(s[last] == c);
        if i >= head.len() {
            lemma_occurs_in_suffix(head, v, key, i - head.len());
        } else if last < head.len() - 1 {
            lemma_ends_only_with(head, c, last);
        } else if last == head.len() - 1 {
            lemma_occurs_in_prefix(head, v, key, i);
        } else {
            let j = head.len() - 1 - i;
            assert(s.subrange(i, i + key.len())[j] == s[head.len() - 1]);
            lemma_ends_only_with(key, c, j);
        }
    }
}

/// A key whose first character differs from the character of `head` at the
/// place where the key would have to start is no ending of `head`.
pub proof fn lemma_not_an_ending(head: Seq<char>, key: Seq<char>)
    requires
        key.len() > 0,
        key.len() > head.len() || head[head.len() - key.len()] != key[0],
    ensures
        !ends_with(head, key),
{
    if key.len() <= head.len() {
        let at = head.len() - key.len();
        if occurs_at(head, key, at) {
            assert(head.subrange(at, at + key.len())[0] == head[at]);
        }
    }
}

/// The lines after the first part of a text are the lines of the rest.
pub proof fn lemma_lines_from_suffix(a: Seq<char>, b: Seq<char>, i: int)
    requires
        0 <= i,
    ensures
        lines_from(a + b, a.len() + i) == lines_from(b, i),
    decreases b.len() - i,
{
    if i < b.len() {
        let s = a + b;
        lemma_first_match_suffix(a, b, newline(), i);
        lemma_first_match_bounds(b, newline(), i);
        let end = first_match(b, newline(), i);
        assert(s.subrange(a.len() + i, a.len() + end) =~= b.subrange(i, end));
        assert(s.subrange(a.len() + i, s.len() as int) =~= b.subrange(i, b.len() as int));
        if end < b.len() {
            lemma_lines_from_suffix(a, b, end + 1);
        }
    }
}

/// After a text that ends its last line, the lines of what follows are
/// simply added.
pub proof fn lemma_lines_from_prefix(a: Seq<char>, b: Seq<char>, i: int)
    requires
        a.len() == 0 || a.last() == '\n',
        0 <= i <= a.len(),
    ensures
        lines_from(a + b, i) == lines_from(a, i) + lines(b),
    decreases a.len() - i,
{
    let s = a + b;
    if i == a.len() {
        lemma_lines_from_suffix(a, b, 0);
        assert(lines_from(a, i) + lines(b) =~= lines(b));
    } else {
        lemma_first_match_bounds(a, newline(), i);
        let end = first_match(a, newline(), i);
        assert(end < a.len()) by {
            if end >= a.len() {
                let at = a.len() - 1;
                assert(a.subrange(at, at + 1) =~= newline());
                assert(occurs_at(a, newline(), at));
            }
        }
        lemma_first_match_prefix(a, b, newline(), i);
        assert(s.subrange(i, end) =~= a.subrange(i, end));
        lemma_lines_from_prefix(a, b, end + 1);
        assert(lines_from(s, i) =~= lines_from(a, i) + lines(b));
    }
}

/// One more line at the end of a text that ends its last line is one more
/// line read.
pub proof fn lemma_lines_push(a: Seq<char>, v: Seq<char>)
    requires
        a.len() == 0 || a.last() == '\n',
        free_of(v, '\n'),
    ensures
        lines(a + v + newline()) == lines(a).push(without_cr(v)),
{
    let tail = v + newline();
    lemma_lines_from_prefix(a, tail, 0);
    assert(a + v + newline() =~= a + tail);
    lemma_first_match_bounds(tail, newline(), 0);
    assert(tail.subrange(v.len() as int, v.len() as int + 1) =~= newline());
    assert(occurs_at(tail, newline(), v.len() as int));
    let end = first_match(tail, newline(), 0);
    assert(end == v.len()) by {
        if end < v.len() {
            assert(tail.subrange(end, end + 1)[0] == tail[end]);
            assert(newline()[0] == '\n');
        }
    }
    assert(tail.subrange(0, end) =~= v);
    assert(lines_from(tail, end + 1) =~= Seq::<Seq<char>>::empty());
    assert(lines(tail) =~= seq![without_cr(v)]);
}

} // verus!
