//! Character-level facts about request paths.

use vstd::prelude::*;

verus! {

/// `p` is a literal prefix of `s`.
pub open spec fn is_prefix_of(p: Seq<char>, s: Seq<char>) -> bool {
    p.len() <= s.len() && s.subrange(0, p.len() as int) == p
}

/// A character that ends a path segment.
pub open spec fn is_separator(c: char) -> bool {
    c == '/' || c == '\\'
}

/// The segment that starts at index `i` of `s` is exactly `..`.
pub open spec fn is_parent_segment_at(s: Seq<char>, i: int) -> bool {
    &&& 0 <= i
    &&& i + 2 <= s.len()
    &&& s[i] == '.'
    &&& s[i + 1] == '.'
    &&& (i == 0 || is_separator(s[i - 1]))
    &&& (i + 2 == s.len() || is_separator(s[i + 2]))
}

/// Some segment of `s` names the parent directory.
pub open spec fn has_parent_segment(s: Seq<char>) -> bool {
    exists|i: int| is_parent_segment_at(s, i)
}

/// How a finished segment moves the resolved position: `..` goes up one
/// directory, an empty segment or `.` stays, any other name goes down one.
pub open spec fn segment_step(seg: Seq<char>) -> int {
    if seg == seq!['.', '.'] {
        -1
    } else if seg.len() == 0 || seg == seq!['.'] {
        0
    } else {
        1
    }
}

/// Resolving `s` from the root, one character at a time: the depth below
/// the root after the finished segments, the segment still open, and
/// whether some finished segment went above the root.
pub open spec fn walk(s: Seq<char>) -> (int, Seq<char>, bool)
    decreases s.len(),
{
    if s.len() == 0 {
        (0, Seq::empty(), false)
    } else {
        let w = walk(s.drop_last());
        if is_separator(s.last()) {
            (w.0 + segment_step(w.1), Seq::empty(), w.2 || w.0 + segment_step(w.1) < 0)
        } else {
            (w.0, w.1.push(s.last()), w.2)
        }
    }
}

/// Resolving `s` against the root leaves the root at some point.
pub open spec fn escapes_root(s: Seq<char>) -> bool {
    let w = walk(s);
    w.2 || w.0 + segment_step(w.1) < 0
}

proof fn lemma_walk_without_parent_segment(s: Seq<char>, k: int)
    requires
        0 <= k <= s.len(),
        !has_parent_segment(s),
    ensures
        !walk(s.take(k)).2,
        walk(s.take(k)).0 >= 0,
        walk(s.take(k)).1.len() <= k,
        walk(s.take(k)).1 == s.subrange(k - walk(s.take(k)).1.len(), k),
        k - walk(s.take(k)).1.len() == 0 || is_separator(s[k - walk(s.take(k)).1.len() - 1]),
    decreases k,
{
    if k > 0 {
        lemma_walk_without_parent_segment(s, k - 1);
        let t = s.take(k);
        assert(t.drop_last() =~= s.take(k - 1));
        let w = walk(s.take(k - 1));
        let n = w.1.len() as int;
        if is_separator(s[k - 1]) {
            if w.1 == seq!['.', '.'] {
                assert(w.1[0] == s[k - 3]);
                assert(w.1[1] == s[k - 2]);
                assert(is_parent_segment_at(s, k - 3));
            }
            assert(s.subrange(k, k) =~= Seq::<char>::empty());
        } else {
            assert(s.subrange(k - n - 1, k) =~= s.subrange(k - n - 1, k - 1).push(s[k - 1]));
        }
    } else {
        assert(s.take(0) =~= Seq::<char>::empty());
        assert(s.subrange(0, 0) =~= Seq::<char>::empty());
    }
}

/// A path can only leave the root through a `..` segment.
pub proof fn lemma_escape_needs_parent_segment(s: Seq<char>)
    requires
        escapes_root(s),
    ensures
        has_parent_segment(s),
{
    if !has_parent_segment(s) {
        lemma_walk_without_parent_segment(s, s.len() as int);
        assert(s.take(s.len() as int) =~= s);
        let w = walk(s);
        if w.1 == seq!['.', '.'] {
            let k = s.len() as int;
            assert(w.1[0] == s[k - 2]);
            assert(w.1[1] == s[k - 1]);
            assert(is_parent_segment_at(s, k - 2));
        }
    }
}

/// Tests whether `p` is a literal prefix of `s`.
pub fn starts_with(s: &str, p: &str) -> (r: bool)
    ensures
        r == is_prefix_of(p@, s@),
{
    let n = s.unicode_len();
    let m = p.unicode_len();
    if m > n {
        return false;
    }
    let mut i: usize = 0;
    while i < m
        invariant
            m == p@.len(),
            n == s@.len(),
            m <= n,
            i <= m,
            forall|k: int| 0 <= k < i ==> s@[k] == p@[k],
        decreases m - i,
    {
        if s.get_char(i) != p.get_char(i) {
            assert(s@.subrange(0, m as int)[i as int] != p@[i as int]);
            return false;
        }
        i = i + 1;
    }
    assert(s@.subrange(0, m as int) =~= p@);
    true
}

/// Tests whether some segment of `s` is `..`, with `/` or `\\` as the
/// separator between segments.
pub fn contains_parent_segment(s: &str) -> (r: bool)
    ensures
        r == has_parent_segment(s@),
{
    let n = s.unicode_len();
    let mut i: usize = 0;
    while i < n && i + 1 < n
        invariant
            n == s@.len(),
            i <= n,
            forall|k: int| 0 <= k < i ==> !is_parent_segment_at(s@, k),
        decreases n - i,
    {
        if s.get_char(i) == '.' && s.get_char(i + 1) == '.' {
            let opens = i == 0 || is_separator_char(s.get_char(i - 1));
            let closes = i + 2 == n || is_separator_char(s.get_char(i + 2));
            if opens && closes {
                assert(is_parent_segment_at(s@, i as int));
                return true;
            }
        }
        i = i + 1;
    }
    assert forall|k: int| !is_parent_segment_at(s@, k) by {
        if 0 <= k && k >= i {
            assert(k + 2 > n);
        }
    }
    false
}

fn is_separator_char(c: char) -> (r: bool)
    ensures
        r == is_separator(c),
{
    c == '/' || c == '\\'
}

} // verus!
