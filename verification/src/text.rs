//! Verified text primitives shared by the content variant and the image
//! stager: marker search at line starts, line-end search, prefix tests and
//! trimming of leading separators. All contracts are stated over `Seq<char>`
//! views.

use vstd::prelude::*;
use vstd::string::StrSliceExecFns;

verus! {

/// The sequence `p` occurs in `s` at position `i`.
pub open spec fn match_at(s: Seq<char>, p: Seq<char>, i: int) -> bool {
    0 <= i && i + p.len() <= s.len() && s.subrange(i, i + p.len() as int) == p
}

/// `p` is a prefix of `s`.
pub open spec fn is_prefix(p: Seq<char>, s: Seq<char>) -> bool {
    match_at(s, p, 0)
}

/// Position `i` begins a line of `s`.
pub open spec fn line_start(s: Seq<char>, i: int) -> bool {
    i == 0 || s[i - 1] == '\n'
}

/// The first position at or after `from` where a line of `s` begins with the
/// non-empty marker `p`; `None` when no line does, or when `p` is empty.
pub open spec fn find_at_line_start_from(s: Seq<char>, p: Seq<char>, from: nat) -> Option<int>
    decreases s.len() - from,
{
    if p.len() == 0 || from + p.len() > s.len() {
        None
    } else if line_start(s, from as int) && match_at(s, p, from as int) {
        Some(from as int)
    } else {
        find_at_line_start_from(s, p, from + 1)
    }
}

/// The first position in `s` where a line begins with the marker `p`.
pub open spec fn find_at_line_start(s: Seq<char>, p: Seq<char>) -> Option<int> {
    find_at_line_start_from(s, p, 0)
}

/// The position of the first newline of `s` at or after `i`, or the length of
/// `s` when the rest of the text is a single unterminated line.
pub open spec fn line_end_from(s: Seq<char>, i: nat) -> int
    decreases s.len() - i,
{
    if i >= s.len() {
        s.len() as int
    } else if s[i as int] == '\n' {
        i as int
    } else {
        line_end_from(s, i + 1)
    }
}

/// The position of the first character at or after `i` that is not `c`, or
/// the length of `s`.
pub open spec fn skip_leading_from(s: Seq<char>, c: char, i: nat) -> int
    decreases s.len() - i,
{
    if i >= s.len() {
        s.len() as int
    } else if s[i as int] != c {
        i as int
    } else {
        skip_leading_from(s, c, i + 1)
    }
}

/// `s` with every leading `c` removed.
pub open spec fn trim_leading(s: Seq<char>, c: char) -> Seq<char> {
    s.subrange(skip_leading_from(s, c, 0), s.len() as int)
}

/// A found marker position lies within the text, at a line start, and the
/// marker is non-empty.
pub proof fn lemma_find_props(s: Seq<char>, p: Seq<char>, from: nat)
    ensures
        match find_at_line_start_from(s, p, from) {
            Some(i) => from <= i && i + p.len() <= s.len() && line_start(s, i) && match_at(
                s,
                p,
                i,
            ) && p.len() >= 1,
            None => true,
        },
    decreases s.len() - from,
{
    if p.len() == 0 || from + p.len() > s.len() {
    } else if line_start(s, from as int) && match_at(s, p, from as int) {
    } else {
        lemma_find_props(s, p, from + 1);
    }
}

/// A line's end is the position of a newline unless the line runs to the
/// end of the text, and no newline stands before it.
pub proof fn lemma_line_end_props(s: Seq<char>, i: nat)
    requires
        i <= s.len(),
    ensures
        i <= line_end_from(s, i) <= s.len(),
        line_end_from(s, i) < s.len() ==> s[line_end_from(s, i)] == '\n',
        forall|k: int| i <= k < line_end_from(s, i) ==> s[k] != '\n',
    decreases s.len() - i,
{
    if i < s.len() && s[i as int] != '\n' {
        lemma_line_end_props(s, i + 1);
    }
}

/// The end of the line beginning at `i` is the first newline at or after
/// `i`.
pub proof fn lemma_line_end_value(s: Seq<char>, i: nat, j: nat)
    requires
        i <= j < s.len(),
        s[j as int] == '\n',
        forall|k: int| i <= k < j ==> s[k] != '\n',
    ensures
        line_end_from(s, i) == j,
    decreases j - i,
{
    if i < j {
        lemma_line_end_value(s, i + 1, j);
    }
}

/// A line that no newline ends runs to the end of the text.
pub proof fn lemma_line_end_none(s: Seq<char>, i: nat)
    requires
        i <= s.len(),
        forall|k: int| i <= k < s.len() ==> s[k] != '\n',
    ensures
        line_end_from(s, i) == s.len(),
    decreases s.len() - i,
{
    if i < s.len() {
        lemma_line_end_none(s, i + 1);
    }
}

/// A marker found in `s` is found at the same place in any text that agrees
/// with `s` up to the end of the found marker.
pub proof fn lemma_find_agrees(s: Seq<char>, t: Seq<char>, m: Seq<char>, from: nat, i: nat)
    requires
        find_at_line_start_from(s, m, from) == Some(i as int),
        from <= i,
        i + m.len() <= t.len(),
        forall|k: int| 0 <= k < i + m.len() ==> t[k] == s[k],
    ensures
        find_at_line_start_from(t, m, from) == Some(i as int),
    decreases i - from,
{
    lemma_find_props(s, m, from);
    if from == i {
        assert(t.subrange(i as int, i + m.len() as int) =~= s.subrange(
            i as int,
            i + m.len() as int,
        ));
        assert(line_start(t, i as int));
        assert(find_at_line_start_from(t, m, from) == Some(i as int));
    } else {
        assert(t.subrange(from as int, from + m.len() as int) =~= s.subrange(
            from as int,
            from + m.len() as int,
        ));
        assert(line_start(t, from as int) == line_start(s, from as int));
        lemma_find_agrees(s, t, m, from + 1, i);
        assert(find_at_line_start_from(t, m, from) == find_at_line_start_from(t, m, from + 1));
    }
}

/// The first non-`c` position lies between `i` and the end of the text.
pub proof fn lemma_skip_bounds(s: Seq<char>, c: char, i: nat)
    requires
        i <= s.len(),
    ensures
        i <= skip_leading_from(s, c, i) <= s.len(),
    decreases s.len() - i,
{
    if i < s.len() && s[i as int] == c {
        lemma_skip_bounds(s, c, i + 1);
    }
}

/// Whether the marker `p` occurs in `s` at position `i`.
pub fn marker_at(s: &str, p: &str, i: usize) -> (r: bool)
    requires
        i <= s@.len(),
    ensures
        r == match_at(s@, p@, i as int),
{
    let n: usize = s.unicode_len();
    let m: usize = p.unicode_len();
    if m > n - i {
        return false;
    }
    let mut j: usize = 0;
    while j < m
        invariant
            n == s@.len(),
            m == p@.len(),
            i + m <= n,
            j <= m,
            forall|k: int| 0 <= k < j ==> s@[i + k] == p@[k],
        decreases m - j,
    {
        if s.get_char(i + j) != p.get_char(j) {
            proof {
                assert(s@.subrange(i as int, i + m as int)[j as int] == s@[i + j]);
            }
            return false;
        }
        j += 1;
    }
    proof {
        assert(s@.subrange(i as int, i + m as int) =~= p@);
    }
    true
}

/// The first position in `s` where a line begins with the marker `p`.
pub fn find_marker(s: &str, p: &str) -> (r: Option<usize>)
    ensures
        match r {
            Some(i) => find_at_line_start(s@, p@) == Some(i as int),
            None => find_at_line_start(s@, p@) is None,
        },
{
    let n: usize = s.unicode_len();
    let m: usize = p.unicode_len();
    if m == 0 || m > n {
        return None;
    }
    let mut i: usize = 0;
    while i <= n - m
        invariant
            n == s@.len(),
            m == p@.len(),
            1 <= m <= n,
            i <= n - m + 1,
            find_at_line_start_from(s@, p@, 0) == find_at_line_start_from(s@, p@, i as nat),
        decreases n - m + 1 - i,
    {
        let at_line_start: bool = if i == 0 {
            true
        } else {
            s.get_char(i - 1) == '\n'
        };
        if at_line_start && marker_at(s, p, i) {
            return Some(i);
        }
        proof {
            assert(find_at_line_start_from(s@, p@, i as nat) == find_at_line_start_from(
                s@,
                p@,
                (i + 1) as nat,
            ));
        }
        i += 1;
    }
    proof {
        assert(find_at_line_start_from(s@, p@, i as nat) is None);
    }
    None
}

/// The position of the first newline of `s` at or after `i`, or the length of
/// `s`.
pub fn line_end(s: &str, i: usize) -> (r: usize)
    requires
        i <= s@.len(),
    ensures
        r == line_end_from(s@, i as nat),
        i <= r <= s@.len(),
{
    let n: usize = s.unicode_len();
    let mut j: usize = i;
    while j < n
        invariant
            i <= j <= n,
            n == s@.len(),
            line_end_from(s@, i as nat) == line_end_from(s@, j as nat),
        decreases n - j,
    {
        if s.get_char(j) == '\n' {
            return j;
        }
        proof {
            assert(line_end_from(s@, j as nat) == line_end_from(s@, (j + 1) as nat));
        }
        j += 1;
    }
    n
}

/// `s` with every leading `c` removed.
pub fn trim_leading_char<'a>(s: &'a str, c: char) -> (r: &'a str)
    ensures
        r@ == trim_leading(s@, c),
{
    let n: usize = s.unicode_len();
    let mut i: usize = 0;
    while i < n && s.get_char(i) == c
        invariant
            i <= n,
            n == s@.len(),
            skip_leading_from(s@, c, 0) == skip_leading_from(s@, c, i as nat),
        decreases n - i,
    {
        proof {
            assert(skip_leading_from(s@, c, i as nat) == skip_leading_from(
                s@,
                c,
                (i + 1) as nat,
            ));
        }
        i += 1;
    }
    s.substring_char(i, n)
}

/// Whether two pieces of text hold the same characters.
pub fn text_eq(a: &str, b: &str) -> (r: bool)
    ensures
        r == (a@ == b@),
{
    let n: usize = a.unicode_len();
    let m: usize = b.unicode_len();
    if n != m {
        return false;
    }
    let mut i: usize = 0;
    while i < n
        invariant
            n == a@.len(),
            n == b@.len(),
            i <= n,
            forall|k: int| 0 <= k < i ==> a@[k] == b@[k],
        decreases n - i,
    {
        if a.get_char(i) != b.get_char(i) {
            return false;
        }
        i += 1;
    }
    proof {
        assert(a@ =~= b@);
    }
    true
}

} // verus!
