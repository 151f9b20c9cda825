//! Character-level helpers on paths and file names.

use vstd::prelude::*;

verus! {

/// The index of the last `'.'` in `s`, or -1 when there is none.
pub open spec fn last_dot(s: Seq<char>) -> int
    decreases s.len(),
{
    if s.len() == 0 {
        -1
    } else if s.last() == '.' {
        s.len() - 1
    } else {
        last_dot(s.drop_last())
    }
}

/// The extension of a file name: what follows its last dot, where that dot is
/// not the name's first character. `".."` has none.
pub open spec fn extension_of(name: Seq<char>) -> Option<Seq<char>> {
    let i = last_dot(name);
    if i > 0 && name != seq!['.', '.'] {
        Some(name.subrange(i + 1, name.len() as int))
    } else {
        None
    }
}

/// `c` equals the lower-case ASCII letter or symbol `l`, ignoring ASCII case.
pub open spec fn char_matches_lower(c: char, l: char) -> bool {
    c == l || ('a' <= l && l <= 'z' && c as u32 + 32 == l as u32)
}

/// `s` spells `word` (written in lower case), ignoring ASCII case.
pub open spec fn matches_ignoring_case(s: Seq<char>, word: Seq<char>) -> bool {
    s.len() == word.len() && forall|i: int| 0 <= i < s.len() ==> char_matches_lower(#[trigger] s[i], word[i])
}

/// `s` ends with `suffix`, exactly.
pub open spec fn has_suffix(s: Seq<char>, suffix: Seq<char>) -> bool {
    suffix.len() <= s.len() && s.subrange(s.len() - suffix.len(), s.len() as int) == suffix
}

fn char_matches(c: char, l: char) -> (r: bool)
    ensures
        r == char_matches_lower(c, l),
{
    c == l || ('a' <= l && l <= 'z' && (c as u32) + 32 == (l as u32))
}

/// Finds the last dot of `s`.
pub fn find_last_dot(s: &str) -> (r: Option<usize>)
    ensures
        match r {
            Some(i) => i as int == last_dot(s@) && i < s@.len(),
            None => last_dot(s@) == -1,
        },
{
    let n = s.unicode_len();
    let mut i: usize = n;
    assert(s@.subrange(0, n as int) =~= s@);
    while i > 0
        invariant
            i <= n,
            n == s@.len(),
            last_dot(s@) == last_dot(s@.subrange(0, i as int)),
        decreases i,
    {
        let c = s.get_char(i - 1);
        assert(s@.subrange(0, i as int).drop_last() == s@.subrange(0, i - 1));
        if c == '.' {
            return Some(i - 1);
        }
        i = i - 1;
    }
    None
}

/// Whether the characters of `s` from `from` on spell `word`, ignoring ASCII case.
pub fn tail_matches_ignoring_case(s: &str, from: usize, word: &str) -> (r: bool)
    requires
        from <= s@.len(),
    ensures
        r == matches_ignoring_case(s@.subrange(from as int, s@.len() as int), word@),
{
    let n = s.unicode_len();
    let m = word.unicode_len();
    if n - from != m {
        return false;
    }
    let ghost tail = s@.subrange(from as int, s@.len() as int);
    let mut k: usize = 0;
    while k < m
        invariant
            k <= m,
            m == word@.len(),
            n == s@.len(),
            n - from == m,
            tail == s@.subrange(from as int, s@.len() as int),
            forall|i: int| 0 <= i < k ==> char_matches_lower(#[trigger] tail[i], word@[i]),
        decreases m - k,
    {
        if !char_matches(s.get_char(from + k), word.get_char(k)) {
            assert(tail[k as int] == s@[from + k]);
            return false;
        }
        k = k + 1;
    }
    true
}

/// Whether `s` ends with `suffix`, exactly.
pub fn ends_with(s: &str, suffix: &str) -> (r: bool)
    ensures
        r == has_suffix(s@, suffix@),
{
    let n = s.unicode_len();
    let m = suffix.unicode_len();
    if m > n {
        return false;
    }
    let start = n - m;
    let ghost tail = s@.subrange(start as int, n as int);
    let mut k: usize = 0;
    while k < m
        invariant
            k <= m,
            m == suffix@.len(),
            n == s@.len(),
            start == n - m,
            tail == s@.subrange(start as int, n as int),
            forall|i: int| 0 <= i < k ==> #[trigger] tail[i] == suffix@[i],
        decreases m - k,
    {
        if s.get_char(start + k) != suffix.get_char(k) {
            return false;
        }
        k = k + 1;
    }
    assert(tail =~= suffix@);
    true
}

/// Whether `a` and `b` hold the same characters.
pub fn same_text(a: &str, b: &str) -> (r: bool)
    ensures
        r == (a@ == b@),
{
    let n = a.unicode_len();
    if n != b.unicode_len() {
        return false;
    }
    let mut k: usize = 0;
    while k < n
        invariant
            k <= n,
            n == a@.len(),
            n == b@.len(),
            forall|i: int| 0 <= i < k ==> #[trigger] a@[i] == b@[i],
        decreases n - k,
    {
        if a.get_char(k) != b.get_char(k) {
            return false;
        }
        k = k + 1;
    }
    assert(a@ =~= b@);
    true
}

} // verus!
