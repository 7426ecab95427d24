//! Substring search over character sequences, with first- and last-occurrence
//! functions and the lemmas that pin their results down.

use vstd::prelude::*;
use vstd::string::StrSliceExecFns;

verus! {

/// The characters of `s`, one element each.
pub fn chars_vec(s: &str) -> (r: Vec<char>)
    ensures
        r@ == s@,
{
    let n = s.unicode_len();
    let mut r: Vec<char> = Vec::new();
    let mut i: usize = 0;
    while i < n
        invariant
            i <= n,
            n == s@.len(),
            r@ == s@.subrange(0, i as int),
        decreases n - i,
    {
        let c = s.get_char(i);
        r.push(c);
        i = i + 1;
        assert(r@ =~= s@.subrange(0, i as int));
    }
    assert(r@ =~= s@);
    r
}

/// True when `pat` occurs in `s` starting at position `i`.
pub open spec fn match_at(s: Seq<char>, pat: Seq<char>, i: int) -> bool {
    &&& 0 <= i
    &&& i + pat.len() <= s.len()
    &&& forall|k: int| 0 <= k < pat.len() ==> s[i + k] == pat[k]
}

/// True when `pat` occurs somewhere in `s`.
pub open spec fn contains_pat(s: Seq<char>, pat: Seq<char>) -> bool {
    exists|i: int| match_at(s, pat, i)
}

/// The last position at or below `i` where `pat` occurs in `s`, if any.
pub open spec fn find_last_from(s: Seq<char>, pat: Seq<char>, i: int) -> Option<int>
    decreases i + 1,
{
    if i < 0 {
        None
    } else if match_at(s, pat, i) {
        Some(i)
    } else {
        find_last_from(s, pat, i - 1)
    }
}

/// The last position where `pat` occurs in `s`, if any.
pub open spec fn spec_find_last(s: Seq<char>, pat: Seq<char>) -> Option<int> {
    find_last_from(s, pat, s.len() - pat.len())
}

/// The first position at or above `i` where `pat` occurs in `s`, if any.
pub open spec fn spec_find_first_from(s: Seq<char>, pat: Seq<char>, i: int) -> Option<int>
    decreases s.len() - i + 1,
{
    if i < 0 || i + pat.len() > s.len() {
        None
    } else if match_at(s, pat, i) {
        Some(i)
    } else {
        spec_find_first_from(s, pat, i + 1)
    }
}

/// The first position in `from..end` where the character `c` stands in `s`,
/// if any.
pub open spec fn spec_find_char_between(s: Seq<char>, c: char, i: int, end: int) -> Option<int>
    decreases end - i + 1,
{
    if i < 0 || i >= end || i >= s.len() {
        None
    } else if s[i] == c {
        Some(i)
    } else {
        spec_find_char_between(s, c, i + 1, end)
    }
}

/// What `find_last_from` returns: the match it names is real, nothing at or
/// below the bound comes later, and `None` means nothing matches at all.
pub proof fn lemma_find_last_from_props(s: Seq<char>, pat: Seq<char>, i: int)
    ensures
        match find_last_from(s, pat, i) {
            Some(j) => j <= i && match_at(s, pat, j) && (forall|k: int|
                j < k <= i ==> !match_at(s, pat, k)),
            None => forall|k: int| k <= i ==> !match_at(s, pat, k),
        },
    decreases i + 1,
{
    if i < 0 {
    } else if match_at(s, pat, i) {
    } else {
        lemma_find_last_from_props(s, pat, i - 1);
    }
}

/// What `spec_find_last` returns: the last occurrence of `pat` in `s`, and
/// `None` exactly when `s` does not contain `pat`.
pub proof fn lemma_find_last_props(s: Seq<char>, pat: Seq<char>)
    ensures
        match spec_find_last(s, pat) {
            Some(j) => match_at(s, pat, j) && (forall|k: int| k > j ==> !match_at(s, pat, k)),
            None => !contains_pat(s, pat),
        },
{
    lemma_find_last_from_props(s, pat, s.len() - pat.len());
    assert(forall|k: int| k > s.len() - pat.len() ==> !match_at(s, pat, k));
}

/// A position that matches with nothing matching after it is exactly what
/// `spec_find_last` returns.
pub proof fn lemma_find_last_unique(s: Seq<char>, pat: Seq<char>, j: int)
    requires
        match_at(s, pat, j),
        forall|k: int| k > j ==> !match_at(s, pat, k),
    ensures
        spec_find_last(s, pat) == Some(j),
{
    lemma_find_last_props(s, pat);
}

/// What `spec_find_first_from` returns: the match it names is real and
/// earliest, and `None` means nothing matches at or after `i`.
pub proof fn lemma_find_first_from_props(s: Seq<char>, pat: Seq<char>, i: int)
    requires
        i >= 0,
    ensures
        match spec_find_first_from(s, pat, i) {
            Some(j) => i <= j && match_at(s, pat, j) && (forall|k: int|
                i <= k < j ==> !match_at(s, pat, k)),
            None => forall|k: int| k >= i ==> !match_at(s, pat, k),
        },
    decreases s.len() - i + 1,
{
    if i + pat.len() > s.len() {
    } else if match_at(s, pat, i) {
    } else {
        lemma_find_first_from_props(s, pat, i + 1);
    }
}

/// A position at or after `from` that matches, with nothing matching between
/// `from` and it, is exactly what `spec_find_first_from` returns.
pub proof fn lemma_find_first_unique(s: Seq<char>, pat: Seq<char>, from: int, j: int)
    requires
        0 <= from <= j,
        match_at(s, pat, j),
        forall|k: int| from <= k < j ==> !match_at(s, pat, k),
    ensures
        spec_find_first_from(s, pat, from) == Some(j),
{
    lemma_find_first_from_props(s, pat, from);
}

/// What `spec_find_char_between` returns: the position it names holds `c`
/// and is earliest in the range, and `None` means `c` is absent from it.
pub proof fn lemma_find_char_between_props(s: Seq<char>, c: char, i: int, end: int)
    requires
        i >= 0,
        end <= s.len(),
    ensures
        match spec_find_char_between(s, c, i, end) {
            Some(j) => i <= j < end && s[j] == c && (forall|k: int| i <= k < j ==> s[k] != c),
            None => forall|k: int| i <= k < end ==> s[k] != c,
        },
    decreases end - i + 1,
{
    if i >= end || i >= s.len() {
    } else if s[i] == c {
    } else {
        lemma_find_char_between_props(s, c, i + 1, end);
    }
}

/// A position in the range holding `c`, with no `c` before it in the range,
/// is exactly what `spec_find_char_between` returns.
pub proof fn lemma_find_char_between_unique(s: Seq<char>, c: char, from: int, end: int, j: int)
    requires
        0 <= from <= j < end <= s.len(),
        s[j] == c,
        forall|k: int| from <= k < j ==> s[k] != c,
    ensures
        spec_find_char_between(s, c, from, end) == Some(j),
{
    lemma_find_char_between_props(s, c, from, end);
}

/// Compares `pat` against `s` at position `i`.
fn is_match(s: &Vec<char>, pat: &Vec<char>, i: usize) -> (b: bool)
    requires
        i + pat@.len() <= s@.len(),
    ensures
        b == match_at(s@, pat@, i as int),
{
    let n = s.len();
    let mut k: usize = 0;
    while k < pat.len()
        invariant
            i + pat@.len() <= s@.len(),
            s@.len() == n,
            k <= pat@.len(),
            forall|m: int| 0 <= m < k ==> s@[i + m] == pat@[m],
        decreases pat@.len() - k,
    {
        if s[i + k] != pat[k] {
            assert(!match_at(s@, pat@, i as int));
            return false;
        }
        k += 1;
    }
    true
}

/// Finds the last occurrence of `pat` in `s`.
pub fn find_last(s: &Vec<char>, pat: &Vec<char>) -> (r: Option<usize>)
    ensures
        match r {
            Some(i) => spec_find_last(s@, pat@) == Some(i as int),
            None => spec_find_last(s@, pat@) is None,
        },
{
    if pat.len() > s.len() {
        return None;
    }
    let mut i: usize = s.len() - pat.len();
    loop
        invariant
            pat@.len() <= s@.len(),
            i <= s@.len() - pat@.len(),
            spec_find_last(s@, pat@) == find_last_from(s@, pat@, i as int),
        decreases i,
    {
        if is_match(s, pat, i) {
            return Some(i);
        }
        if i == 0 {
            assert(find_last_from(s@, pat@, -1) is None);
            return None;
        }
        i = i - 1;
    }
}

/// Finds the first occurrence of `pat` in `s` at or after `from`.
pub fn find_first_from(s: &Vec<char>, pat: &Vec<char>, from: usize) -> (r: Option<usize>)
    ensures
        match r {
            Some(i) => spec_find_first_from(s@, pat@, from as int) == Some(i as int),
            None => spec_find_first_from(s@, pat@, from as int) is None,
        },
{
    if pat.len() > s.len() {
        return None;
    }
    let mut i: usize = from;
    while i <= s.len() - pat.len()
        invariant
            pat@.len() <= s@.len(),
            from <= i,
            spec_find_first_from(s@, pat@, from as int) == spec_find_first_from(
                s@,
                pat@,
                i as int,
            ),
        decreases s@.len() - i,
    {
        if is_match(s, pat, i) {
            return Some(i);
        }
        i = i + 1;
    }
    None
}

/// Finds the first position in `from..end` where the character `c` stands.
pub fn find_char_between(s: &Vec<char>, c: char, from: usize, end: usize) -> (r: Option<usize>)
    requires
        end <= s@.len(),
    ensures
        match r {
            Some(i) => spec_find_char_between(s@, c, from as int, end as int) == Some(i as int),
            None => spec_find_char_between(s@, c, from as int, end as int) is None,
        },
{
    let mut i: usize = from;
    while i < end
        invariant
            end <= s@.len(),
            from <= i,
            spec_find_char_between(s@, c, from as int, end as int) == spec_find_char_between(
                s@,
                c,
                i as int,
                end as int,
            ),
        decreases end - i,
    {
        if s[i] == c {
            return Some(i);
        }
        i = i + 1;
    }
    None
}

} // verus!
