//! Character-level helpers over `&str` and `String`: searching for a
//! delimiter, trimming a repeated character, equality, and appending.

use vstd::prelude::*;

verus! {

/// First index at or after `from` that holds `c`; the length when none does.
pub open spec fn find_from(s: Seq<char>, from: int, c: char) -> int
    decreases s.len() - from,
{
    if from >= s.len() {
        s.len() as int
    } else if s[from] == c {
        from
    } else {
        find_from(s, from + 1, c)
    }
}

pub proof fn lemma_find_from(s: Seq<char>, from: int, c: char)
    requires
        0 <= from <= s.len(),
    ensures
        from <= find_from(s, from, c) <= s.len(),
        find_from(s, from, c) < s.len() ==> s[find_from(s, from, c)] == c,
        forall|k: int| from <= k < find_from(s, from, c) ==> s[k] != c,
    decreases s.len() - from,
{
    if from < s.len() && s[from] != c {
        lemma_find_from(s, from + 1, c);
    }
}

/// First index at or after `from` that does not hold `c`; the length when all do.
pub open spec fn skip_from(s: Seq<char>, from: int, c: char) -> int
    decreases s.len() - from,
{
    if from >= s.len() {
        s.len() as int
    } else if s[from] != c {
        from
    } else {
        skip_from(s, from + 1, c)
    }
}

/// Last index at or before `from` that holds `c`; `-1` when none does.
pub open spec fn rfind_from(s: Seq<char>, from: int, c: char) -> int
    decreases from + 1,
{
    if from < 0 {
        -1
    } else if from >= s.len() {
        rfind_from(s, s.len() - 1, c)
    } else if s[from] == c {
        from
    } else {
        rfind_from(s, from - 1, c)
    }
}

/// Last index at or before `from` that does not hold `c`; `-1` when all do.
pub open spec fn rskip_from(s: Seq<char>, from: int, c: char) -> int
    decreases from + 1,
{
    if from < 0 {
        -1
    } else if from >= s.len() {
        rskip_from(s, s.len() - 1, c)
    } else if s[from] != c {
        from
    } else {
        rskip_from(s, from - 1, c)
    }
}

pub proof fn lemma_find_from_at(s: Seq<char>, from: int, k: int, c: char)
    requires
        0 <= from <= k < s.len(),
        s[k] == c,
        forall|j: int| from <= j < k ==> s[j] != c,
    ensures
        find_from(s, from, c) == k,
    decreases k - from,
{
    if from < k {
        lemma_find_from_at(s, from + 1, k, c);
    }
}

pub proof fn lemma_find_from_all(s: Seq<char>, from: int, c: char)
    requires
        0 <= from <= s.len(),
        forall|j: int| from <= j < s.len() ==> s[j] != c,
    ensures
        find_from(s, from, c) == s.len(),
    decreases s.len() - from,
{
    if from < s.len() {
        lemma_find_from_all(s, from + 1, c);
    }
}

pub proof fn lemma_rfind_from_found(s: Seq<char>, k: int, from: int, c: char)
    requires
        0 <= k <= from < s.len(),
        s[k] == c,
        forall|j: int| k < j <= from ==> s[j] != c,
    ensures
        rfind_from(s, from, c) == k,
    decreases from - k,
{
    if from > k {
        lemma_rfind_from_found(s, k, from - 1, c);
    }
}

pub proof fn lemma_rfind_from_none(s: Seq<char>, from: int, c: char)
    requires
        from < s.len(),
        forall|j: int| 0 <= j <= from ==> s[j] != c,
    ensures
        rfind_from(s, from, c) == -1,
    decreases from + 1,
{
    if from >= 0 {
        lemma_rfind_from_none(s, from - 1, c);
    }
}

pub proof fn lemma_skip_from_stops(s: Seq<char>, from: int, i: int, c: char)
    requires
        0 <= from <= i <= s.len(),
        forall|j: int| from <= j < i ==> s[j] == c,
        i < s.len() ==> s[i] != c,
    ensures
        skip_from(s, from, c) == i,
    decreases i - from,
{
    if from < i {
        lemma_skip_from_stops(s, from + 1, i, c);
    }
}

pub proof fn lemma_rskip_from_stops(s: Seq<char>, from: int, i: int, c: char)
    requires
        -1 <= i <= from < s.len(),
        forall|j: int| i < j <= from ==> s[j] == c,
        i >= 0 ==> s[i] != c,
    ensures
        rskip_from(s, from, c) == i,
    decreases from - i,
{
    if from > i {
        lemma_rskip_from_stops(s, from - 1, i, c);
    }
}

/// Finds the first occurrence of `c` in `s` at or after `from`, returning the
/// length of `s` when there is none.
pub fn find_char_from(s: &str, from: usize, c: char) -> (r: usize)
    requires
        from <= s@.len(),
    ensures
        r == find_from(s@, from as int, c),
        from <= r <= s@.len(),
{
    let n = s.unicode_len();
    let mut i = from;
    while i < n
        invariant
            from <= i <= n,
            n == s@.len(),
            find_from(s@, from as int, c) == find_from(s@, i as int, c),
        decreases n - i,
    {
        if s.get_char(i) == c {
            proof {
                lemma_find_from(s@, from as int, c);
            }
            return i;
        }
        i = i + 1;
    }
    proof {
        lemma_find_from(s@, from as int, c);
    }
    i
}

/// Finds the last occurrence of `c` in `s`, returning `None` when there is none.
pub fn rfind_char(s: &str, c: char) -> (r: Option<usize>)
    ensures
        match r {
            Some(i) => i < s@.len() && rfind_from(s@, s@.len() - 1, c) == i,
            None => rfind_from(s@, s@.len() - 1, c) == -1,
        },
{
    let n = s.unicode_len();
    let mut i = n;
    while i > 0
        invariant
            0 <= i <= n,
            n == s@.len(),
            rfind_from(s@, n - 1, c) == rfind_from(s@, i - 1, c),
        decreases i,
    {
        i = i - 1;
        if s.get_char(i) == c {
            return Some(i);
        }
    }
    None
}

/// Drops every leading `c` from `s`.
pub fn trim_start_char<'a>(s: &'a str, c: char) -> (r: &'a str)
    ensures
        r@ == s@.subrange(skip_from(s@, 0, c), s@.len() as int),
{
    let n = s.unicode_len();
    let mut i: usize = 0;
    while i < n
        invariant
            0 <= i <= n,
            n == s@.len(),
            skip_from(s@, 0, c) == skip_from(s@, i as int, c),
        decreases n - i,
    {
        if s.get_char(i) != c {
            return s.substring_char(i, n);
        }
        i = i + 1;
    }
    s.substring_char(i, n)
}

/// Drops every trailing `c` from `s`.
pub fn trim_end_char<'a>(s: &'a str, c: char) -> (r: &'a str)
    ensures
        r@ == s@.subrange(0, rskip_from(s@, s@.len() - 1, c) + 1),
{
    let n = s.unicode_len();
    let mut i = n;
    while i > 0
        invariant
            0 <= i <= n,
            n == s@.len(),
            rskip_from(s@, n - 1, c) == rskip_from(s@, i - 1, c),
        decreases i,
    {
        if s.get_char(i - 1) != c {
            return s.substring_char(0, i);
        }
        i = i - 1;
    }
    s.substring_char(0, i)
}

/// Whether two string slices hold the same characters.
pub fn str_eq(a: &str, b: &str) -> (r: bool)
    ensures
        r == (a@ == b@),
{
    let sa = String::from_str(a);
    let sb = String::from_str(b);
    sa == sb
}

/// Relies on `String::push`: appends the given character at the end.
#[verifier::external_body]
pub fn push_char(s: &mut String, c: char)
    ensures
        final(s)@ == old(s)@ + seq![c],
{
    s.push(c);
}

} // verus!
