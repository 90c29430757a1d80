//! Searching and slicing character sequences: the vocabulary of the other modules' contracts.
use vstd::prelude::*;

verus! {

broadcast use vstd::string::group_string_axioms;

// ----------------------------------------------------------------------------
// Specification vocabulary over character sequences
// ----------------------------------------------------------------------------

/// `pat` occurs in `s` starting at position `i`.
pub open spec fn occurs_at(s: Seq<char>, pat: Seq<char>, i: int) -> bool {
    0 <= i && i + pat.len() <= s.len() && s.subrange(i, i + pat.len()) == pat
}

/// Position of the first occurrence of `pat` in `s` at or after `from`; -1 when there is none.
pub open spec fn find_from(s: Seq<char>, pat: Seq<char>, from: int) -> int
    decreases s.len() + 1 - from,
{
    if from < 0 || from + pat.len() > s.len() {
        -1
    } else if occurs_at(s, pat, from) {
        from
    } else {
        find_from(s, pat, from + 1)
    }
}

/// Position of the first occurrence of `pat` in `s`; -1 when there is none.
pub open spec fn find(s: Seq<char>, pat: Seq<char>) -> int {
    find_from(s, pat, 0)
}

/// `pat` occurs somewhere in `s`.
pub open spec fn contains(s: Seq<char>, pat: Seq<char>) -> bool {
    exists|i: int| occurs_at(s, pat, i)
}

/// `s` begins with `p`.
pub open spec fn starts_with(s: Seq<char>, p: Seq<char>) -> bool {
    p.len() <= s.len() && s.take(p.len() as int) == p
}

/// `s` ends with `p`.
pub open spec fn ends_with(s: Seq<char>, p: Seq<char>) -> bool {
    p.len() <= s.len() && s.skip(s.len() - p.len()) == p
}

/// Position of the last `c` in `s`; -1 when `s` holds no `c`.
pub open spec fn last_index_of(s: Seq<char>, c: char) -> int
    decreases s.len(),
{
    if s.len() == 0 {
        -1
    } else if s.last() == c {
        s.len() - 1
    } else {
        last_index_of(s.drop_last(), c)
    }
}

/// What follows the last `c` in `s` (all of `s` when it holds no `c`): the last
/// item of `s.split(c)`.
pub open spec fn after_last(s: Seq<char>, c: char) -> Seq<char> {
    s.skip(last_index_of(s, c) + 1)
}

/// What precedes the last `c` in `s`, that `c` included; `None` when `s` holds no `c`.
pub open spec fn through_last(s: Seq<char>, c: char) -> Option<Seq<char>> {
    if last_index_of(s, c) < 0 {
        None
    } else {
        Some(s.take(last_index_of(s, c) + 1))
    }
}

// ----------------------------------------------------------------------------
// Lemmas
// ----------------------------------------------------------------------------

/// What `find_from` returns is an occurrence at or after `from`, and no
/// occurrence lies between `from` and it.
pub proof fn lemma_find_from(s: Seq<char>, pat: Seq<char>, from: int)
    requires
        0 <= from,
    ensures
        find_from(s, pat, from) >= 0 ==> {
            &&& from <= find_from(s, pat, from)
            &&& occurs_at(s, pat, find_from(s, pat, from))
        },
        forall|j: int|
            from <= j && (find_from(s, pat, from) < 0 || j < find_from(s, pat, from))
                ==> !occurs_at(s, pat, j),
    decreases s.len() + 1 - from,
{
    if from + pat.len() > s.len() {
    } else if occurs_at(s, pat, from) {
    } else {
        assert(pat.len() == 0 ==> s.subrange(from, from) =~= pat);
        lemma_find_from(s, pat, from + 1);
        assert forall|j: int|
            from <= j && (find_from(s, pat, from) < 0 || j < find_from(s, pat, from)) implies
            !occurs_at(s, pat, j) by {
            if j == from {
            } else {
            }
        }
    }
}

/// Searching the tail `s.skip(k)` is searching `s` from `k` on, shifted by `k`.
pub proof fn lemma_find_skip(s: Seq<char>, pat: Seq<char>, k: int, j: int)
    requires
        0 <= k <= s.len(),
        0 <= j,
    ensures
        find_from(s.skip(k), pat, j) == (if find_from(s, pat, k + j) < 0 {
            -1
        } else {
            find_from(s, pat, k + j) - k
        }),
    decreases s.len() + 1 - k - j,
{
    let t = s.skip(k);
    if j + pat.len() > t.len() {
    } else {
        assert(t.subrange(j, j + pat.len()) =~= s.subrange(k + j, k + j + pat.len()));
        if occurs_at(t, pat, j) {
        } else {
            assert(pat.len() == 0 ==> t.subrange(j, j) =~= pat);
            lemma_find_skip(s, pat, k, j + 1);
        }
    }
}

/// `last_index_of` points at a `c`, and no `c` follows it.
pub proof fn lemma_last_index_of(s: Seq<char>, c: char)
    ensures
        -1 <= last_index_of(s, c) < s.len(),
        last_index_of(s, c) >= 0 ==> s[last_index_of(s, c)] == c,
        forall|j: int| last_index_of(s, c) < j < s.len() ==> s[j] != c,
    decreases s.len(),
{
    if s.len() == 0 {
    } else if s.last() == c {
    } else {
        lemma_last_index_of(s.drop_last(), c);
        assert forall|j: int| last_index_of(s, c) < j < s.len() implies s[j] != c by {
            if j < s.len() - 1 {
                assert(s.drop_last()[j] == s[j]);
            }
        }
    }
}

// ----------------------------------------------------------------------------
// Executable helpers
// ----------------------------------------------------------------------------

/// The characters of `s`, one per element.
pub fn chars_of(s: &str) -> (v: Vec<char>)
    ensures
        v@ == s@,
{
    let mut v: Vec<char> = Vec::new();
    for c in it: s.chars()
        invariant
            it.seq() == s@,
            v@ == it.seq().take(it.index()),
    {
        v.push(c);
    }
    v
}

/// Whether `pat` occurs in `s` at position `i`.
pub fn matches_at(s: &[char], pat: &[char], i: usize) -> (res: bool)
    ensures
        res == occurs_at(s@, pat@, i as int),
{
    if i > s.len() || pat.len() > s.len() - i {
        return false;
    }
    let mut j: usize = 0;
    while j < pat.len()
        invariant
            s@.len() == s.len(),
            i + pat@.len() <= s@.len(),
            j <= pat@.len(),
            forall|k: int| 0 <= k < j ==> s@[i + k] == pat@[k],
        decreases pat@.len() - j,
    {
        if s[i + j] != pat[j] {
            assert(s@.subrange(i as int, i + pat@.len())[j as int] != pat@[j as int]);
            return false;
        }
        j = j + 1;
    }
    assert(s@.subrange(i as int, i + pat@.len()) =~= pat@);
    true
}

/// The first occurrence of `pat` in `s` at or after `from`.
pub fn find_from_exec(s: &[char], pat: &[char], from: usize) -> (res: Option<usize>)
    ensures
        match res {
            Some(k) => find_from(s@, pat@, from as int) == k,
            None => find_from(s@, pat@, from as int) == -1,
        },
{
    let mut i = from;
    while i <= s.len() && pat.len() <= s.len() - i
        invariant
            from <= i,
            find_from(s@, pat@, from as int) == find_from(s@, pat@, i as int),
        decreases s@.len() + 1 - i,
    {
        if matches_at(s, pat, i) {
            return Some(i);
        }
        proof {
            assert(pat@.len() == 0 ==> s@.subrange(i as int, i as int) =~= pat@);
        }
        i = i + 1;
    }
    None
}

/// Whether `pat` occurs anywhere in `s`.
pub fn contains_exec(s: &[char], pat: &[char]) -> (res: bool)
    ensures
        res == contains(s@, pat@),
{
    proof {
        lemma_find_from(s@, pat@, 0);
    }
    match find_from_exec(s, pat, 0) {
        Some(_) => true,
        None => {
            assert forall|i: int| !occurs_at(s@, pat@, i) by {
            }
            false
        },
    }
}

/// Whether `s` begins with `p`.
pub fn starts_with_exec(s: &[char], p: &[char]) -> (res: bool)
    ensures
        res == starts_with(s@, p@),
{
    let r = matches_at(s, p, 0);
    proof {
        if p@.len() <= s@.len() {
            assert(s@.subrange(0, p@.len() as int) =~= s@.take(p@.len() as int));
        }
    }
    r
}

/// Whether `s` ends with `p`.
pub fn ends_with_exec(s: &[char], p: &[char]) -> (res: bool)
    ensures
        res == ends_with(s@, p@),
{
    if p.len() > s.len() {
        return false;
    }
    let r = matches_at(s, p, s.len() - p.len());
    proof {
        assert(s@.subrange(s@.len() - p@.len(), s@.len() as int) =~= s@.skip(
            s@.len() - p@.len(),
        ));
    }
    r
}

/// The position of the last `c` in `s`.
pub fn last_index_of_exec(s: &[char], c: char) -> (res: Option<usize>)
    ensures
        match res {
            Some(k) => last_index_of(s@, c) == k,
            None => last_index_of(s@, c) == -1,
        },
{
    let mut i = s.len();
    assert(s@.take(i as int) =~= s@);
    while i > 0
        invariant
            i <= s@.len(),
            last_index_of(s@, c) == last_index_of(s@.take(i as int), c),
        decreases i,
    {
        assert(s@.take(i as int).drop_last() =~= s@.take(i - 1));
        if s[i - 1] == c {
            return Some(i - 1);
        }
        i = i - 1;
    }
    None
}

/// The characters `s[lo..hi]`.
pub fn copy_range(s: &[char], lo: usize, hi: usize) -> (v: Vec<char>)
    requires
        lo <= hi <= s@.len(),
    ensures
        v@ == s@.subrange(lo as int, hi as int),
{
    let mut v: Vec<char> = Vec::new();
    let mut i = lo;
    while i < hi
        invariant
            lo <= i <= hi <= s@.len(),
            v@ == s@.subrange(lo as int, i as int),
        decreases hi - i,
    {
        v.push(s[i]);
        i = i + 1;
        assert(v@ =~= s@.subrange(lo as int, i as int));
    }
    v
}

} // verus!
