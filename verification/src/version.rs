//! Reading a game's version out of its download URL.
use vstd::prelude::*;
use crate::text::{
    after_last, chars_of, copy_range, find, find_from_exec, last_index_of, last_index_of_exec,
    lemma_find_from, lemma_find_skip, lemma_last_index_of, occurs_at,
};

verus! {

broadcast use vstd::string::group_string_axioms;

/// `c` is one of the ASCII digits `0`..`9`.
pub open spec fn is_ascii_digit(c: char) -> bool {
    '0' <= c && c <= '9'
}

/// Every character of `s` is an ASCII digit (vacuously so for the empty sequence).
pub open spec fn all_ascii_digits(s: Seq<char>) -> bool {
    forall|i: int| 0 <= i < s.len() ==> is_ascii_digit(#[trigger] s[i])
}

/// Splits `s` at every `.`, keeps the leading parts that hold nothing but ASCII
/// digits, and joins those back with `.`; `None` when not even the first part
/// qualifies. An empty part holds nothing but digits.
pub open spec fn numeric_prefix(s: Seq<char>) -> Option<Seq<char>>
    decreases s.len(),
{
    let d = find(s, seq!['.']);
    if d < 0 {
        if all_ascii_digits(s) {
            Some(s)
        } else {
            None
        }
    } else if !all_ascii_digits(s.take(d)) {
        None
    } else if 0 <= d < s.len() {
        match numeric_prefix(s.skip(d + 1)) {
            None => Some(s.take(d)),
            Some(rest) => Some(s.take(d) + seq!['.'] + rest),
        }
    } else {
        None
    }
}

/// The version that a download URL names: the file name is what follows the
/// last `/`; the text after its first `-v` (up to a further `-v`, if any) is
/// cut at `.`, and the leading all-digit parts are joined back with `.`.
/// `None` when the file name holds no `-v` or no part qualifies.
pub open spec fn url_version(url: Seq<char>) -> Option<Seq<char>> {
    let file = after_last(url, '/');
    let p = find(file, seq!['-', 'v']);
    if p < 0 {
        None
    } else {
        let after = file.skip(p + 2);
        let q = find(after, seq!['-', 'v']);
        numeric_prefix(if q < 0 { after } else { after.take(q) })
    }
}

/// Whether `s[lo..hi]` holds nothing but ASCII digits.
fn all_digits_in(s: &[char], lo: usize, hi: usize) -> (res: bool)
    requires
        lo <= hi <= s@.len(),
    ensures
        res == all_ascii_digits(s@.subrange(lo as int, hi as int)),
{
    let mut i = lo;
    while i < hi
        invariant
            lo <= i <= hi <= s@.len(),
            forall|k: int| lo <= k < i ==> is_ascii_digit(s@[k]),
        decreases hi - i,
    {
        if !(s[i] >= '0' && s[i] <= '9') {
            assert(s@.subrange(lo as int, hi as int)[i - lo] == s@[i as int]);
            return false;
        }
        i = i + 1;
    }
    assert forall|k: int| 0 <= k < hi - lo implies is_ascii_digit(
        #[trigger] s@.subrange(lo as int, hi as int)[k],
    ) by {
        assert(s@.subrange(lo as int, hi as int)[k] == s@[lo + k]);
    }
    true
}

/// The length of `numeric_prefix(s)`, which is always a prefix of `s`.
fn numeric_prefix_len(s: &[char]) -> (res: Option<usize>)
    ensures
        match numeric_prefix(s@) {
            None => res is None,
            Some(r) => res matches Some(e) && e <= s@.len() && r == s@.take(e as int),
        },
{
    let dot = vec!['.'];
    assert(dot@ == seq!['.']);
    let mut pos: usize = 0;
    let mut acc: Option<usize> = None;
    assert(s@.skip(0) =~= s@);
    loop
        invariant
            pos <= s@.len(),
            dot@ == seq!['.'],
            acc is None ==> pos == 0,
            acc matches Some(e) ==> {
                &&& e < s@.len()
                &&& pos == e + 1
                &&& numeric_prefix(s@) == match numeric_prefix(s@.skip(pos as int)) {
                    None => Some(s@.take(e as int)),
                    Some(r) => Some(s@.take(pos as int) + r),
                }
            },
        decreases s@.len() - pos,
    {
        let ghost t = s@.skip(pos as int);
        let found = find_from_exec(s, dot.as_slice(), pos);
        proof {
            lemma_find_skip(s@, seq!['.'], pos as int, 0);
            lemma_find_from(s@, seq!['.'], pos as int);
        }
        match found {
            None => {
                let ok = all_digits_in(s, pos, s.len());
                assert(s@.subrange(pos as int, s@.len() as int) =~= t);
                if !ok {
                    return match acc {
                        None => None,
                        Some(e) => Some(e),
                    };
                }
                proof {
                    if let Some(e) = acc {
                        assert(s@.take(pos as int) + t =~= s@);
                    } else {
                        assert(t =~= s@);
                    }
                }
                assert(s@.take(s@.len() as int) =~= s@);
                return Some(s.len());
            },
            Some(d) => {
                let ok = all_digits_in(s, pos, d);
                assert(s@.subrange(pos as int, d as int) =~= t.take(d - pos));
                if !ok {
                    return match acc {
                        None => None,
                        Some(e) => Some(e),
                    };
                }
                proof {
                    assert(occurs_at(s@, seq!['.'], d as int));
                    assert(s@.subrange(d as int, d + 1) == seq!['.']);
                    assert(s@[d as int] == s@.subrange(d as int, d + 1)[0]);
                    assert(t.skip(d - pos + 1) =~= s@.skip(d + 1));
                    assert(s@.take(d as int) + seq!['.'] =~= s@.take(d + 1));
                    if let Some(e) = acc {
                        assert(s@.take(pos as int) + t.take(d - pos) =~= s@.take(d as int));
                        if let Some(r) = numeric_prefix(s@.skip(d + 1)) {
                            assert(s@.take(pos as int) + (t.take(d - pos) + seq!['.'] + r)
                                =~= s@.take(d + 1) + r);
                        }
                    } else {
                        assert(t =~= s@);
                        assert(t.take(d as int) =~= s@.take(d as int));
                        if let Some(r) = numeric_prefix(s@.skip(d + 1)) {
                            assert(s@.take(d as int) + seq!['.'] + r =~= s@.take(d + 1) + r);
                        }
                    }
                }
                assert(d < s.len());
                acc = Some(d);
                pos = d + 1;
            },
        }
    }
}

/// Extracts the version string after `-v` from the final URL or file name,
/// e.g. `"https://ptd.onl/game/PTD1-v3.6.6.swf"` gives `"3.6.6"`.
pub fn parse_version_from_url(url: &str) -> (res: Option<String>)
    ensures
        match url_version(url@) {
            None => res is None,
            Some(v) => res matches Some(r) && r@ == v,
        },
{
    let chars = chars_of(url);
    let n = chars.len();
    proof {
        lemma_last_index_of(chars@, '/');
    }
    let start: usize = match last_index_of_exec(chars.as_slice(), '/') {
        Some(k) => k + 1,
        None => 0,
    };
    let file = copy_range(chars.as_slice(), start, n);
    assert(file@ =~= after_last(url@, '/'));
    let dash_v = vec!['-', 'v'];
    assert(dash_v@ == seq!['-', 'v']);
    let p = match find_from_exec(file.as_slice(), dash_v.as_slice(), 0) {
        None => {
            return None;
        },
        Some(p) => p,
    };
    proof {
        lemma_find_from(file@, seq!['-', 'v'], 0);
    }
    let after = copy_range(file.as_slice(), p + 2, file.len());
    assert(after@ =~= file@.skip(p + 2));
    let q = find_from_exec(after.as_slice(), dash_v.as_slice(), 0);
    proof {
        lemma_find_from(after@, seq!['-', 'v'], 0);
    }
    let part = match q {
        None => after,
        Some(q) => copy_range(after.as_slice(), 0, q),
    };
    assert(part@ =~= (if find(after@, seq!['-', 'v']) < 0 {
        after@
    } else {
        after@.take(find(after@, seq!['-', 'v']))
    }));
    match numeric_prefix_len(part.as_slice()) {
        None => None,
        Some(e) => {
            let a = start + p + 2;
            assert(url@.subrange(a as int, a + e) =~= part@.take(e as int));
            Some(String::from_str(url.substring_char(a, a + e)))
        },
    }
}

// ----------------------------------------------------------------------------
// Laws of version extraction
// ----------------------------------------------------------------------------

/// `c` is an ASCII digit or a dot.
pub open spec fn is_version_char(c: char) -> bool {
    is_ascii_digit(c) || c == '.'
}

/// What `numeric_prefix` keeps is a prefix of its input that ends where a
/// part ends, made of digits and dots only.
pub proof fn lemma_numeric_prefix_shape(s: Seq<char>)
    ensures
        numeric_prefix(s) matches Some(r) ==> {
            &&& r.len() <= s.len()
            &&& r == s.take(r.len() as int)
            &&& r.len() == s.len() || s[r.len() as int] == '.'
            &&& forall|i: int| 0 <= i < r.len() ==> is_version_char(#[trigger] r[i])
        },
    decreases s.len(),
{
    let d = find(s, seq!['.']);
    lemma_find_from(s, seq!['.'], 0);
    if d >= 0 && all_ascii_digits(s.take(d)) {
        assert(occurs_at(s, seq!['.'], d));
        assert(s.subrange(d, d + 1) == seq!['.']);
        assert(s[d] == s.subrange(d, d + 1)[0]);
        let tail = s.skip(d + 1);
        lemma_numeric_prefix_shape(tail);
        match numeric_prefix(tail) {
            None => {
                let r = s.take(d);
                assert forall|i: int| 0 <= i < r.len() implies is_version_char(#[trigger] r[i]) by {
                    assert(is_ascii_digit(s.take(d)[i]));
                }
            },
            Some(rest) => {
                let r = s.take(d) + seq!['.'] + rest;
                assert(r =~= s.take(r.len() as int)) by {
                    assert forall|i: int| 0 <= i < r.len() implies r[i] == s.take(r.len() as int)[i] by {
                        if i < d {
                        } else if i == d {
                        } else {
                            assert(rest[i - d - 1] == tail[i - d - 1]);
                        }
                    }
                }
                if r.len() < s.len() {
                    assert(s[r.len() as int] == tail[rest.len() as int]);
                }
                assert forall|i: int| 0 <= i < r.len() implies is_version_char(#[trigger] r[i]) by {
                    if i < d {
                        assert(is_ascii_digit(s.take(d)[i]));
                    } else if i == d {
                    } else {
                        assert(r[i] == rest[i - d - 1]);
                    }
                }
            },
        }
    } else if d < 0 && all_ascii_digits(s) {
        assert(s.take(s.len() as int) =~= s);
        assert forall|i: int| 0 <= i < s.len() implies is_version_char(#[trigger] s[i]) by {
            assert(is_ascii_digit(s[i]));
        }
    }
}

/// A version found in a URL is made of ASCII digits and dots only.
pub proof fn lemma_url_version_chars(url: Seq<char>)
    ensures
        url_version(url) matches Some(v) ==> forall|i: int|
            0 <= i < v.len() ==> is_version_char(#[trigger] v[i]),
{
    let file = after_last(url, '/');
    let p = find(file, seq!['-', 'v']);
    if p >= 0 {
        let after = file.skip(p + 2);
        let q = find(after, seq!['-', 'v']);
        lemma_numeric_prefix_shape(if q < 0 { after } else { after.take(q) });
    }
}

/// Only the file name counts: whatever directory a URL names, the version is
/// that of its last path segment.
pub proof fn lemma_url_version_file_name(dir: Seq<char>, file: Seq<char>)
    requires
        !file.contains('/'),
    ensures
        url_version(dir + seq!['/'] + file) == url_version(file),
{
    let url = dir + seq!['/'] + file;
    lemma_last_index_of(url, '/');
    lemma_last_index_of(file, '/');
    let k = last_index_of(url, '/');
    assert(url[dir.len() as int] == '/');
    if k > dir.len() {
        assert(file[k - dir.len() - 1] == url[k]);
    }
    assert(k == dir.len());
    if last_index_of(file, '/') >= 0 {
        assert(file.contains('/'));
    }
    assert(after_last(url, '/') =~= file);
    assert(after_last(file, '/') =~= file);
}

} // verus!
