//! Joining paths, through std's `Path::join`.
use vstd::prelude::*;

verus! {

/// The text of `Path::new(base).join(name)` (std), on the platform the crate
/// is built for: `name` appended after a separator, or `name` alone when it is
/// an absolute path.
pub uninterp spec fn joined_path(base: Seq<char>, name: Seq<char>) -> Seq<char>;

/// `name` is one plain path component: not empty, free of `/`, `\\` and
/// `:`, and neither `.` nor `..`. Such a name has no root and no prefix on any
/// platform.
pub open spec fn is_plain_name(name: Seq<char>) -> bool {
    &&& name.len() > 0
    &&& forall|i: int|
        0 <= i < name.len() ==> #[trigger] name[i] != '/' && name[i] != '\\' && name[i] != ':'
    &&& name != seq!['.']
    &&& name != seq!['.', '.']
}

/// `base` begins with the verbatim prefix `\\?\`, under which std
/// normalizes what is joined on.
pub open spec fn is_verbatim(base: Seq<char>) -> bool {
    base.len() >= 4 && base[0] == '\\' && base[1] == '\\' && base[2] == '?' && base[3] == '\\'
}

/// `p` is `name` placed in the directory `dir`: the text of `dir`, at most one
/// separator, then `name`.
pub open spec fn placed_in(p: Seq<char>, dir: Seq<char>, name: Seq<char>) -> bool {
    ||| p == dir + name
    ||| p == dir + seq!['/'] + name
    ||| p == dir + seq!['\\'] + name
}

/// Joins `name` onto the directory `base` with std's `Path::join`.
///
/// Trusted: the result is `joined_path(base, name)`. Of that text only what
/// `PathBuf::push` documents for a relative one-component name is stated: it
/// extends `base`, with a separator where one is needed, when `base` is not a
/// verbatim (`\\?\`) path, whose joins std normalizes. Where separators go
/// otherwise, and when `name` replaces `base`, is std's rule for the target
/// platform and is not stated. Both arguments are UTF-8, so the joined path
/// converts back to text without loss.
#[verifier::external_body]
pub(crate) fn path_join(base: &str, name: &str) -> (res: String)
    ensures
        res@ == joined_path(base@, name@),
        is_plain_name(name@) && !is_verbatim(base@) ==> placed_in(res@, base@, name@),
{
    std::path::Path::new(base).join(name).to_string_lossy().into_owned()
}

/// Distinct plain names placed in one directory give distinct paths, when
/// neither name ends the other: the games, Flash and Ruffle directories are
/// three different directories of the application directory.
pub proof fn lemma_placed_distinct(dir: Seq<char>, p: Seq<char>, a: Seq<char>, q: Seq<char>, b: Seq<char>)
    requires
        placed_in(p, dir, a),
        placed_in(q, dir, b),
        a.len() > 0,
        b.len() > 0,
        a.last() != b.last(),
    ensures
        p != q,
{
    assert(p.last() == a.last());
    assert(q.last() == b.last());
}

} // verus!
