//! Paths as texts: what the standard library's path functions are relied on
//! for, and the paths on which their result is fixed.
//!
//! How a path splits into components depends on the platform, so the results
//! of `Path::extension` and `Path::strip_prefix` get no name. Two things are
//! stated of them instead. Whatever the path, what they return is a stretch
//! of it. And on a plain path, one that every platform splits alike, what
//! they return is spelled out.
//!
//! A plain path is made of names joined by single slashes, with at most one
//! slash in front. Each name is non-empty, holds no slash, backslash or
//! colon, and is neither `.` nor `..`.

use vstd::prelude::*;
use crate::text::opt_view;

verus! {

/// Whether some stretch of `whole` is `part`.
pub open spec fn part_of(whole: Seq<char>, part: Seq<char>) -> bool {
    exists|i: int, j: int| 0 <= i <= j <= whole.len() && #[trigger] whole.subrange(i, j) == part
}

/// The texts between the slashes of `s`, in order. A text without a slash
/// is one name; two slashes in a row, or a slash at either end, give an
/// empty name.
pub open spec fn names_of(s: Seq<char>) -> Seq<Seq<char>>
    decreases s.len(),
{
    if s.len() == 0 {
        seq![Seq::<char>::empty()]
    } else if s.last() == '/' {
        names_of(s.drop_last()).push(Seq::<char>::empty())
    } else {
        let front = names_of(s.drop_last());
        front.drop_last().push(front.last().push(s.last()))
    }
}

/// A name that every platform reads as one ordinary path component.
pub open spec fn plain_name(name: Seq<char>) -> bool {
    &&& name.len() > 0
    &&& !name.contains('/')
    &&& !name.contains('\\')
    &&& !name.contains(':')
    &&& name != seq!['.']
    &&& name != seq!['.', '.']
}

/// Plain names joined by single slashes.
pub open spec fn plain_relative(s: Seq<char>) -> bool {
    forall|i: int| 0 <= i < names_of(s).len() ==> plain_name(#[trigger] names_of(s)[i])
}

/// A plain path: plain names joined by single slashes, with at most one
/// slash in front.
pub open spec fn plain_path(s: Seq<char>) -> bool {
    plain_relative(s) || (s.len() > 0 && s[0] == '/' && plain_relative(s.skip(1)))
}

/// The last name of a path.
pub open spec fn final_name(s: Seq<char>) -> Seq<char> {
    names_of(s).last()
}

/// The place of the last dot of a name, or -1 if it has none.
pub open spec fn last_dot(name: Seq<char>) -> int
    decreases name.len(),
{
    if name.len() == 0 {
        -1
    } else if name.last() == '.' {
        name.len() - 1
    } else {
        last_dot(name.drop_last())
    }
}

/// The extension of a name: what follows its last dot, unless it has no dot
/// or its only dot is its first character.
pub open spec fn name_extension(name: Seq<char>) -> Option<Seq<char>> {
    if last_dot(name) <= 0 {
        None
    } else {
        Some(name.skip(last_dot(name) + 1))
    }
}

/// Whether `path` is `root`, a slash, and more.
pub open spec fn below(path: Seq<char>, root: Seq<char>) -> bool {
    path.len() > root.len() && path.take(root.len() as int) == root && path[root.len() as int]
        == '/'
}

/// What follows `root` and the slash in a path below `root`.
pub open spec fn rest_below(path: Seq<char>, root: Seq<char>) -> Seq<char> {
    path.skip(root.len() as int + 1)
}

/// Whether `path` is a plain root, a slash, and plain names joined by single
/// slashes.
pub open spec fn plainly_below(path: Seq<char>, root: Seq<char>) -> bool {
    plain_path(root) && below(path, root) && plain_relative(rest_below(path, root))
}

/// Trusted: calls `Path::extension`. The extension is taken to be a stretch
/// of the path that stands right after a dot and holds no dot itself. On a
/// plain path it is taken to be the extension of the last name: what follows
/// that name's last dot, and none where the name has no dot or only a
/// leading one.
#[verifier::external_body]
pub(crate) fn path_extension(path: &str) -> (r: Option<String>)
    ensures
        r matches Some(e) ==> !e@.contains('.') && part_of(path@, seq!['.'] + e@),
        plain_path(path@) ==> opt_view(r) == name_extension(final_name(path@)),
{
    match std::path::Path::new(path).extension() {
        Some(e) => Some(e.to_string_lossy().into_owned()),
        None => None,
    }
}

/// Trusted: calls `Path::strip_prefix`. `None` stands for the case in which
/// `root` is no prefix of `path`. What is left of the path is taken to be a
/// stretch of it. Where the path is a plain root, a slash and plain names,
/// what is left is taken to be all that follows the slash.
#[verifier::external_body]
pub(crate) fn strip_root(path: &str, root: &str) -> (r: Option<String>)
    ensures
        r matches Some(rest) ==> part_of(path@, rest@),
        plainly_below(path@, root@) ==> opt_view(r) == Some(rest_below(path@, root@)),
{
    match std::path::Path::new(path).strip_prefix(root) {
        Ok(rest) => Some(rest.to_string_lossy().into_owned()),
        Err(_) => None,
    }
}

/// Every text has at least one name.
pub proof fn lemma_names_nonempty(s: Seq<char>)
    ensures
        names_of(s).len() >= 1,
    decreases s.len(),
{
    if s.len() > 0 {
        lemma_names_nonempty(s.drop_last());
    }
}

/// A text without a slash is one name.
pub proof fn lemma_one_name(s: Seq<char>)
    requires
        !s.contains('/'),
    ensures
        names_of(s) == seq![s],
    decreases s.len(),
{
    if s.len() > 0 {
        let front = s.drop_last();
        lemma_one_name(front);
        assert(front.push(s.last()) =~= s);
    } else {
        assert(s =~= Seq::<char>::empty());
    }
}

/// The names of two texts joined by a slash are the names of the first
/// followed by the names of the second.
pub proof fn lemma_names_of_joined(a: Seq<char>, b: Seq<char>)
    ensures
        names_of(a + seq!['/'] + b) == names_of(a) + names_of(b),
    decreases b.len(),
{
    let s = a + seq!['/'] + b;
    lemma_names_nonempty(a);
    if b.len() == 0 {
        assert(s.drop_last() =~= a);
    } else {
        let shorter = b.drop_last();
        assert(s.drop_last() =~= a + seq!['/'] + shorter);
        lemma_names_of_joined(a, shorter);
        lemma_names_nonempty(shorter);
    }
}

/// A path plainly below a root is itself a plain path, and its last name is
/// the last name of what follows the root.
pub proof fn lemma_plainly_below(path: Seq<char>, root: Seq<char>)
    requires
        plainly_below(path, root),
    ensures
        plain_path(path),
        final_name(path) == final_name(rest_below(path, root)),
{
    let rest = rest_below(path, root);
    assert(path =~= root + seq!['/'] + rest);
    lemma_names_nonempty(rest);
    lemma_names_nonempty(root);
    lemma_names_of_joined(root, rest);
    if !plain_relative(root) {
        let inner = root.skip(1);
        assert(path.skip(1) =~= inner + seq!['/'] + rest);
        lemma_names_of_joined(inner, rest);
        lemma_names_nonempty(inner);
    }
}

/// Every text is a stretch of itself.
pub proof fn lemma_part_of_itself(s: Seq<char>)
    ensures
        part_of(s, s),
{
    assert(s.subrange(0, s.len() as int) =~= s);
}

} // verus!
