//! Paths as byte strings: classification and joining.

use vstd::prelude::*;
use vstd::slice::slice_to_vec;

verus! {

/// The byte `/`, which separates the segments of a path.
pub const SEPARATOR: u8 = 0x2f;

/// A path is absolute exactly when its first byte is the separator.
pub open spec fn is_absolute_path(path: Seq<u8>) -> bool {
    path.len() > 0 && path[0] == SEPARATOR
}

/// Every path that is not absolute is relative; the empty path is relative.
pub open spec fn is_relative_path(path: Seq<u8>) -> bool {
    !is_absolute_path(path)
}

/// A separator has to be put behind `root` before more segments follow,
/// unless `root` is empty or already ends in one.
pub open spec fn needs_separator(root: Seq<u8>) -> bool {
    root.len() > 0 && root.last() != SEPARATOR
}

/// `path` adjoined to `root`.
///
/// An absolute `path` replaces `root`. An empty `path` leaves `root` as it
/// is. Otherwise the result is `root`, one separator where `root` needs it,
/// and then every byte of `path`.
pub open spec fn joined_path(root: Seq<u8>, path: Seq<u8>) -> Seq<u8> {
    if is_absolute_path(path) {
        path
    } else if path.len() == 0 {
        root
    } else if needs_separator(root) {
        root.push(SEPARATOR) + path
    } else {
        root + path
    }
}

/// Whether `path` is absolute.
pub fn is_absolute(path: &[u8]) -> (out: bool)
    ensures
        out == is_absolute_path(path@),
{
    path.len() > 0 && path[0] == SEPARATOR
}

/// Whether `path` is relative.
pub fn is_relative(path: &[u8]) -> (out: bool)
    ensures
        out == is_relative_path(path@),
{
    !is_absolute(path)
}

/// Appends every byte of `bytes` to `out`.
fn append_bytes(out: &mut Vec<u8>, bytes: &[u8])
    ensures
        final(out)@ == old(out)@ + bytes@,
{
    let ghost before: Seq<u8> = out@;
    let mut i: usize = 0;
    while i < bytes.len()
        invariant
            i <= bytes.len(),
            out@ == before + bytes@.subrange(0, i as int),
        decreases bytes.len() - i,
    {
        out.push(bytes[i]);
        i += 1;
        assert(out@ =~= before + bytes@.subrange(0, i as int));
    }
    assert(bytes@.subrange(0, i as int) =~= bytes@);
}

/// Adjoins `path` to `root`.
pub fn join(root: &[u8], path: &[u8]) -> (out: Vec<u8>)
    ensures
        out@ == joined_path(root@, path@),
{
    if is_absolute(path) {
        return slice_to_vec(path);
    }
    let mut out: Vec<u8> = slice_to_vec(root);
    if path.len() > 0 {
        if root.len() > 0 && root[root.len() - 1] != SEPARATOR {
            out.push(SEPARATOR);
        }
        append_bytes(&mut out, path);
    }
    out
}

/// Joining keeps both operands whole: the result of adjoining a relative
/// path begins with the root and ends with the path, and at most one byte,
/// a separator, stands between them.
pub proof fn lemma_join_keeps_root_and_path(root: Seq<u8>, path: Seq<u8>)
    requires
        is_relative_path(path),
    ensures
        root.is_prefix_of(joined_path(root, path)),
        path.is_suffix_of(joined_path(root, path)),
        joined_path(root, path).len() <= root.len() + 1 + path.len(),
        joined_path(root, path).len() > root.len() + path.len() ==> joined_path(root, path)[
            root.len() as int] == SEPARATOR,
{
    let out = joined_path(root, path);
    assert(out.subrange(0, root.len() as int) =~= root);
    assert(out.subrange(out.len() - path.len(), out.len() as int) =~= path);
}

/// A relative path adjoined to an absolute root is absolute, and so differs
/// from the relative path.
pub proof fn lemma_join_onto_absolute_root(root: Seq<u8>, path: Seq<u8>)
    requires
        is_absolute_path(root),
        is_relative_path(path),
    ensures
        is_absolute_path(joined_path(root, path)),
        joined_path(root, path) != path,
{
    let out = joined_path(root, path);
    assert(out[0] == root[0]);
}

/// Adjoining to the empty root gives the path back.
pub proof fn lemma_join_onto_empty_root(path: Seq<u8>)
    ensures
        joined_path(Seq::<u8>::empty(), path) == path,
{
    assert(Seq::<u8>::empty() + path =~= path);
    assert(joined_path(Seq::<u8>::empty(), path) =~= path);
}

} // verus!
