//! Resolution of a path against the directory the user worked in.

use vstd::prelude::*;
use vstd::slice::slice_to_vec;
use vstd::utf8::encode_utf8;
use crate::path::{
    is_absolute,
    is_absolute_path,
    is_relative_path,
    join,
    joined_path,
    lemma_join_onto_absolute_root,
    lemma_join_onto_empty_root,
};

verus! {

/// Why a path could not be resolved.
#[derive(Clone, Copy, Debug, PartialEq, Eq)]
pub enum ResolveError {
    /// The path is relative, no build working directory was recorded, and
    /// the current working directory could not be determined.
    WorkingDirectoryUnavailable,
}

/// The bytes of an optional directory.
pub open spec fn directory_bytes(directory: Option<&[u8]>) -> Option<Seq<u8>> {
    match directory {
        Some(bytes) => Some(bytes@),
        None => None,
    }
}

/// The directory that relative paths are resolved against.
///
/// A recorded build working directory wins over the current working
/// directory. It is taken as it stands: it is not checked to exist or to be
/// absolute, and one that was recorded as the empty string is still used.
/// With an empty root a relative path resolves to itself.
pub open spec fn resolution_root(
    build_working_directory: Option<Seq<u8>>,
    current_dir: Option<Seq<u8>>,
) -> Option<Seq<u8>> {
    match build_working_directory {
        Some(root) => Some(root),
        None => current_dir,
    }
}

/// Whether resolving `path` has to look at the current working directory:
/// the path is relative and no build working directory was recorded.
pub open spec fn consults_current_dir(
    path: Seq<u8>,
    build_working_directory: Option<Seq<u8>>,
) -> bool {
    is_relative_path(path) && build_working_directory is None
}

/// What `path` resolves to.
///
/// An absolute path resolves to itself. A relative path is adjoined to the
/// resolution root; where there is none, resolution fails.
pub open spec fn resolved_path(
    path: Seq<u8>,
    build_working_directory: Option<Seq<u8>>,
    current_dir: Option<Seq<u8>>,
) -> Result<Seq<u8>, ResolveError> {
    if is_absolute_path(path) {
        Ok(path)
    } else {
        match resolution_root(build_working_directory, current_dir) {
            Some(root) => Ok(joined_path(root, path)),
            None => Err(ResolveError::WorkingDirectoryUnavailable),
        }
    }
}

/// `out` is the executable form of `expected`.
pub open spec fn is_resolution(
    out: Result<Vec<u8>, ResolveError>,
    expected: Result<Seq<u8>, ResolveError>,
) -> bool {
    match expected {
        Ok(bytes) => out matches Ok(v) && v@ == bytes,
        Err(e) => out matches Err(f) && f == e,
    }
}

/// Whether the caller has to supply the current working directory for
/// `path` to resolve. Where this is `false`, [`resolve`] succeeds whatever is
/// passed as `current_dir`, so the caller need not ask the system for it.
pub fn needs_current_dir(path: &[u8], build_working_directory: Option<&[u8]>) -> (out: bool)
    ensures
        out == consults_current_dir(path@, directory_bytes(build_working_directory)),
{
    !is_absolute(path) && build_working_directory.is_none()
}

/// Resolves `path` to the path the user meant.
///
/// `build_working_directory` is the value of `BUILD_WORKING_DIRECTORY` where
/// it is set; `current_dir` is the current working directory of the process,
/// or `None` where the system cannot report one.
pub fn resolve(
    path: &[u8],
    build_working_directory: Option<&[u8]>,
    current_dir: Option<&[u8]>,
) -> (out: Result<Vec<u8>, ResolveError>)
    ensures
        is_resolution(
            out,
            resolved_path(
                path@,
                directory_bytes(build_working_directory),
                directory_bytes(current_dir),
            ),
        ),
        is_absolute_path(path@) ==> (out matches Ok(v) && v@ == path@),
        out is Err <==> consults_current_dir(path@, directory_bytes(build_working_directory))
            && current_dir is None,
{
    if is_absolute(path) {
        return Ok(slice_to_vec(path));
    }
    let root: &[u8] = match build_working_directory {
        Some(recorded) => recorded,
        None => match current_dir {
            Some(cwd) => cwd,
            None => {
                return Err(ResolveError::WorkingDirectoryUnavailable);
            },
        },
    };
    Ok(join(root, path))
}

/// A path that can be resolved in a Bazel-aware manner.
pub trait BazelPath {
    /// The bytes of the path.
    spec fn path_bytes(&self) -> Seq<u8>;

    /// Resolves the path to the one the user meant.
    ///
    /// An absolute path is left as it is. A relative path is resolved
    /// against `build_working_directory`, the directory `bazel run` was run
    /// from, where there is one, and otherwise against `current_dir`.
    ///
    /// # Errors
    ///
    /// Fails where the path is relative and neither directory is given.
    fn unbazelify(
        &self,
        build_working_directory: Option<&[u8]>,
        current_dir: Option<&[u8]>,
    ) -> (out: Result<Vec<u8>, ResolveError>)
        ensures
            is_resolution(
                out,
                resolved_path(
                    self.path_bytes(),
                    directory_bytes(build_working_directory),
                    directory_bytes(current_dir),
                ),
            ),
            is_absolute_path(self.path_bytes()) ==> (out matches Ok(v) && v@ == self.path_bytes()),
            out is Err <==> consults_current_dir(
                self.path_bytes(),
                directory_bytes(build_working_directory),
            ) && current_dir is None,
    ;
}

impl BazelPath for [u8] {
    open spec fn path_bytes(&self) -> Seq<u8> {
        self@
    }

    fn unbazelify(
        &self,
        build_working_directory: Option<&[u8]>,
        current_dir: Option<&[u8]>,
    ) -> (out: Result<Vec<u8>, ResolveError>) {
        resolve(self, build_working_directory, current_dir)
    }
}

impl BazelPath for Vec<u8> {
    open spec fn path_bytes(&self) -> Seq<u8> {
        self@
    }

    fn unbazelify(
        &self,
        build_working_directory: Option<&[u8]>,
        current_dir: Option<&[u8]>,
    ) -> (out: Result<Vec<u8>, ResolveError>) {
        resolve(self.as_slice(), build_working_directory, current_dir)
    }
}

impl BazelPath for str {
    open spec fn path_bytes(&self) -> Seq<u8> {
        encode_utf8(self@)
    }

    fn unbazelify(
        &self,
        build_working_directory: Option<&[u8]>,
        current_dir: Option<&[u8]>,
    ) -> (out: Result<Vec<u8>, ResolveError>) {
        resolve(self.as_bytes(), build_working_directory, current_dir)
    }
}

impl BazelPath for String {
    open spec fn path_bytes(&self) -> Seq<u8> {
        encode_utf8(self@)
    }

    fn unbazelify(
        &self,
        build_working_directory: Option<&[u8]>,
        current_dir: Option<&[u8]>,
    ) -> (out: Result<Vec<u8>, ResolveError>) {
        resolve(self.as_str().as_bytes(), build_working_directory, current_dir)
    }
}

/// An absolute path resolves to itself, byte for byte, whatever the two
/// directories are and even where neither is known.
pub proof fn lemma_absolute_resolves_to_itself(
    path: Seq<u8>,
    build_working_directory: Option<Seq<u8>>,
    current_dir: Option<Seq<u8>>,
)
    requires
        is_absolute_path(path),
    ensures
        resolved_path(path, build_working_directory, current_dir) == Ok::<Seq<u8>, ResolveError>(
            path,
        ),
{
}

/// Resolution fails exactly where the current working directory is
/// consulted and is not known. In particular it never fails for an absolute
/// path, nor where a build working directory was recorded.
pub proof fn lemma_resolution_fails_only_without_root(
    path: Seq<u8>,
    build_working_directory: Option<Seq<u8>>,
    current_dir: Option<Seq<u8>>,
)
    ensures
        resolved_path(path, build_working_directory, current_dir) is Err <==> consults_current_dir(
            path,
            build_working_directory,
        ) && current_dir is None,
        resolved_path(path, build_working_directory, current_dir) is Err ==> resolved_path(
            path,
            build_working_directory,
            current_dir,
        ) == Err::<Seq<u8>, ResolveError>(ResolveError::WorkingDirectoryUnavailable),
{
}

/// A relative path resolved against an absolute root gives an absolute
/// path, which therefore differs from the relative one.
///
/// The root has to be absolute for this: a root is used as it stands, and a
/// relative path adjoined to a relative or empty root is relative still.
pub proof fn lemma_relative_resolves_to_absolute(
    path: Seq<u8>,
    build_working_directory: Option<Seq<u8>>,
    current_dir: Option<Seq<u8>>,
)
    requires
        is_relative_path(path),
        resolution_root(build_working_directory, current_dir) matches Some(root)
            && is_absolute_path(root),
    ensures
        resolved_path(path, build_working_directory, current_dir) matches Ok(out) && out != path
            && is_absolute_path(out),
{
    let root = resolution_root(build_working_directory, current_dir).unwrap();
    lemma_join_onto_absolute_root(root, path);
}

/// Whenever resolution succeeds on an absolute path or against an absolute
/// root, its result is absolute.
pub proof fn lemma_resolved_is_absolute(
    path: Seq<u8>,
    build_working_directory: Option<Seq<u8>>,
    current_dir: Option<Seq<u8>>,
)
    requires
        is_absolute_path(path) || (resolution_root(build_working_directory, current_dir) matches Some(
            root,
        ) && is_absolute_path(root)),
    ensures
        resolved_path(path, build_working_directory, current_dir) matches Ok(out)
            && is_absolute_path(out),
{
    if is_relative_path(path) {
        lemma_relative_resolves_to_absolute(path, build_working_directory, current_dir);
    }
}

/// Resolving is idempotent: resolving what a resolution gave, in the same
/// surroundings, gives it again.
///
/// This holds for every absolute path, and for a relative path where the
/// root is absolute or empty. Against a relative root that is not empty, a
/// second resolution would prepend the root once more.
pub proof fn lemma_resolve_idempotent(
    path: Seq<u8>,
    build_working_directory: Option<Seq<u8>>,
    current_dir: Option<Seq<u8>>,
)
    requires
        is_relative_path(path) ==> (resolution_root(
            build_working_directory,
            current_dir,
        ) matches Some(root) ==> root.len() == 0 || is_absolute_path(root)),
    ensures
        resolved_path(path, build_working_directory, current_dir) matches Ok(out) ==> resolved_path(
            out,
            build_working_directory,
            current_dir,
        ) == Ok::<Seq<u8>, ResolveError>(out),
{
    if is_relative_path(path) {
        match resolution_root(build_working_directory, current_dir) {
            Some(root) => {
                if root.len() == 0 {
                    assert(root =~= Seq::<u8>::empty());
                    lemma_join_onto_empty_root(path);
                } else {
                    lemma_join_onto_absolute_root(root, path);
                }
            },
            None => {},
        }
    }
}

} // verus!
