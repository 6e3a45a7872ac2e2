//! Resolve paths the way a user of `bazel run` means them.
//!
//! `bazel run` starts a program inside the runfiles tree of its binary and
//! records the directory the command was typed in as
//! `BUILD_WORKING_DIRECTORY`. A relative path given on the command line is
//! meant relative to that directory, not to the one the process finds itself
//! in. [`BazelPath::unbazelify`] resolves a path accordingly: an absolute path
//! is returned as it is, a relative one is appended to the recorded directory
//! or, where none was recorded, to the current working directory.
//!
//! Paths are byte strings in the POSIX convention: segments are separated by
//! `/`, and a path is absolute exactly when it begins with `/`. Nothing is
//! normalised: `.` and `..` segments, doubled and trailing separators are
//! carried over unchanged.
//!
//! The library reads no ambient state. The caller looks up the two
//! directories and passes them in; [`needs_current_dir`] tells whether the
//! current working directory will be consulted at all.

pub mod path;
pub mod resolve;

pub use crate::path::{is_absolute, is_relative, join, SEPARATOR};
pub use crate::resolve::{needs_current_dir, resolve, BazelPath, ResolveError};
