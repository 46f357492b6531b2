//! What stops an export.

use vstd::prelude::*;

verus! {

/// The reasons for which a commit, a file or the repository path cannot be
/// exported.
#[derive(Clone, Copy, Debug, PartialEq, Eq, Structural)]
pub enum ExportError {
    /// The commit's author has no name, or one that is not valid UTF-8.
    MissingAuthorName,
    /// The commit's author has no email, or one that is not valid UTF-8.
    MissingAuthorEmail,
    /// A changed file's path is not valid UTF-8.
    PathNotUtf8,
    /// A changed file's path does not end in a file name.
    NoFileName,
    /// The repository path does not end in a directory name.
    NoRepositoryName,
}

} // verus!
