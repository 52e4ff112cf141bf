//! What can go wrong when a location is resolved.

use vstd::prelude::*;

verus! {

/// Why the content of a path at a revision could not be had.
#[derive(Clone, Copy, Debug, PartialEq, Eq, Structural)]
pub enum ResolutionError {
    /// The store does not know the revision.
    RevisionNotFound,
    /// The revision's tree holds no file at the path.
    PathNotFound,
}

/// Why a location designates no lines.
#[derive(Clone, Copy, Debug, PartialEq, Eq, Structural)]
pub enum LocateError {
    /// One of the two revisions is unknown to the store.
    RevisionNotFound,
    /// The path is absent from the tree of one of the two revisions.
    PathNotFound,
    /// The diff has no hunk at the selected index.
    HunkIndexOutOfRange,
    /// The selected hunk has no row at `index`, the first selected index
    /// that it lacks.
    LineIndexOutOfRange { index: usize },
    /// The diff engine gave up before it produced a diff.
    DiffFailed,
}

} // verus!
