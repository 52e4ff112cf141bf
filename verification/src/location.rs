//! A coordinate into the diff between two revisions of one file.

use crate::engine::{diff, diff_hunks};
use crate::error::{LocateError, ResolutionError};
use crate::model::{Line, LineView};
use crate::selection::{outcome_view, DiffSelection};
use std::path::PathBuf;
use vstd::prelude::*;

verus! {

/// `git2::Oid`: the identifier of an object in a git repository. Carried,
/// never read.
#[verifier::external_type_specification]
#[verifier::external_body]
pub struct ExOid(git2::Oid);

/// `std::path::PathBuf`. Carried, never read.
#[verifier::external_type_specification]
#[verifier::external_body]
pub struct ExPathBuf(PathBuf);

/// Rows of the diff between the file at `path` in the revision `base` and
/// the file at the same path in the revision `head`.
///
/// A location means something only for the diff of exactly these two
/// contents. To resolve it, the caller reads the two contents from the
/// store and hands them to `find_lines`.
#[derive(Debug, PartialEq, Eq)]
pub struct DiffLocation {
    /// The old side of the diff.
    pub base: git2::Oid,
    /// The new side of the diff.
    pub head: git2::Oid,
    /// Path of the file, the same on both sides.
    pub path: PathBuf,
    /// The selected section of the diff.
    pub selection: DiffSelection,
}

/// What the store gave for one side, as a mathematical value.
pub open spec fn content_view(content: Result<Vec<u8>, ResolutionError>) -> Result<
    Seq<u8>,
    ResolutionError,
> {
    match content {
        Ok(bytes) => Ok(bytes@),
        Err(e) => Err(e),
    }
}

/// The failure that the two resolutions cause, if either failed.
///
/// Both revisions are looked up before either path: an unknown revision on
/// either side comes first, then a missing path on either side.
pub open spec fn resolution_failure(
    old: Result<Seq<u8>, ResolutionError>,
    new: Result<Seq<u8>, ResolutionError>,
) -> Option<LocateError> {
    if old matches Err(ResolutionError::RevisionNotFound) {
        Some(LocateError::RevisionNotFound)
    } else if new matches Err(ResolutionError::RevisionNotFound) {
        Some(LocateError::RevisionNotFound)
    } else if old is Err || new is Err {
        Some(LocateError::PathNotFound)
    } else {
        None
    }
}

impl DiffLocation {
    /// Whether `outcome` is a result of `find_lines` on these two
    /// resolutions.
    ///
    /// A failed resolution decides alone. Otherwise the outcome is what the
    /// selection designates in the diff of the two contents, a diff without
    /// hunks if the two are equal; or it is `DiffFailed`.
    pub open spec fn finds(
        self,
        old: Result<Seq<u8>, ResolutionError>,
        new: Result<Seq<u8>, ResolutionError>,
        outcome: Result<Seq<LineView>, LocateError>,
    ) -> bool {
        match resolution_failure(old, new) {
            Some(e) => outcome == Err::<Seq<LineView>, LocateError>(e),
            None => {
                let hunks = diff_hunks(old.unwrap(), new.unwrap());
                ||| outcome == Err::<Seq<LineView>, LocateError>(LocateError::DiffFailed)
                ||| {
                    &&& old.unwrap() == new.unwrap() ==> hunks.len() == 0
                    &&& outcome == self.selection.located_in(hunks)
                }
            },
        }
    }

    /// Resolves the location to the rows it designates, given what the
    /// store holds for `path` at `base` (`old`) and at `head` (`new`).
    ///
    /// An unknown revision on either side fails with `RevisionNotFound`;
    /// otherwise a missing path on either side fails with `PathNotFound`.
    /// With both contents at hand the two are diffed and the selection is
    /// looked up in the diff. Equal contents give a diff without hunks, so
    /// that every selection fails with `HunkIndexOutOfRange`.
    pub fn find_lines(
        &self,
        old: Result<Vec<u8>, ResolutionError>,
        new: Result<Vec<u8>, ResolutionError>,
    ) -> (outcome: Result<Vec<Line>, LocateError>)
        ensures
            self.finds(content_view(old), content_view(new), outcome_view(outcome)),
            old matches Err(ResolutionError::RevisionNotFound) ==> outcome matches Err(
                LocateError::RevisionNotFound,
            ),
            new matches Err(ResolutionError::RevisionNotFound) ==> outcome matches Err(
                LocateError::RevisionNotFound,
            ),
            new matches Err(ResolutionError::PathNotFound) && !(old matches Err(
                ResolutionError::RevisionNotFound,
            )) ==> outcome matches Err(LocateError::PathNotFound),
            old matches Err(ResolutionError::PathNotFound) && !(new matches Err(
                ResolutionError::RevisionNotFound,
            )) ==> outcome matches Err(LocateError::PathNotFound),
            old is Ok && new is Ok && old.unwrap()@ == new.unwrap()@ ==> (outcome matches Err(
                LocateError::HunkIndexOutOfRange,
            )) || (outcome matches Err(LocateError::DiffFailed)),
    {
        let (old_bytes, new_bytes) = match (old, new) {
            (Err(ResolutionError::RevisionNotFound), _) => {
                return Err(LocateError::RevisionNotFound);
            },
            (_, Err(ResolutionError::RevisionNotFound)) => {
                return Err(LocateError::RevisionNotFound);
            },
            (Err(ResolutionError::PathNotFound), _) => {
                return Err(LocateError::PathNotFound);
            },
            (_, Err(ResolutionError::PathNotFound)) => {
                return Err(LocateError::PathNotFound);
            },
            (Ok(old_bytes), Ok(new_bytes)) => (old_bytes, new_bytes),
        };
        let hunks = diff(old_bytes.as_slice(), new_bytes.as_slice())?;
        self.selection.locate_in(&hunks)
    }
}

} // verus!
