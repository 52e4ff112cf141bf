//! The diff engine: libgit2, through the `git2` crate.
//!
//! Nothing here is proved of libgit2 itself. The declarations at the top of
//! this file say what is taken on trust from it; `diff` below is proved from
//! them.

use crate::error::LocateError;
use crate::model::{Hunk, HunkHeader, HunkView, Line};
use vstd::prelude::*;

verus! {

/// `git2::Patch`: the diff of one file, held by libgit2.
#[verifier::external_type_specification]
#[verifier::external_body]
pub struct ExPatch<'a>(git2::Patch<'a>);

/// `git2::Error`: why a call into libgit2 failed.
#[verifier::external_type_specification]
#[verifier::external_body]
pub struct ExGitError(git2::Error);

/// The hunks that a patch holds, in its order, each with its rows.
pub uninterp spec fn patch_hunks(patch: &git2::Patch<'_>) -> Seq<HunkView>;

/// The hunks of the patch that `git2::Patch::from_buffers` generates from
/// two buffers when it is given no paths and no options.
pub uninterp spec fn diff_hunks(old: Seq<u8>, new: Seq<u8>) -> Seq<HunkView>;

/// Whether `hunks` has a hunk at index `hunk`, and that hunk a row at index
/// `line`.
pub open spec fn has_row(hunks: Seq<HunkView>, hunk: usize, line: usize) -> bool {
    hunk < hunks.len() && line < hunks[hunk as int].lines.len()
}

/// Calls `git2::Patch::from_buffers` on the two buffers, with no paths and
/// with libgit2's default options.
///
/// Taken on trust: the patch that comes back depends on the bytes of the two
/// buffers alone, and it has no hunk when the two hold the same bytes
/// (libgit2 compares their hashes and generates nothing for an unmodified
/// file). When the call fails is left open. The call initialises libgit2 on
/// first use and panics if that fails.
#[verifier::external_body]
fn patch_from_buffers<'a>(old: &'a [u8], new: &'a [u8]) -> (made: Result<
    git2::Patch<'a>,
    git2::Error,
>)
    ensures
        made matches Ok(patch) ==> patch_hunks(&patch) == diff_hunks(old@, new@),
        made matches Ok(patch) ==> old@ == new@ ==> patch_hunks(&patch).len() == 0,
{
    git2::Patch::from_buffers(old, None, new, None, None)
}

/// Calls `git2::Patch::num_hunks`.
///
/// Taken on trust: it gives the number of hunks that the patch holds.
#[verifier::external_body]
fn patch_num_hunks(patch: &git2::Patch<'_>) -> (count: usize)
    ensures
        count == patch_hunks(patch).len(),
{
    patch.num_hunks()
}

/// Calls `git2::Patch::hunk` and copies the four numbers of the header.
///
/// Taken on trust: the call succeeds exactly for the index of a hunk that
/// the patch holds, and then gives that hunk's header and the number of its
/// rows.
#[verifier::external_body]
fn patch_hunk(patch: &git2::Patch<'_>, hunk: usize) -> (got: Result<(HunkHeader, usize), git2::Error>)
    ensures
        got is Ok <==> hunk < patch_hunks(patch).len(),
        got matches Ok(pair) ==> pair.0 == patch_hunks(patch)[hunk as int].header,
        got matches Ok(pair) ==> pair.1 == patch_hunks(patch)[hunk as int].lines.len(),
{
    let (raw, rows) = patch.hunk(hunk)?;
    let header = HunkHeader {
        old_start: raw.old_start(),
        old_lines: raw.old_lines(),
        new_start: raw.new_start(),
        new_lines: raw.new_lines(),
    };
    Ok((header, rows))
}

/// Calls `git2::Patch::line_in_hunk` and copies the row's sigil
/// (`DiffLine::origin`) and bytes (`DiffLine::content`).
///
/// Taken on trust: the call succeeds exactly for the index of a hunk that
/// the patch holds and of a row that this hunk holds, and then gives that
/// row.
#[verifier::external_body]
fn patch_line(patch: &git2::Patch<'_>, hunk: usize, line: usize) -> (got: Result<Line, git2::Error>)
    ensures
        got is Ok <==> has_row(patch_hunks(patch), hunk, line),
        got matches Ok(row) ==> row.deep_view() == patch_hunks(patch)[hunk as int].lines[line as int],
{
    let raw = patch.line_in_hunk(hunk, line)?;
    Ok(Line { sigil: raw.origin(), content: raw.content().to_vec() })
}

/// Copies the rows of one hunk out of a patch.
fn hunk_lines(patch: &git2::Patch<'_>, hunk: usize, rows: usize) -> (got: Result<
    Vec<Line>,
    LocateError,
>)
    requires
        hunk < patch_hunks(patch).len(),
        rows == patch_hunks(patch)[hunk as int].lines.len(),
    ensures
        match got {
            Ok(lines) => lines.deep_view() == patch_hunks(patch)[hunk as int].lines,
            Err(e) => e == LocateError::DiffFailed,
        },
{
    let mut lines: Vec<Line> = Vec::new();
    let mut i: usize = 0;
    while i < rows
        invariant
            i <= rows,
            hunk < patch_hunks(patch).len(),
            rows == patch_hunks(patch)[hunk as int].lines.len(),
            lines.len() == i,
            forall|k: int|
                0 <= k < i ==> (#[trigger] lines[k]).deep_view() == patch_hunks(
                    patch,
                )[hunk as int].lines[k],
        decreases rows - i,
    {
        match patch_line(patch, hunk, i) {
            Ok(row) => lines.push(row),
            Err(_) => {
                return Err(LocateError::DiffFailed);
            },
        }
        i = i + 1;
    }
    assert(lines.deep_view() =~= patch_hunks(patch)[hunk as int].lines);
    Ok(lines)
}

/// What `diff` may return for two contents: the hunks that the engine
/// generates from them, none if the two are the same, or `DiffFailed`.
pub open spec fn diff_outcome(
    old: Seq<u8>,
    new: Seq<u8>,
    outcome: Result<Seq<HunkView>, LocateError>,
) -> bool {
    match outcome {
        Ok(hunks) => hunks == diff_hunks(old, new) && (old == new ==> hunks.len() == 0),
        Err(e) => e == LocateError::DiffFailed,
    }
}

/// The hunks that were computed, or why none were, as a mathematical value.
pub open spec fn hunks_outcome_view(outcome: Result<Vec<Hunk>, LocateError>) -> Result<
    Seq<HunkView>,
    LocateError,
> {
    match outcome {
        Ok(hunks) => Ok(hunks.deep_view()),
        Err(e) => Err(e),
    }
}

/// Aligns two contents line by line and returns the hunks in file order.
///
/// The alignment is libgit2's, with its default options: three lines of
/// context round a change, and every byte compared as it stands, line
/// endings included. Two equal contents give no hunk. The only failure is
/// `DiffFailed`, when the engine reports an error.
pub fn diff(old: &[u8], new: &[u8]) -> (outcome: Result<Vec<Hunk>, LocateError>)
    ensures
        diff_outcome(old@, new@, hunks_outcome_view(outcome)),
{
    let patch = match patch_from_buffers(old, new) {
        Ok(patch) => patch,
        Err(_) => {
            return Err(LocateError::DiffFailed);
        },
    };
    let count: usize = patch_num_hunks(&patch);
    let mut hunks: Vec<Hunk> = Vec::new();
    let mut h: usize = 0;
    while h < count
        invariant
            h <= count,
            count == patch_hunks(&patch).len(),
            hunks.len() == h,
            forall|k: int|
                0 <= k < h ==> (#[trigger] hunks[k]).deep_view() == patch_hunks(&patch)[k],
        decreases count - h,
    {
        let (header, rows) = match patch_hunk(&patch, h) {
            Ok(pair) => pair,
            Err(_) => {
                return Err(LocateError::DiffFailed);
            },
        };
        let lines = hunk_lines(&patch, h, rows)?;
        hunks.push(Hunk { header, lines });
        h = h + 1;
    }
    assert(hunks.deep_view() =~= patch_hunks(&patch));
    Ok(hunks)
}

} // verus!
