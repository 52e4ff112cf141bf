//! What holds of every selection, every diff and every location.

use crate::error::{LocateError, ResolutionError};
use crate::location::DiffLocation;
use crate::model::{HunkView, LineView};
use crate::selection::DiffSelection;
use vstd::prelude::*;

verus! {

/// Resolving is repeatable: two runs of `find_lines` on one location and
/// on the same two resolutions, in neither of which the diff engine failed,
/// have the same outcome.
pub proof fn lemma_find_lines_repeatable(
    location: DiffLocation,
    old: Result<Seq<u8>, ResolutionError>,
    new: Result<Seq<u8>, ResolutionError>,
    first: Result<Seq<LineView>, LocateError>,
    second: Result<Seq<LineView>, LocateError>,
)
    requires
        location.finds(old, new, first),
        location.finds(old, new, second),
        first != Err::<Seq<LineView>, LocateError>(LocateError::DiffFailed),
        second != Err::<Seq<LineView>, LocateError>(LocateError::DiffFailed),
    ensures
        first == second,
{
}

/// Between two equal contents there is no hunk to select: whatever the
/// selection, `find_lines` fails with `HunkIndexOutOfRange`, unless the diff
/// engine failed first.
pub proof fn lemma_equal_contents_have_no_hunk(
    location: DiffLocation,
    content: Seq<u8>,
    outcome: Result<Seq<LineView>, LocateError>,
)
    requires
        location.finds(
            Ok::<Seq<u8>, ResolutionError>(content),
            Ok::<Seq<u8>, ResolutionError>(content),
            outcome,
        ),
    ensures
        outcome == Err::<Seq<LineView>, LocateError>(LocateError::HunkIndexOutOfRange) || outcome
            == Err::<Seq<LineView>, LocateError>(LocateError::DiffFailed),
{
}

/// A path that the new side lacks fails with `PathNotFound` whatever the
/// selection, if the old side's revision is known.
pub proof fn lemma_missing_path(
    location: DiffLocation,
    old: Result<Seq<u8>, ResolutionError>,
    outcome: Result<Seq<LineView>, LocateError>,
)
    requires
        location.finds(
            old,
            Err::<Seq<u8>, ResolutionError>(ResolutionError::PathNotFound),
            outcome,
        ),
        !(old matches Err(ResolutionError::RevisionNotFound)),
    ensures
        outcome == Err::<Seq<LineView>, LocateError>(LocateError::PathNotFound),
{
}

/// An empty range in a hunk that exists designates no rows and is no
/// failure, wherever the range lies.
pub proof fn lemma_empty_range(selection: DiffSelection, diff: Seq<HunkView>)
    requires
        selection.is_empty(),
        selection.hunk < diff.len(),
    ensures
        selection.located_in(diff) == Ok::<Seq<LineView>, LocateError>(Seq::empty()),
{
}

/// A selection of the single row `i` of a hunk that exists gives that row
/// if the hunk has it, and else fails with `LineIndexOutOfRange` at `i`.
pub proof fn lemma_single_row(selection: DiffSelection, diff: Seq<HunkView>, i: int)
    requires
        selection.hunk < diff.len(),
        selection.lines.start == i,
        selection.lines.end == i + 1,
    ensures
        i < diff[selection.hunk as int].lines.len() ==> selection.located_in(diff) == Ok::<
            Seq<LineView>,
            LocateError,
        >(seq![diff[selection.hunk as int].lines[i]]),
        i >= diff[selection.hunk as int].lines.len() ==> selection.located_in(diff) == Err::<
            Seq<LineView>,
            LocateError,
        >(LocateError::LineIndexOutOfRange { index: i as usize }),
{
    let rows = diff[selection.hunk as int].lines;
    if i < rows.len() {
        assert(rows.subrange(i, i + 1) =~= seq![rows[i]]);
    }
}

/// In a hunk of `n` rows the last index that resolves is `n - 1`: a
/// selection that ends with it succeeds, and one that holds `n` fails with
/// `LineIndexOutOfRange`, at `n` when the selection starts within the hunk.
pub proof fn lemma_boundary(selection: DiffSelection, diff: Seq<HunkView>)
    requires
        selection.hunk < diff.len(),
        !selection.is_empty(),
    ensures
        selection.lines.end == diff[selection.hunk as int].lines.len() ==> selection.located_in(
            diff,
        ) is Ok,
        selection.contains(diff[selection.hunk as int].lines.len() as int) ==> selection.located_in(
            diff,
        ) == Err::<Seq<LineView>, LocateError>(
            LocateError::LineIndexOutOfRange {
                index: diff[selection.hunk as int].lines.len() as usize,
            },
        ),
{
}

/// A hunk index equal to the number of hunks, or beyond it, fails with
/// `HunkIndexOutOfRange`, whatever the range.
pub proof fn lemma_hunk_out_of_range(selection: DiffSelection, diff: Seq<HunkView>)
    requires
        selection.hunk >= diff.len(),
    ensures
        selection.located_in(diff) == Err::<Seq<LineView>, LocateError>(
            LocateError::HunkIndexOutOfRange,
        ),
{
}

} // verus!
