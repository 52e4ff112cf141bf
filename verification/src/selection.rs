//! A coordinate into a diff, and the rows it designates.

use crate::error::LocateError;
use crate::model::{Hunk, HunkView, Line, LineView};
use std::ops::Range;
use vstd::prelude::*;

verus! {

/// A hunk of a diff, by its index from 0, and a range of row indices in
/// that hunk. The range holds `lines.start` and every index up to, but not
/// `lines.end`; it is empty when `lines.start >= lines.end`.
#[derive(Debug, PartialEq, Eq)]
pub struct DiffSelection {
    pub hunk: usize,
    pub lines: Range<usize>,
}

/// The rows that were found, or why none were, as a mathematical value.
pub open spec fn outcome_view(outcome: Result<Vec<Line>, LocateError>) -> Result<
    Seq<LineView>,
    LocateError,
> {
    match outcome {
        Ok(lines) => Ok(lines.deep_view()),
        Err(e) => Err(e),
    }
}

impl Clone for DiffSelection {
    fn clone(&self) -> (copy: DiffSelection)
        ensures
            copy == *self,
    {
        DiffSelection { hunk: self.hunk, lines: self.lines.start..self.lines.end }
    }
}

impl DiffSelection {
    /// Whether the selection holds no row index.
    pub open spec fn is_empty(self) -> bool {
        self.lines.start >= self.lines.end
    }

    /// The number of row indices that the selection holds.
    pub open spec fn row_count(self) -> nat {
        if self.is_empty() {
            0
        } else {
            (self.lines.end - self.lines.start) as nat
        }
    }

    /// Whether the selection holds the row index `i`.
    pub open spec fn contains(self, i: int) -> bool {
        self.lines.start <= i < self.lines.end
    }

    /// What the selection designates in `diff`.
    ///
    /// The hunk index is judged first, whatever the range. In a hunk that
    /// exists an empty range designates no rows and is no failure; any
    /// other range must lie within the hunk, and then designates its rows
    /// in ascending order. The failure names the least selected index
    /// that the hunk lacks.
    pub open spec fn located_in(self, diff: Seq<HunkView>) -> Result<Seq<LineView>, LocateError> {
        if self.hunk >= diff.len() {
            Err(LocateError::HunkIndexOutOfRange)
        } else if self.is_empty() {
            Ok(Seq::empty())
        } else {
            let rows = diff[self.hunk as int].lines;
            if self.lines.end <= rows.len() {
                Ok(rows.subrange(self.lines.start as int, self.lines.end as int))
            } else if self.lines.start >= rows.len() {
                Err(LocateError::LineIndexOutOfRange { index: self.lines.start })
            } else {
                Err(LocateError::LineIndexOutOfRange { index: rows.len() as usize })
            }
        }
    }

    /// The hunk that the selection names in `diff`, if there is one.
    pub fn hunk_in<'a>(&self, diff: &'a Vec<Hunk>) -> (outcome: Result<&'a Hunk, LocateError>)
        ensures
            self.hunk < diff.len() ==> outcome == Ok::<&Hunk, LocateError>(&diff[self.hunk as int]),
            self.hunk >= diff.len() ==> outcome == Err::<&Hunk, LocateError>(
                LocateError::HunkIndexOutOfRange,
            ),
    {
        if self.hunk < diff.len() {
            Ok(&diff[self.hunk])
        } else {
            Err(LocateError::HunkIndexOutOfRange)
        }
    }

    /// Finds the rows that the selection designates in `diff`.
    ///
    /// A hunk index that `diff` lacks fails, whatever the range. In a hunk
    /// that exists, an empty range gives no rows; a range within the hunk
    /// gives its rows, one for each index and in ascending order; a range
    /// that reaches past the hunk fails, with the least index that the hunk
    /// lacks.
    pub fn locate_in(&self, diff: &Vec<Hunk>) -> (outcome: Result<Vec<Line>, LocateError>)
        ensures
            outcome_view(outcome) == self.located_in(diff.deep_view()),
            self.hunk >= diff.len() ==> outcome == Err::<Vec<Line>, LocateError>(
                LocateError::HunkIndexOutOfRange,
            ),
            self.hunk < diff.len() && self.is_empty() ==> outcome is Ok && outcome.unwrap().len()
                == 0,
            self.hunk < diff.len() && !self.is_empty() ==> (outcome is Ok <==> self.lines.end
                <= diff[self.hunk as int].lines.len()),
            outcome matches Ok(found) ==> found.len() == self.row_count(),
            outcome matches Ok(found) ==> forall|k: int|
                0 <= k < found.len() ==> (#[trigger] found[k]).deep_view()
                    == diff[self.hunk as int].lines[self.lines.start + k].deep_view(),
            outcome matches Err(LocateError::LineIndexOutOfRange { index }) ==> self.contains(
                index as int,
            ) && index >= diff[self.hunk as int].lines.len() && (index > self.lines.start ==> index
                == diff[self.hunk as int].lines.len()),
    {
        let rows = &self.hunk_in(diff)?.lines;
        let start: usize = self.lines.start;
        let end: usize = self.lines.end;
        let mut found: Vec<Line> = Vec::new();
        if start >= end {
            assert(found.deep_view() =~= Seq::<LineView>::empty());
            return Ok(found);
        }
        if start >= rows.len() {
            return Err(LocateError::LineIndexOutOfRange { index: start });
        }
        if end > rows.len() {
            return Err(LocateError::LineIndexOutOfRange { index: rows.len() });
        }
        let mut i: usize = start;
        while i < end
            invariant
                start <= i <= end <= rows.len(),
                found.len() == i - start,
                forall|k: int|
                    0 <= k < found.len() ==> (#[trigger] found[k]).deep_view() == rows[start
                        + k].deep_view(),
            decreases end - i,
        {
            found.push(rows[i].duplicate());
            i = i + 1;
        }
        assert(found.deep_view() =~= rows.deep_view().subrange(start as int, end as int));
        Ok(found)
    }
}

} // verus!
