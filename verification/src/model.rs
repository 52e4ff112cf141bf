//! The shape of a diff: hunks in file order, each a run of rows.

use vstd::prelude::*;

verus! {

/// How a row of a diff relates to the two sides that were compared.
#[derive(Clone, Copy, Debug, PartialEq, Eq, Structural)]
pub enum Origin {
    /// The row stands on both sides.
    Context,
    /// The row stands on the new side only.
    Addition,
    /// The row stands on the old side only.
    Deletion,
}

impl Origin {
    /// The origin that a diff engine's one-character sigil stands for.
    ///
    /// `+` and `-` mark an added and a removed row. `>` and `<` are the
    /// sigils that libgit2 gives to what it calls an addition and a removal
    /// at the end of the file, the rows that only note a missing final
    /// newline; they count with `+` and `-`. A blank, `=` (context at the
    /// end of the file) and any other character count as context.
    pub open spec fn of_sigil(sigil: char) -> Origin {
        if sigil == '+' || sigil == '>' {
            Origin::Addition
        } else if sigil == '-' || sigil == '<' {
            Origin::Deletion
        } else {
            Origin::Context
        }
    }

    /// Classifies a row by the sigil that the diff engine gave it.
    pub fn from_sigil(sigil: char) -> (origin: Origin)
        ensures
            origin == Origin::of_sigil(sigil),
    {
        if sigil == '+' || sigil == '>' {
            Origin::Addition
        } else if sigil == '-' || sigil == '<' {
            Origin::Deletion
        } else {
            Origin::Context
        }
    }
}

/// One row of a hunk, as a mathematical value.
pub struct LineView {
    pub sigil: char,
    pub content: Seq<u8>,
}

impl LineView {
    /// How the row relates to the two sides.
    pub open spec fn origin(self) -> Origin {
        Origin::of_sigil(self.sigil)
    }
}

/// One row of a hunk: the sigil that the diff engine gave it, and its bytes
/// without any prefix.
#[derive(Clone, Debug, PartialEq, Eq)]
pub struct Line {
    pub sigil: char,
    pub content: Vec<u8>,
}

impl DeepView for Line {
    type V = LineView;

    open spec fn deep_view(&self) -> LineView {
        LineView { sigil: self.sigil, content: self.content@ }
    }
}

impl Line {
    /// How the row relates to the two sides.
    pub fn origin(&self) -> (origin: Origin)
        ensures
            origin == self.deep_view().origin(),
    {
        Origin::from_sigil(self.sigil)
    }

    /// A copy of this row.
    pub fn duplicate(&self) -> (copy: Line)
        ensures
            copy.deep_view() == self.deep_view(),
    {
        Line { sigil: self.sigil, content: self.content.clone() }
    }
}

/// The line numbers in a hunk's header: for display, not for addressing.
#[derive(Clone, Copy, Debug, PartialEq, Eq, Structural)]
pub struct HunkHeader {
    /// First line of the region on the old side.
    pub old_start: u32,
    /// Number of lines of the region on the old side.
    pub old_lines: u32,
    /// First line of the region on the new side.
    pub new_start: u32,
    /// Number of lines of the region on the new side.
    pub new_lines: u32,
}

/// One hunk of a diff, as a mathematical value.
pub struct HunkView {
    pub header: HunkHeader,
    pub lines: Seq<LineView>,
}

/// A contiguous region of a diff: its header and its rows in order. A
/// row's index is its position in `lines`, from 0; a hunk's index is its
/// position in the diff.
#[derive(Clone, Debug, PartialEq, Eq)]
pub struct Hunk {
    pub header: HunkHeader,
    pub lines: Vec<Line>,
}

impl DeepView for Hunk {
    type V = HunkView;

    open spec fn deep_view(&self) -> HunkView {
        HunkView { header: self.header, lines: self.lines.deep_view() }
    }
}

} // verus!
