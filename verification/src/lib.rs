//! Stable addresses into the diff between two revisions of a text file.
//!
//! A [`DiffSelection`] names a hunk of a diff and a range of rows in it.
//! Resolving it against the diff of two contents gives the rows it
//! designates, or says why it designates none.

pub mod engine;
pub mod error;
pub mod laws;
pub mod location;
pub mod model;
pub mod selection;

pub use engine::diff;
pub use error::{LocateError, ResolutionError};
pub use location::DiffLocation;
pub use model::{Hunk, HunkHeader, HunkView, Line, LineView, Origin};
pub use selection::DiffSelection;
