//! The failures of path queries and typed reads.
use vstd::prelude::*;

verus! {

/// Failure of a path query or of the conversion of a leaf's text.
#[derive(Debug, PartialEq, Eq)]
pub enum TraversalError {
    /// A required segment had no matching child element.
    PathNotFound(String),
    /// More than one sibling matched a segment that had to be unique.
    MultipleNode(String),
    /// A leaf's text could not be converted to the requested type.
    ConversionFailed(String),
    /// A leaf had no text (kept for callers; the text reader never raises it).
    TextNotFound,
}

/// The mathematical counterpart of `TraversalError`, with the segment or
/// text held as a sequence of characters.
pub enum Fault {
    PathNotFound(Seq<char>),
    MultipleNode(Seq<char>),
    ConversionFailed(Seq<char>),
    TextNotFound,
}

impl View for TraversalError {
    type V = Fault;

    open spec fn view(&self) -> Fault {
        match self {
            TraversalError::PathNotFound(s) => Fault::PathNotFound(s@),
            TraversalError::MultipleNode(s) => Fault::MultipleNode(s@),
            TraversalError::ConversionFailed(s) => Fault::ConversionFailed(s@),
            TraversalError::TextNotFound => Fault::TextNotFound,
        }
    }
}

} // verus!
