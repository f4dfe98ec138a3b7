//! The ways a run can fail, each with the path or cause it concerns.
use vstd::prelude::*;

verus! {

/// A failed run: what went wrong, and on which path or with which cause.
pub enum RunError {
    /// The input path does not exist.
    InputNotFound(String),
    /// The input path names a directory.
    InputIsDirectory(String),
    /// The input file could not be opened: path and cause.
    InputOpenFailed(String, String),
    /// The output path names a directory.
    OutputIsDirectory(String),
    /// The output file exists and overwriting was not allowed.
    OutputAlreadyExists(String),
    /// A component of the path is not text.
    UnsupportedPath(String),
    /// A read, a write or a metadata query failed: the cause.
    IoFailure(String),
    /// The conversion engine could not be set up: the cause.
    EngineInitFailure(String),
}

/// The mathematical value of a [`RunError`].
pub enum ErrorView {
    InputNotFound(Seq<char>),
    InputIsDirectory(Seq<char>),
    InputOpenFailed(Seq<char>, Seq<char>),
    OutputIsDirectory(Seq<char>),
    OutputAlreadyExists(Seq<char>),
    UnsupportedPath(Seq<char>),
    IoFailure(Seq<char>),
    EngineInitFailure(Seq<char>),
}

impl View for RunError {
    type V = ErrorView;

    open spec fn view(&self) -> ErrorView {
        match self {
            RunError::InputNotFound(p) => ErrorView::InputNotFound(p@),
            RunError::InputIsDirectory(p) => ErrorView::InputIsDirectory(p@),
            RunError::InputOpenFailed(p, c) => ErrorView::InputOpenFailed(p@, c@),
            RunError::OutputIsDirectory(p) => ErrorView::OutputIsDirectory(p@),
            RunError::OutputAlreadyExists(p) => ErrorView::OutputAlreadyExists(p@),
            RunError::UnsupportedPath(p) => ErrorView::UnsupportedPath(p@),
            RunError::IoFailure(c) => ErrorView::IoFailure(c@),
            RunError::EngineInitFailure(c) => ErrorView::EngineInitFailure(c@),
        }
    }
}

} // verus!
