//! Checks on the input and output paths before any output is written.
use vstd::prelude::*;
use crate::error::{ErrorView, RunError};
use crate::text::owned;

verus! {

/// What was found when the input path was looked up and opened.
pub enum InputProbe {
    /// The path names a directory.
    Directory,
    /// Nothing exists at the path.
    Missing,
    /// Opening the file for reading failed, for this cause.
    OpenFailed(String),
    /// The file is open for reading.
    Opened,
}

/// What a metadata query on the output path returned.
pub enum OutputProbe {
    /// Nothing exists at the path.
    Missing,
    /// The path names a directory.
    Directory,
    /// The path names an existing file.
    File,
    /// The query failed for another reason than absence, for this cause.
    Failed(String),
}

/// The outcome that the input check owes for `probe` on `path`.
pub open spec fn input_verdict(path: Seq<char>, probe: InputProbe) -> Result<(), ErrorView> {
    match probe {
        InputProbe::Directory => Err(ErrorView::InputIsDirectory(path)),
        InputProbe::Missing => Err(ErrorView::InputNotFound(path)),
        InputProbe::OpenFailed(cause) => Err(ErrorView::InputOpenFailed(path, cause@)),
        InputProbe::Opened => Ok(()),
    }
}

/// The outcome that the overwrite guard owes for `probe` on `path`.
pub open spec fn output_verdict(path: Seq<char>, probe: OutputProbe, force: bool) -> Result<(), ErrorView> {
    match probe {
        OutputProbe::Missing => Ok(()),
        OutputProbe::Directory => Err(ErrorView::OutputIsDirectory(path)),
        OutputProbe::File => if force {
            Ok(())
        } else {
            Err(ErrorView::OutputAlreadyExists(path))
        },
        OutputProbe::Failed(cause) => Err(ErrorView::IoFailure(cause@)),
    }
}

/// The view of a result that carries no value on success.
pub open spec fn unit_result_view(r: Result<(), RunError>) -> Result<(), ErrorView> {
    match r {
        Ok(()) => Ok(()),
        Err(e) => Err(e@),
    }
}

/// Decides whether the run may read from the input at `path`: a directory,
/// a missing path or a failed open each end the run.
pub fn check_input(path: &str, probe: InputProbe) -> (r: Result<(), RunError>)
    ensures
        unit_result_view(r) == input_verdict(path@, probe),
{
    match probe {
        InputProbe::Directory => Err(RunError::InputIsDirectory(owned(path))),
        InputProbe::Missing => Err(RunError::InputNotFound(owned(path))),
        InputProbe::OpenFailed(cause) => Err(RunError::InputOpenFailed(owned(path), cause)),
        InputProbe::Opened => Ok(()),
    }
}

/// Decides whether the output at `path` may be written: an absent path
/// passes, a directory never does, an existing file only with `force`, and a
/// failed query is passed on as an I/O failure.
pub fn check_output(path: &str, probe: OutputProbe, force: bool) -> (r: Result<(), RunError>)
    ensures
        unit_result_view(r) == output_verdict(path@, probe, force),
{
    match probe {
        OutputProbe::Missing => Ok(()),
        OutputProbe::Directory => Err(RunError::OutputIsDirectory(owned(path))),
        OutputProbe::File => {
            if force {
                Ok(())
            } else {
                Err(RunError::OutputAlreadyExists(owned(path)))
            }
        },
        OutputProbe::Failed(cause) => Err(RunError::IoFailure(cause)),
    }
}

} // verus!
