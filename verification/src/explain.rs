//! What the user is told when an operation fails.
use vstd::prelude::*;
use crate::action::{one_report, two_reports};
use crate::diagnostics::DiagnosticKind;
use crate::error::ScudError;

verus! {

pub const NO_BACKEND: &'static str =
    "Could not detect a valid version control system (Supported VCSs are: Git, Mercurial, and Breezy)";

pub const NO_BACKEND_BODY: &'static str =
    "Scud's declarative, high-level operations on top of the underlying VCS are intended to be used with a supported version control system.";

pub const NO_BACKEND_TIP: &'static str =
    "To get started using scud's declarative, high-level operations on top of the underlying VCS, try using `scud init` to initialize a new project with your desired VCS";

pub const NOTHING_STAGED: &'static str = "Attempting to commit without any staged changes";

pub const NOTHING_STAGED_BODY: &'static str =
    "Please stage your changes before going through the commit process";

pub const NOTHING_STAGED_TIP: &'static str =
    "Use `scud stage` to stage all unstaged changes and untracked files for commit";

pub const SUBJECT_TOO_LONG: &'static str = "Invalid subject length";

pub const SUBJECT_TOO_LONG_BODY: &'static str =
    "Provided subject exceeds character limit, please specify a subject with less than the maximum character limit";

pub const NOT_STARTED: &'static str = "The backend could not be started";

pub const NOT_STARTED_BODY: &'static str =
    "Its binary is missing or may not be run. Install the backend and make sure it is found in PATH.";

pub const NOT_SUPPORTED: &'static str = "this operation on the detected version control system";

/// Whether an error ends the operation. The others are dealt with where they arise.
pub open spec fn fatal(error: ScudError) -> bool {
    error != ScudError::InvalidSubjectLength && error != ScudError::MalformedStatusLine
}

/// Whether `reports` is what the user is told about `error`: an error and
/// a way out where no backend was found or nothing is staged; an error alone
/// for a backend that did not start and for a subject that is too long; the
/// note that the combination is unfinished; and nothing for a status line
/// that cannot be read.
pub open spec fn explains(reports: Seq<DiagnosticKind>, error: ScudError) -> bool {
    match error {
        ScudError::NoBackendDetected => reports.len() == 2 && reports[0].is_error(
            NO_BACKEND,
            NO_BACKEND_BODY,
        ) && reports[1].is_tip(NO_BACKEND_TIP),
        ScudError::SpawnError => reports.len() == 1 && reports[0].is_error(
            NOT_STARTED,
            NOT_STARTED_BODY,
        ),
        ScudError::UnsupportedCombination => reports.len() == 1
            && reports[0].is_work_in_progress(NOT_SUPPORTED),
        ScudError::NoStagedChanges => reports.len() == 2 && reports[0].is_error(
            NOTHING_STAGED,
            NOTHING_STAGED_BODY,
        ) && reports[1].is_tip(NOTHING_STAGED_TIP),
        ScudError::InvalidSubjectLength => reports.len() == 1 && reports[0].is_error(
            SUBJECT_TOO_LONG,
            SUBJECT_TOO_LONG_BODY,
        ),
        ScudError::MalformedStatusLine => reports.len() == 0,
    }
}

/// Whether an error ends the operation.
pub fn is_fatal(error: ScudError) -> (r: bool)
    ensures
        r == fatal(error),
{
    match error {
        ScudError::InvalidSubjectLength => false,
        ScudError::MalformedStatusLine => false,
        _ => true,
    }
}

/// The status with which the program ends after `error`: one where the
/// error ends the operation, zero where it does not.
pub fn exit_status(error: ScudError) -> (r: i32)
    ensures
        r == if fatal(error) { 1i32 } else { 0i32 },
{
    if is_fatal(error) {
        1
    } else {
        0
    }
}

/// What the user is told about an error.
pub fn explain(error: ScudError) -> (r: Vec<DiagnosticKind<'static>>)
    ensures
        explains(r@, error),
{
    match error {
        ScudError::NoBackendDetected => two_reports(
            DiagnosticKind::Error { subject: NO_BACKEND, body: NO_BACKEND_BODY },
            DiagnosticKind::Tip { body: NO_BACKEND_TIP },
        ),
        ScudError::SpawnError => one_report(
            DiagnosticKind::Error { subject: NOT_STARTED, body: NOT_STARTED_BODY },
        ),
        ScudError::UnsupportedCombination => one_report(
            DiagnosticKind::WorkInProgress { feature: NOT_SUPPORTED },
        ),
        ScudError::NoStagedChanges => two_reports(
            DiagnosticKind::Error { subject: NOTHING_STAGED, body: NOTHING_STAGED_BODY },
            DiagnosticKind::Tip { body: NOTHING_STAGED_TIP },
        ),
        ScudError::InvalidSubjectLength => one_report(
            DiagnosticKind::Error { subject: SUBJECT_TOO_LONG, body: SUBJECT_TOO_LONG_BODY },
        ),
        ScudError::MalformedStatusLine => Vec::new(),
    }
}

} // verus!
