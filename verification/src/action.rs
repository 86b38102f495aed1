//! What a command asks of the program around the library.
use vstd::prelude::*;
use crate::diagnostics::DiagnosticKind;
use crate::process::{CommandPipeline, Invocation, Operation, ProcessResult, SpawnError};

verus! {

/// The first thing to do for a command line.
#[derive(Debug, PartialEq, Eq)]
pub enum Action<'a> {
    /// Emit the reports; nothing else is done.
    Report(Vec<DiagnosticKind<'a>>),
    /// Emit the reports, resolve the backend, and carry the operation out on it.
    Resolve { first: Vec<DiagnosticKind<'a>>, operation: Operation },
    /// Run the program that describes the codebase, and show what it wrote.
    Describe(Invocation),
    /// Run the program that installs the newer release.
    Install(Invocation),
    /// Run every program of the pipeline, whether or not the one before it could be started.
    Probe(CommandPipeline),
    /// Ask the user which of the information commands is meant.
    AskInfoCommand,
    /// Ask the user which backend the new repository shall have, after this announcement.
    AskBackend(String),
    /// Look for a newer release and install it.
    CheckForUpdate,
    /// Show the text as it is.
    Print(String),
}

/// What an operation comes to on a resolved backend: the pipeline to run,
/// and the reports to emit once it has run and its results were shown.
#[derive(Debug, PartialEq, Eq)]
pub struct Execution<'a> {
    pub pipeline: CommandPipeline,
    pub reports: Vec<DiagnosticKind<'a>>,
}

/// What follows a change to the index.
#[derive(Debug, PartialEq, Eq)]
pub enum Followup<'a> {
    /// The change went through: show the state of the repository.
    ShowState,
    /// The backend could not be started.
    Report(DiagnosticKind<'a>),
}

/// Whether `reports` holds nothing.
pub open spec fn silent(reports: Seq<DiagnosticKind>) -> bool {
    reports.len() == 0
}

/// Whether `reports` is the single note that `feature` is unfinished.
pub open spec fn only_work_in_progress(reports: Seq<DiagnosticKind>, feature: &str) -> bool {
    reports.len() == 1 && reports[0].is_work_in_progress(feature)
}

/// Whether `reports` is the single note that `command` was only rehearsed.
pub open spec fn only_dry_run(reports: Seq<DiagnosticKind>, command: &str) -> bool {
    reports.len() == 1 && reports[0].is_dry_run(command)
}

/// Whether `reports` is the single tip with this body.
pub open spec fn only_tip(reports: Seq<DiagnosticKind>, body: &str) -> bool {
    reports.len() == 1 && reports[0].is_tip(body)
}

/// Whether `reports` is the note that `feature` is unfinished, then the tip with this body.
pub open spec fn work_in_progress_then_tip(
    reports: Seq<DiagnosticKind>,
    feature: &str,
    body: &str,
) -> bool {
    reports.len() == 2 && reports[0].is_work_in_progress(feature) && reports[1].is_tip(body)
}

/// Whether `reports` describes a command and lists the backend commands behind it.
pub open spec fn command_and_backends(
    reports: Seq<DiagnosticKind>,
    command: &str,
    description: &str,
    git_command: &str,
    mercurial_command: &str,
    breezy_command: &str,
) -> bool {
    reports.len() == 2 && reports[0].is_scud_command_info(command, description)
        && reports[1].is_vcs_info(command, git_command, mercurial_command, breezy_command)
}

/// Whether `followup` carries on to the state where the backend started,
/// and else reports the failure under `subject`.
pub open spec fn follows(
    followup: Followup,
    result: Result<ProcessResult, SpawnError>,
    subject: &str,
) -> bool {
    match result {
        Ok(_) => followup is ShowState,
        Err(error) => followup matches Followup::Report(report) && (report matches DiagnosticKind::Error {
            subject: s,
            body: b,
        } && s@ == subject@ && b@ == error.message@),
    }
}

/// A list that holds one report.
pub fn one_report<'a>(report: DiagnosticKind<'a>) -> (r: Vec<DiagnosticKind<'a>>)
    ensures
        r@ == seq![report],
{
    let mut out: Vec<DiagnosticKind<'a>> = Vec::new();
    out.push(report);
    assert(out@ =~= seq![report]);
    out
}

/// A list that holds two reports.
pub fn two_reports<'a>(first: DiagnosticKind<'a>, second: DiagnosticKind<'a>) -> (r: Vec<
    DiagnosticKind<'a>,
>)
    ensures
        r@ == seq![first, second],
{
    let mut out: Vec<DiagnosticKind<'a>> = Vec::new();
    out.push(first);
    out.push(second);
    assert(out@ =~= seq![first, second]);
    out
}

/// The error report for a backend that could not be started.
pub fn spawn_failure<'a>(subject: &'a str, error: &'a SpawnError) -> (r: DiagnosticKind<'a>)
    ensures
        r matches DiagnosticKind::Error { subject: s, body: b } && s@ == subject@ && b@
            == error.message@,
{
    DiagnosticKind::Error { subject, body: error.message.as_str() }
}

/// Whether the program ran and ended with status zero.
pub open spec fn succeeded(result: Result<ProcessResult, SpawnError>) -> bool {
    result matches Ok(done) && done.exit_status == 0
}

/// Whether `reports` is the single error under `subject` for a run that
/// did not end well: with the words of the failure where the program could
/// not be started, and with an empty body where it ran and failed.
pub open spec fn only_run_failure(
    reports: Seq<DiagnosticKind>,
    subject: &str,
    result: Result<ProcessResult, SpawnError>,
) -> bool {
    reports.len() == 1 && match result {
        Ok(_) => reports[0].is_error(subject, ""),
        Err(error) => (reports[0] matches DiagnosticKind::Error { subject: s, body: b } && s@
            == subject@ && b@ == error.message@),
    }
}

/// Whether the program ran and ended with status zero.
pub fn run_succeeded(result: &Result<ProcessResult, SpawnError>) -> (r: bool)
    ensures
        r == succeeded(*result),
{
    match result {
        Ok(done) => done.exit_status == 0,
        Err(_) => false,
    }
}

/// The status with which the program ends after a run: zero where the
/// run ended well, one where it did not.
pub fn run_exit_status(result: &Result<ProcessResult, SpawnError>) -> (r: i32)
    ensures
        r == if succeeded(*result) { 0i32 } else { 1i32 },
{
    if run_succeeded(result) {
        0
    } else {
        1
    }
}

/// What to report after a dry run: that it was a dry run of `command`
/// where the backend ended well, and the failure under `subject` otherwise.
pub open spec fn dry_run_outcome(
    reports: Seq<DiagnosticKind>,
    command: &str,
    subject: &str,
    result: Result<ProcessResult, SpawnError>,
) -> bool {
    if succeeded(result) {
        only_dry_run(reports, command)
    } else {
        only_run_failure(reports, subject, result)
    }
}

/// What to report after a dry run.
pub fn report_dry_run<'a>(
    command: &'a str,
    subject: &'a str,
    result: &'a Result<ProcessResult, SpawnError>,
) -> (r: Vec<DiagnosticKind<'a>>)
    ensures
        dry_run_outcome(r@, command, subject, *result),
{
    if run_succeeded(result) {
        one_report(DiagnosticKind::DryRun { command })
    } else {
        run_failure(subject, result)
    }
}

/// The report of a run that did not end well.
pub fn run_failure<'a>(subject: &'a str, result: &'a Result<ProcessResult, SpawnError>) -> (r:
    Vec<DiagnosticKind<'a>>)
    ensures
        only_run_failure(r@, subject, *result),
{
    match result {
        Ok(_) => one_report(DiagnosticKind::Error { subject, body: "" }),
        Err(error) => one_report(spawn_failure(subject, error)),
    }
}

} // verus!
