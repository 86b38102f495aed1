//! The `update` command: the tool brings itself up to date.
use vstd::prelude::*;
use crate::action::{
    only_run_failure, run_failure, run_succeeded, silent, succeeded, two_reports, Action,
};
use crate::cli::Update;
use crate::diagnostics::DiagnosticKind;
use crate::process::{Invocation, ProcessResult, SpawnError};

verus! {

pub const UPDATE_FAILED: &'static str = "Failed to stage files";

pub const NO_NEW_RELEASE: &'static str = "No new release available";

pub const RELEASE_EXAMPLE: &'static str = "A new release of scud is available: 0.3.0 -> 0.6.0";

/// Whether `reports` says that there is nothing newer.
pub open spec fn nothing_newer(reports: Seq<DiagnosticKind>) -> bool {
    reports.len() == 2 && (reports[0] matches DiagnosticKind::Note { body } && body@
        == NO_NEW_RELEASE@) && (reports[1] matches DiagnosticKind::Note { body } && body@
        == RELEASE_EXAMPLE@)
}

/// What the dry run of an update shows.
pub fn execute_update_dry_run() -> (r: String)
    ensures
        r@ == "Dry run"@,
{
    "Dry run".to_owned()
}

/// What `update` shows on request for information.
pub fn execute_update_info() -> (r: String)
    ensures
        r@ == "Info"@,
{
    "Info".to_owned()
}

/// What `update` comes to for each setting of its flags.
pub open spec fn update_decision(options: Update, r: Action) -> bool {
    if options.dry_run {
        r is Print && r->Print_0@ == "Dry run"@
    } else if options.info {
        r is Print && r->Print_0@ == "Info"@
    } else {
        r is CheckForUpdate
    }
}

/// Decides what `update` does: a dry run and a request for information
/// each show their word, and anything else looks for a newer release. The dry
/// run goes before the information.
pub fn update_command(update_options: Update) -> (r: Action<'static>)
    ensures
        update_decision(update_options, r),
{
    if update_options.dry_run {
        Action::Print(execute_update_dry_run())
    } else if update_options.info {
        Action::Print(execute_update_info())
    } else {
        Action::CheckForUpdate
    }
}

/// What follows the look for a newer release: the installation where
/// there is one, and else the word that there is none.
pub fn execute_update(newer_release: bool) -> (r: Action<'static>)
    ensures
        newer_release ==> (r is Install && r->Install_0@ == seq![
            "cargo"@,
            "install"@,
            "scud"@,
            "--force"@,
        ]),
        !newer_release ==> (r is Report && nothing_newer(r->Report_0@)),
{
    if newer_release {
        let install = Invocation::new("cargo").arg("install").arg("scud").arg("--force");
        assert(install@ =~= seq!["cargo"@, "install"@, "scud"@, "--force"@]);
        Action::Install(install)
    } else {
        Action::Report(
            two_reports(
                DiagnosticKind::Note { body: NO_NEW_RELEASE },
                DiagnosticKind::Note { body: RELEASE_EXAMPLE },
            ),
        )
    }
}

/// What to report after the installation: nothing where it ended well,
/// and the failure otherwise.
pub fn execute_update_install<'a>(result: &'a Result<ProcessResult, SpawnError>) -> (r: Vec<
    DiagnosticKind<'a>,
>)
    ensures
        succeeded(*result) ==> silent(r@),
        !succeeded(*result) ==> only_run_failure(r@, UPDATE_FAILED, *result),
{
    if run_succeeded(result) {
        Vec::new()
    } else {
        run_failure(UPDATE_FAILED, result)
    }
}

} // verus!
