//! The `unstage` command: everything leaves the index again.
use vstd::prelude::*;
use crate::action::{
    dry_run_outcome, follows, one_report, only_tip, report_dry_run, silent, spawn_failure,
    two_reports, work_in_progress_then_tip, Action, Execution, Followup,
};
use crate::cli::{Unstage, VCS};
use crate::diagnostics::DiagnosticKind;
use crate::process::{pipeline_of, route, Operation, OperationKind, ProcessResult, SpawnError};

verus! {

pub const UNSTAGE_DESCRIPTION: &'static str =
    "This command is intended to unstage all modified files in the current local repository ensuring they are ready to be committed. It is smart enough to detect the underlying version control system in which it is being run and execute the associated commands. Additionally, it can be run within any deeply nested subdirectory of the local repository root and will unstage all modified files and directories within the current repository.";

pub const UNSTAGE_TIP: &'static str =
    "When you're ready, use `scud stage` to stage all unstaged changes and untracked files for commit";

/// The operation that unstages, for real or as a dry run.
pub open spec fn unstage_operation(dry_run: bool) -> Operation {
    Operation { kind: OperationKind::Unstage, dry_run, info_only: false }
}

/// What follows `git reset`: the state of the repository, or the report
/// that Git could not be started.
pub fn execute_unstage_git<'a>(reset: &'a Result<ProcessResult, SpawnError>) -> (r: Followup<'a>)
    ensures
        follows(r, *reset, "failed to stage (git)"),
{
    match reset {
        Ok(_) => Followup::ShowState,
        Err(error) => Followup::Report(spawn_failure("failed to stage (git)", error)),
    }
}

/// Unstaging with Mercurial is unfinished.
pub fn execute_unstage_mercurial() -> (r: DiagnosticKind<'static>)
    ensures
        r.is_work_in_progress("scud unstage (mercurial)"),
{
    DiagnosticKind::WorkInProgress { feature: "scud unstage (mercurial)" }
}

/// Unstaging with Breezy is unfinished.
pub fn execute_unstage_breezy() -> (r: DiagnosticKind<'static>)
    ensures
        r.is_work_in_progress("scud unstage (breezy)"),
{
    DiagnosticKind::WorkInProgress { feature: "scud unstage (breezy)" }
}

/// What to report after the dry run of unstaging: that it was a dry run
/// where the backend ended well, and the failure otherwise.
pub fn execute_unstage_dry_run<'a>(result: &'a Result<ProcessResult, SpawnError>) -> (r: Vec<
    DiagnosticKind<'a>,
>)
    ensures
        dry_run_outcome(r@, "unstage", "failed to stage (git)", *result),
{
    report_dry_run("unstage", "failed to stage (git)", result)
}

/// On request for information `unstage` has nothing to say.
pub fn execute_unstage_info() -> (r: Vec<DiagnosticKind<'static>>)
    ensures
        silent(r@),
{
    Vec::new()
}

/// What `unstage` comes to for each setting of its flags.
pub open spec fn unstage_decision(options: Unstage, r: Action) -> bool {
    if options.dry_run {
        r is Resolve && r->first@.len() == 0 && r->operation == unstage_operation(true)
    } else if options.info {
        r is Report && silent(r->Report_0@)
    } else {
        r is Resolve && r->first@.len() == 1 && r->first@[0].is_scud_command_info(
            "unstage",
            UNSTAGE_DESCRIPTION,
        ) && r->operation == unstage_operation(false)
    }
}

/// Decides what `unstage` does: a request for information stays silent,
/// a dry run goes to the backend that governs the tree in the form that
/// changes nothing, and anything else describes the command and then unstages
/// there. The dry run goes before the information.
pub fn unstage_command(unstage_options: Unstage) -> (r: Action<'static>)
    ensures
        unstage_decision(unstage_options, r),
{
    if unstage_options.dry_run {
        Action::Resolve {
            first: Vec::new(),
            operation: Operation { kind: OperationKind::Unstage, dry_run: true, info_only: false },
        }
    } else if unstage_options.info {
        Action::Report(execute_unstage_info())
    } else {
        Action::Resolve {
            first: one_report(
                DiagnosticKind::ScudCommandInfo {
                    command: "unstage",
                    description: UNSTAGE_DESCRIPTION,
                },
            ),
            operation: Operation {
                kind: OperationKind::Unstage,
                dry_run: false,
                info_only: false,
            },
        }
    }
}

/// What is reported once unstaging has run on a backend: on Git the tip
/// after unstaging for real, and nothing after a dry run, whose note follows
/// its own run; on the other backends that unstaging is unfinished, then the tip.
pub open spec fn unstage_reports(reports: Seq<DiagnosticKind>, vcs: VCS, dry_run: bool) -> bool {
    match vcs {
        VCS::Git => if dry_run {
            silent(reports)
        } else {
            only_tip(reports, UNSTAGE_TIP)
        },
        VCS::Mercurial => work_in_progress_then_tip(
            reports,
            "scud unstage (mercurial)",
            UNSTAGE_TIP,
        ),
        VCS::Breezy => work_in_progress_then_tip(reports, "scud unstage (breezy)", UNSTAGE_TIP),
    }
}

/// Unstaging on a resolved backend, for real or as a dry run: Git runs
/// its pipeline; the other backends report that they are unfinished.
pub fn execute_unstage(vcs: VCS, dry_run: bool) -> (r: Execution<'static>)
    ensures
        r.pipeline@ == pipeline_of(unstage_operation(dry_run), vcs),
        unstage_reports(r.reports@, vcs, dry_run),
{
    let pipeline = route(
        Operation { kind: OperationKind::Unstage, dry_run, info_only: false },
        vcs,
    );
    let tip = DiagnosticKind::Tip { body: UNSTAGE_TIP };
    let reports = match vcs {
        VCS::Git => {
            if dry_run {
                Vec::new()
            } else {
                one_report(tip)
            }
        },
        VCS::Mercurial => two_reports(execute_unstage_mercurial(), tip),
        VCS::Breezy => two_reports(execute_unstage_breezy(), tip),
    };
    Execution { pipeline, reports }
}

} // verus!
