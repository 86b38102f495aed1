//! The `stage` command: everything that changed goes into the index.
use vstd::prelude::*;
use crate::action::{
    command_and_backends, dry_run_outcome, follows, one_report, only_tip, report_dry_run, silent,
    spawn_failure, two_reports, work_in_progress_then_tip, Action, Execution, Followup,
};
use crate::cli::{Stage, VCS};
use crate::diagnostics::DiagnosticKind;
use crate::process::{pipeline_of, route, Operation, OperationKind, ProcessResult, SpawnError};
use crate::text::{replace_text, replaced};

verus! {

pub const STAGE_DESCRIPTION: &'static str =
    "This command is intended to stage all modified files in the current local repository ensuring they are ready to be committed. It is smart enough to detect the underlying version control system in which it is being run and execute the associated commands. Additionally, it can be run within any deeply nested subdirectory of the local repository root and will stage all files.";

pub const STAGE_WITH_MERCURIAL: &'static str =
    "Algorithm pseudocode:\n\t1. (Navigate to root of repository)\n\t2. hg add .\n\t3. (Navigate back to invocation directory)";

pub const STAGE_WITH_BREEZY: &'static str =
    "Algorithm pseudocode:\n\t1. (Navigate to root of repository)\n\t2. bzr add .\n\t3. (Navigate back to invocation directory)";

pub const STAGE_TIP: &'static str = "Use `scud commit` to commit any staged changes";

/// The operation that stages, for real or as a dry run.
pub open spec fn stage_operation(dry_run: bool) -> Operation {
    Operation { kind: OperationKind::Stage, dry_run, info_only: false }
}

/// What to report after the dry run of staging: that it was a dry run
/// where the backend ended well, and the failure otherwise.
pub fn execute_stage_dry_run<'a>(result: &'a Result<ProcessResult, SpawnError>) -> (r: Vec<
    DiagnosticKind<'a>,
>)
    ensures
        dry_run_outcome(r@, "stage", "failed to stage (git)", *result),
{
    report_dry_run("stage", "failed to stage (git)", result)
}

/// What `stage` is for, and what each backend runs for it.
pub fn execute_stage_info() -> (r: Vec<DiagnosticKind<'static>>)
    ensures
        command_and_backends(
            r@,
            "stage",
            STAGE_DESCRIPTION,
            "git add -A",
            STAGE_WITH_MERCURIAL,
            STAGE_WITH_BREEZY,
        ),
{
    two_reports(
        DiagnosticKind::ScudCommandInfo { command: "stage", description: STAGE_DESCRIPTION },
        DiagnosticKind::VCSInfo {
            command_name: "stage",
            git_command: "git add -A",
            mercurial_command: STAGE_WITH_MERCURIAL,
            breezy_command: STAGE_WITH_BREEZY,
        },
    )
}

/// What follows `git add -A`: the state of the repository, or the report
/// that Git could not be started.
pub fn execute_stage_git<'a>(added: &'a Result<ProcessResult, SpawnError>) -> (r: Followup<'a>)
    ensures
        follows(r, *added, "failed to stage (git)"),
{
    match added {
        Ok(_) => Followup::ShowState,
        Err(error) => Followup::Report(spawn_failure("failed to stage (git)", error)),
    }
}

/// Staging with Mercurial is unfinished.
pub fn execute_stage_mercurial() -> (r: DiagnosticKind<'static>)
    ensures
        r.is_work_in_progress("scud stage (mercurial)"),
{
    DiagnosticKind::WorkInProgress { feature: "scud stage (mercurial)" }
}

/// Staging with Breezy is unfinished.
pub fn execute_stage_breezy() -> (r: DiagnosticKind<'static>)
    ensures
        r.is_work_in_progress("scud stage (breezy)"),
{
    DiagnosticKind::WorkInProgress { feature: "scud stage (breezy)" }
}

/// What `stage` comes to for each setting of its flags.
pub open spec fn stage_decision(options: Stage, r: Action) -> bool {
    if options.dry_run {
        r is Resolve && r->first@.len() == 0 && r->operation == stage_operation(true)
    } else if options.info {
        r is Report && command_and_backends(
            r->Report_0@,
            "stage",
            STAGE_DESCRIPTION,
            "git add -A",
            STAGE_WITH_MERCURIAL,
            STAGE_WITH_BREEZY,
        )
    } else {
        r is Resolve && r->first@.len() == 0 && r->operation == stage_operation(false)
    }
}

/// Decides what `stage` does: a request for information only informs,
/// and anything else goes to the backend that governs the tree, for real or as
/// a dry run. The dry run goes before the information.
pub fn stage_command(stage_options: Stage) -> (r: Action<'static>)
    ensures
        stage_decision(stage_options, r),
{
    if stage_options.dry_run {
        Action::Resolve {
            first: Vec::new(),
            operation: Operation { kind: OperationKind::Stage, dry_run: true, info_only: false },
        }
    } else if stage_options.info {
        Action::Report(execute_stage_info())
    } else {
        Action::Resolve {
            first: Vec::new(),
            operation: Operation { kind: OperationKind::Stage, dry_run: false, info_only: false },
        }
    }
}

/// What is reported once staging has run on a backend: on Git the tip
/// after staging for real, and nothing after a dry run, whose note follows
/// its own run; on the other backends that staging is unfinished, then the tip.
pub open spec fn stage_reports(reports: Seq<DiagnosticKind>, vcs: VCS, dry_run: bool) -> bool {
    match vcs {
        VCS::Git => if dry_run {
            silent(reports)
        } else {
            only_tip(reports, STAGE_TIP)
        },
        VCS::Mercurial => work_in_progress_then_tip(reports, "scud stage (mercurial)", STAGE_TIP),
        VCS::Breezy => work_in_progress_then_tip(reports, "scud stage (breezy)", STAGE_TIP),
    }
}

/// Staging on a resolved backend, for real or as a dry run: Git runs
/// its pipeline; the other backends report that they are unfinished.
pub fn execute_stage(vcs: VCS, dry_run: bool) -> (r: Execution<'static>)
    ensures
        r.pipeline@ == pipeline_of(stage_operation(dry_run), vcs),
        stage_reports(r.reports@, vcs, dry_run),
{
    let pipeline = route(Operation { kind: OperationKind::Stage, dry_run, info_only: false }, vcs);
    let tip = DiagnosticKind::Tip { body: STAGE_TIP };
    let reports = match vcs {
        VCS::Git => {
            if dry_run {
                Vec::new()
            } else {
                one_report(tip)
            }
        },
        VCS::Mercurial => two_reports(execute_stage_mercurial(), tip),
        VCS::Breezy => two_reports(execute_stage_breezy(), tip),
    };
    Execution { pipeline, reports }
}

/// The short status as it is shown after staging. In a dry run the
/// untracked paths are shown as if they had been added.
pub fn log_staged_status(status: &str, dry_run: bool) -> (r: String)
    ensures
        r@ == if dry_run {
            replaced(status@, "??"@, "A"@)
        } else {
            status@
        },
{
    if dry_run {
        replace_text(status, "??", "A")
    } else {
        status.to_owned()
    }
}

} // verus!
