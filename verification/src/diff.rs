//! The `diff` command: the working tree against the index.
use vstd::prelude::*;
use crate::action::{one_report, only_work_in_progress, Action, Execution};
use crate::cli::{Diff, VCS};
use crate::diagnostics::DiagnosticKind;
use crate::process::{
    law_looking_changes_nothing, pipeline_of, reads_only, route, Operation, OperationKind,
};

verus! {

/// The diff operation.
pub open spec fn diff_operation() -> Operation {
    Operation { kind: OperationKind::Diff, dry_run: false, info_only: false }
}

/// The diff with Breezy is unfinished.
pub fn execute_diff_breezy() -> (r: DiagnosticKind<'static>)
    ensures
        r.is_work_in_progress("diff (breezy)"),
{
    DiagnosticKind::WorkInProgress { feature: "diff (breezy)" }
}

/// The dry run of a diff is unfinished.
pub fn execute_diff_dry_run() -> (r: DiagnosticKind<'static>)
    ensures
        r.is_work_in_progress("diff (dry run)"),
{
    DiagnosticKind::WorkInProgress { feature: "diff (dry run)" }
}

/// The diff with Git: the one call that compares the working tree with
/// the index, which changes nothing, and the note that the presentation of
/// its result is unfinished.
pub fn execute_diff_git() -> (r: Execution<'static>)
    ensures
        r.pipeline@ == Some(seq![seq!["git"@, "diff"@]]),
        r.pipeline@ == pipeline_of(diff_operation(), VCS::Git),
        reads_only(r.pipeline@),
        only_work_in_progress(r.reports@, "diff (git)"),
{
    proof {
        law_looking_changes_nothing(diff_operation(), VCS::Git);
    }
    Execution {
        pipeline: route(
            Operation { kind: OperationKind::Diff, dry_run: false, info_only: false },
            VCS::Git,
        ),
        reports: one_report(DiagnosticKind::WorkInProgress { feature: "diff (git)" }),
    }
}

/// The information on `diff` is unfinished.
pub fn execute_diff_info() -> (r: DiagnosticKind<'static>)
    ensures
        r.is_work_in_progress("diff (info)"),
{
    DiagnosticKind::WorkInProgress { feature: "diff (info)" }
}

/// The diff with Mercurial is unfinished.
pub fn execute_diff_mercurial() -> (r: DiagnosticKind<'static>)
    ensures
        r.is_work_in_progress("diff (mercurial)"),
{
    DiagnosticKind::WorkInProgress { feature: "diff (mercurial)" }
}

/// What `diff` comes to for each setting of its flag.
pub open spec fn diff_decision(options: Diff, r: Action) -> bool {
    if options.info {
        r is Report && only_work_in_progress(r->Report_0@, "diff (info)")
    } else {
        r is Resolve && r->first@.len() == 0 && r->operation == diff_operation()
    }
}

/// Decides what `diff` does: a request for information only informs, and
/// anything else takes the diff on the backend that governs the tree.
pub fn diff_command(diff_options: Diff) -> (r: Action<'static>)
    ensures
        diff_decision(diff_options, r),
{
    if diff_options.info {
        Action::Report(one_report(execute_diff_info()))
    } else {
        Action::Resolve {
            first: Vec::new(),
            operation: Operation { kind: OperationKind::Diff, dry_run: false, info_only: false },
        }
    }
}

/// The diff on a resolved backend: Git runs its pipeline, whose
/// presentation is still unfinished; the other backends report that they are
/// unfinished and run nothing. Nothing is changed on any of them.
pub fn execute_diff(vcs: VCS) -> (r: Execution<'static>)
    ensures
        r.pipeline@ == pipeline_of(diff_operation(), vcs),
        reads_only(r.pipeline@),
        vcs == VCS::Git ==> only_work_in_progress(r.reports@, "diff (git)"),
        vcs == VCS::Mercurial ==> only_work_in_progress(r.reports@, "diff (mercurial)"),
        vcs == VCS::Breezy ==> only_work_in_progress(r.reports@, "diff (breezy)"),
{
    match vcs {
        VCS::Git => execute_diff_git(),
        VCS::Mercurial => Execution {
            pipeline: route(
                Operation { kind: OperationKind::Diff, dry_run: false, info_only: false },
                vcs,
            ),
            reports: one_report(execute_diff_mercurial()),
        },
        VCS::Breezy => Execution {
            pipeline: route(
                Operation { kind: OperationKind::Diff, dry_run: false, info_only: false },
                vcs,
            ),
            reports: one_report(execute_diff_breezy()),
        },
    }
}

} // verus!
