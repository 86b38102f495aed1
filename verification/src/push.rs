//! The `push` command: the local commits go to the remote repository.
use vstd::prelude::*;
use crate::action::{
    one_report, only_dry_run, only_run_failure, run_failure, run_succeeded, silent, succeeded,
    Action, Execution,
};
use crate::cli::{Push, VCS};
use crate::diagnostics::DiagnosticKind;
use crate::process::{pipeline_of, route, Operation, OperationKind, ProcessResult, SpawnError};

verus! {

pub const PUSH_FAILED: &'static str = "Failed to push files";

/// The push operation, for real or as a dry run.
pub open spec fn push_operation(dry_run: bool) -> Operation {
    Operation { kind: OperationKind::Push, dry_run, info_only: false }
}

/// What to report after the dry run of a push: that it was a dry run
/// where the backend ended well, and the failure otherwise.
pub fn execute_push_dry_run<'a>(result: &'a Result<ProcessResult, SpawnError>) -> (r: Vec<
    DiagnosticKind<'a>,
>)
    ensures
        succeeded(*result) ==> only_dry_run(r@, "push"),
        !succeeded(*result) ==> only_run_failure(r@, PUSH_FAILED, *result),
{
    if run_succeeded(result) {
        one_report(DiagnosticKind::DryRun { command: "push" })
    } else {
        run_failure(PUSH_FAILED, result)
    }
}

/// What to report after a push: nothing where the backend ended well, and
/// the failure otherwise.
pub fn execute_push<'a>(result: &'a Result<ProcessResult, SpawnError>) -> (r: Vec<
    DiagnosticKind<'a>,
>)
    ensures
        succeeded(*result) ==> silent(r@),
        !succeeded(*result) ==> only_run_failure(r@, PUSH_FAILED, *result),
{
    if run_succeeded(result) {
        Vec::new()
    } else {
        run_failure(PUSH_FAILED, result)
    }
}

/// On request for information `push` has nothing to say.
pub fn execute_push_info() -> (r: Vec<DiagnosticKind<'static>>)
    ensures
        silent(r@),
{
    Vec::new()
}

/// What `push` comes to for each setting of its flags.
pub open spec fn push_decision(options: Push, r: Action) -> bool {
    if options.dry_run {
        r is Resolve && r->first@.len() == 0 && r->operation == push_operation(true)
    } else if options.info {
        r is Report && silent(r->Report_0@)
    } else {
        r is Resolve && r->first@.len() == 0 && r->operation == push_operation(false)
    }
}

/// Decides what `push` does: a dry run pushes in the form that changes
/// nothing, a request for information stays silent, and anything else pushes.
/// The dry run goes before the information.
pub fn push_command(push_options: Push) -> (r: Action<'static>)
    ensures
        push_decision(push_options, r),
{
    if push_options.dry_run {
        Action::Resolve {
            first: Vec::new(),
            operation: Operation { kind: OperationKind::Push, dry_run: true, info_only: false },
        }
    } else if push_options.info {
        Action::Report(execute_push_info())
    } else {
        Action::Resolve {
            first: Vec::new(),
            operation: Operation { kind: OperationKind::Push, dry_run: false, info_only: false },
        }
    }
}

/// Pushing on a resolved backend. Nothing is reported before the backend has run.
pub fn route_push(vcs: VCS, dry_run: bool) -> (r: Execution<'static>)
    ensures
        r.pipeline@ == pipeline_of(push_operation(dry_run), vcs),
        silent(r.reports@),
{
    Execution {
        pipeline: route(Operation { kind: OperationKind::Push, dry_run, info_only: false }, vcs),
        reports: Vec::new(),
    }
}

} // verus!
