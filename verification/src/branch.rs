//! The `branch` command and its subcommands, and the reading of the
//! backend's list of branches.
use vstd::prelude::*;
use crate::action::{
    command_and_backends, one_report, only_work_in_progress, silent, spawn_failure, two_reports,
    Action, Execution,
};
use crate::cli::{Branch, BranchCommands, BranchList, VCS};
use crate::diagnostics::DiagnosticKind;
use crate::process::{
    law_looking_changes_nothing, pipeline_of, reads_only, route, Invocation, Operation,
    OperationKind, SpawnError,
};
use crate::text::{
    after_last, chars_of, contains_text, find_after_last, occurs_in, pieces_of, replace_text,
    replaced, slice_of, split_on, texts_view, trim_text, trimmed,
};

verus! {

pub const BRANCH_DESCRIPTION: &'static str =
    "This command is used to list branches in both the local and remote repositories.";

pub const BRANCH_WITH_GIT: &'static str =
    "git branch -A (along with other commands for more rich output)";

pub const BRANCH_WITH_MERCURIAL: &'static str =
    "hg branches (along with other commands for more rich output)";

pub const BRANCH_WITH_BREEZY: &'static str =
    "bzr branches (along with other commands for more rich output)";

/// The operation that lists the branches.
pub open spec fn branch_list_operation() -> Operation {
    Operation { kind: OperationKind::BranchList, dry_run: false, info_only: false }
}

/// What `branch` is for, and what each backend runs for it.
pub fn execute_branch_info() -> (r: Vec<DiagnosticKind<'static>>)
    ensures
        command_and_backends(
            r@,
            "branch",
            BRANCH_DESCRIPTION,
            BRANCH_WITH_GIT,
            BRANCH_WITH_MERCURIAL,
            BRANCH_WITH_BREEZY,
        ),
{
    two_reports(
        DiagnosticKind::ScudCommandInfo { command: "branch", description: BRANCH_DESCRIPTION },
        DiagnosticKind::VCSInfo {
            command_name: "branch",
            git_command: BRANCH_WITH_GIT,
            mercurial_command: BRANCH_WITH_MERCURIAL,
            breezy_command: BRANCH_WITH_BREEZY,
        },
    )
}

/// `branch` without a subcommand and without flags does nothing.
pub fn execute_branch() -> (r: Vec<DiagnosticKind<'static>>)
    ensures
        silent(r@),
{
    Vec::new()
}

/// `branch` with Mercurial is unfinished.
pub fn execute_branch_mercurial() -> (r: DiagnosticKind<'static>)
    ensures
        r.is_work_in_progress("scud branch (mercurial)"),
{
    DiagnosticKind::WorkInProgress { feature: "scud branch (mercurial)" }
}

/// `branch` with Breezy is unfinished.
pub fn execute_branch_breezy() -> (r: DiagnosticKind<'static>)
    ensures
        r.is_work_in_progress("scud branch (breezy)"),
{
    DiagnosticKind::WorkInProgress { feature: "scud branch (breezy)" }
}

/// `branch` without a subcommand: informs, or does nothing.
pub fn branch_command(info: bool) -> (r: Action<'static>)
    ensures
        info ==> (r is Report && command_and_backends(
            r->Report_0@,
            "branch",
            BRANCH_DESCRIPTION,
            BRANCH_WITH_GIT,
            BRANCH_WITH_MERCURIAL,
            BRANCH_WITH_BREEZY,
        )),
        !info ==> (r is Report && silent(r->Report_0@)),
{
    if info {
        Action::Report(execute_branch_info())
    } else {
        Action::Report(execute_branch())
    }
}

/// The list of branches with Breezy is unfinished.
pub fn execute_branch_list_breezy() -> (r: DiagnosticKind<'static>)
    ensures
        r.is_work_in_progress("branch list (breezy)"),
{
    DiagnosticKind::WorkInProgress { feature: "branch list (breezy)" }
}

/// The list of branches with Git: the one call that lists every branch,
/// which changes nothing, and the note that the feature is unfinished.
pub fn execute_branch_list_git() -> (r: Execution<'static>)
    ensures
        r.pipeline@ == Some(seq![seq!["git"@, "branch"@, "-a"@]]),
        r.pipeline@ == pipeline_of(branch_list_operation(), VCS::Git),
        reads_only(r.pipeline@),
        only_work_in_progress(r.reports@, "branch list (git)"),
{
    proof {
        law_looking_changes_nothing(branch_list_operation(), VCS::Git);
    }
    Execution {
        pipeline: route(
            Operation { kind: OperationKind::BranchList, dry_run: false, info_only: false },
            VCS::Git,
        ),
        reports: one_report(DiagnosticKind::WorkInProgress { feature: "branch list (git)" }),
    }
}

/// The information on `branch list` is unfinished.
pub fn execute_branch_list_info() -> (r: DiagnosticKind<'static>)
    ensures
        r.is_work_in_progress("branch list (info)"),
{
    DiagnosticKind::WorkInProgress { feature: "branch list (info)" }
}

/// The list of branches with Mercurial is unfinished.
pub fn execute_branch_list_mercurial() -> (r: DiagnosticKind<'static>)
    ensures
        r.is_work_in_progress("branch list (mercurial)"),
{
    DiagnosticKind::WorkInProgress { feature: "branch list (mercurial)" }
}

/// Decides what `branch list` does: a request for information only
/// informs, and anything else lists on the backend that governs the tree.
pub fn branch_list_command(branch_list_options: BranchList) -> (r: Action<'static>)
    ensures
        branch_list_options.info ==> (r is Report && only_work_in_progress(
            r->Report_0@,
            "branch list (info)",
        )),
        !branch_list_options.info ==> (r is Resolve && r->first@.len() == 0 && r->operation
            == branch_list_operation()),
{
    if branch_list_options.info {
        Action::Report(one_report(execute_branch_list_info()))
    } else {
        Action::Resolve {
            first: Vec::new(),
            operation: Operation {
                kind: OperationKind::BranchList,
                dry_run: false,
                info_only: false,
            },
        }
    }
}

/// The list of branches on a resolved backend: the pipeline of the
/// backend, and the note that the feature is unfinished.
pub fn execute_branch_list(vcs: VCS) -> (r: Execution<'static>)
    ensures
        r.pipeline@ == pipeline_of(branch_list_operation(), vcs),
        vcs == VCS::Git ==> only_work_in_progress(r.reports@, "branch list (git)"),
        vcs == VCS::Mercurial ==> only_work_in_progress(r.reports@, "branch list (mercurial)"),
        vcs == VCS::Breezy ==> only_work_in_progress(r.reports@, "branch list (breezy)"),
{
    match vcs {
        VCS::Git => execute_branch_list_git(),
        VCS::Mercurial => Execution {
            pipeline: route(
                Operation { kind: OperationKind::BranchList, dry_run: false, info_only: false },
                vcs,
            ),
            reports: one_report(execute_branch_list_mercurial()),
        },
        VCS::Breezy => Execution {
            pipeline: route(
                Operation { kind: OperationKind::BranchList, dry_run: false, info_only: false },
                vcs,
            ),
            reports: one_report(execute_branch_list_breezy()),
        },
    }
}

/// What `branch` comes to for each of its subcommands.
pub open spec fn branch_decision(branch: Branch, r: Action) -> bool {
    match branch.command {
        Some(BranchCommands::List(options)) => if options.info {
            r is Report && only_work_in_progress(r->Report_0@, "branch list (info)")
        } else {
            r is Resolve && r->first@.len() == 0 && r->operation == branch_list_operation()
        },
        Some(_) => r is Report && only_work_in_progress(r->Report_0@, "branching"),
        None => r is Report && silent(r->Report_0@),
    }
}

/// Decides what `branch` does: `list` lists, the other subcommands are
/// unfinished, and without a subcommand the command stands for itself.
pub fn process_branch_commands(branch_commands: Branch) -> (r: Action<'static>)
    ensures
        branch_decision(branch_commands, r),
{
    match branch_commands.command {
        Some(BranchCommands::List(branch_list_options)) => branch_list_command(
            branch_list_options,
        ),
        Some(_) => Action::Report(
            one_report(DiagnosticKind::WorkInProgress { feature: "branching" }),
        ),
        None => branch_command(false),
    }
}

/// A local branch, and whether it is the one checked out.
#[derive(Debug, Clone, PartialEq, Eq)]
pub struct LocalBranch {
    pub name: String,
    pub active: bool,
}

/// A local branch, with its name as a character sequence.
pub struct LocalBranchView {
    pub name: Seq<char>,
    pub active: bool,
}

impl View for LocalBranch {
    type V = LocalBranchView;

    open spec fn view(&self) -> LocalBranchView {
        LocalBranchView { name: self.name@, active: self.active }
    }
}

/// The branches of a repository, local ones first.
#[derive(Debug, Clone, PartialEq, Eq)]
pub struct BranchListing {
    pub local: Vec<LocalBranch>,
    pub remote: Vec<String>,
}

/// The views of a list of local branches.
pub open spec fn locals_view(branches: Seq<LocalBranch>) -> Seq<LocalBranchView> {
    branches.map_values(|branch: LocalBranch| branch@)
}

/// Whether a line of the backend's list names a remote branch.
pub open spec fn is_remote_line(line: Seq<char>) -> bool {
    occurs_in("remotes"@, line)
}

/// Whether a line of the backend's list names a local branch.
pub open spec fn is_local_line(line: Seq<char>) -> bool {
    !is_remote_line(line) && line.len() > 0
}

/// The local branch that a line names. A star marks the branch that is
/// checked out; its name is what stands behind the last star.
pub open spec fn local_entry(line: Seq<char>) -> LocalBranchView {
    let name = trimmed(line);
    match behind_star(name) {
        Some(tail) => LocalBranchView { name: trimmed(tail), active: true },
        None => LocalBranchView { name, active: false },
    }
}

/// The remote branch that a line names, without the prefix of the origin.
pub open spec fn remote_entry(line: Seq<char>) -> Seq<char> {
    replaced(trimmed(line), "remotes/origin/"@, ""@)
}

/// The local branches among the lines, in their order.
pub open spec fn local_branches(lines: Seq<Seq<char>>) -> Seq<LocalBranchView>
    decreases lines.len(),
{
    if lines.len() == 0 {
        Seq::empty()
    } else if is_local_line(lines.last()) {
        local_branches(lines.drop_last()).push(local_entry(lines.last()))
    } else {
        local_branches(lines.drop_last())
    }
}

/// The remote branches among the lines, in their order.
pub open spec fn remote_branches(lines: Seq<Seq<char>>) -> Seq<Seq<char>>
    decreases lines.len(),
{
    if lines.len() == 0 {
        Seq::empty()
    } else if is_remote_line(lines.last()) {
        remote_branches(lines.drop_last()).push(remote_entry(lines.last()))
    } else {
        remote_branches(lines.drop_last())
    }
}

/// What stands behind the last star of a name, where the name holds a star.
pub open spec fn behind_star(name: Seq<char>) -> Option<Seq<char>> {
    if after_last(name, '*') > 0 {
        Some(name.skip(after_last(name, '*')))
    } else {
        None
    }
}

/// Cuts out what stands behind the last star of a name, where the name holds a star.
pub fn text_behind_star(name: &str) -> (r: Option<String>)
    ensures
        match behind_star(name@) {
            Some(tail) => r is Some && r->Some_0@ == tail,
            None => r is None,
        },
{
    let v = chars_of(name);
    let k = find_after_last(&v, '*', 0, v.len());
    assert(v@.subrange(0, v.len() as int) =~= v@);
    if k > 0 {
        let tail = slice_of(&v, k, v.len());
        assert(tail@ =~= name@.skip(k as int));
        Some(tail)
    } else {
        None
    }
}

/// Reads one line of the backend's list as a local branch.
pub fn read_local_branch(line: &str) -> (r: LocalBranch)
    ensures
        r@ == local_entry(line@),
{
    let name = trim_text(line);
    match text_behind_star(name.as_str()) {
        Some(tail) => LocalBranch { name: trim_text(tail.as_str()), active: true },
        None => LocalBranch { name, active: false },
    }
}

/// Reads one line of the backend's list as a remote branch.
pub fn read_remote_branch(line: &str) -> (r: String)
    ensures
        r@ == remote_entry(line@),
{
    let name = trim_text(line);
    replace_text(name.as_str(), "remotes/origin/", "")
}

/// Reads the backend's list of all branches, or hands on the words of the
/// failure where the backend could not be started.
pub fn execute_branch_git<'a>(answer: &'a Result<String, SpawnError>) -> (r: Result<
    BranchListing,
    &'a str,
>)
    ensures
        match *answer {
            Ok(text) => r is Ok && locals_view(r->Ok_0.local@) == local_branches(
                pieces_of(text@, '\n'),
            ) && texts_view(r->Ok_0.remote@) == remote_branches(pieces_of(text@, '\n')),
            Err(error) => r is Err && r->Err_0@ == error.message@,
        },
{
    match answer {
        Err(error) => Err(error.message.as_str()),
        Ok(text) => {
            let lines = split_on(text.as_str(), '\n');
            let ghost all = pieces_of(text@, '\n');
            let mut local: Vec<LocalBranch> = Vec::new();
            let mut remote: Vec<String> = Vec::new();
            let mut i: usize = 0;
            assert(locals_view(local@) =~= local_branches(all.take(0)));
            assert(texts_view(remote@) =~= remote_branches(all.take(0)));
            while i < lines.len()
                invariant
                    i <= lines.len(),
                    texts_view(lines@) == all,
                    locals_view(local@) == local_branches(all.take(i as int)),
                    texts_view(remote@) == remote_branches(all.take(i as int)),
                decreases lines.len() - i,
            {
                let line = lines[i].as_str();
                proof {
                    let next = all.take(i + 1);
                    assert(next.drop_last() =~= all.take(i as int));
                    assert(next.last() == line@);
                }
                let ghost old_local = local@;
                let ghost old_remote = remote@;
                if contains_text(line, "remotes") {
                    let entry = read_remote_branch(line);
                    remote.push(entry);
                    assert(texts_view(remote@) =~= texts_view(old_remote).push(entry@));
                } else if !line.is_empty() {
                    let entry = read_local_branch(line);
                    local.push(entry);
                    assert(locals_view(local@) =~= locals_view(old_local).push(entry@));
                }
                i += 1;
            }
            assert(all.take(lines.len() as int) =~= all);
            Ok(BranchListing { local, remote })
        },
    }
}

/// Where a branch stands in the list that is shown.
#[derive(Clone, Copy, Debug, PartialEq, Eq, Structural)]
pub enum Rung {
    Top,
    Middle,
    Bottom,
}

/// The place of the branch at `position`, counted from one, in a list
/// of `count` branches: the first is at the top, the last of several is at
/// the bottom.
pub open spec fn rung_at(position: usize, count: usize) -> Rung {
    if position == 1 {
        Rung::Top
    } else if position == count {
        Rung::Bottom
    } else {
        Rung::Middle
    }
}

/// The place of a branch in the list that is shown.
pub fn branch_rung(position: usize, count: usize) -> (r: Rung)
    ensures
        r == rung_at(position, count),
{
    if position == 1 {
        Rung::Top
    } else if position == count {
        Rung::Bottom
    } else {
        Rung::Middle
    }
}

/// What is known of the latest commit of a branch: its hash, nothing
/// where the branch has no commit, or the report that the query did not start.
pub fn latest_commit<'a>(answer: &'a Result<String, SpawnError>) -> (r: Result<
    Option<&'a str>,
    DiagnosticKind<'a>,
>)
    ensures
        match *answer {
            Ok(text) => r is Ok && if text@.len() == 0 {
                r->Ok_0 is None
            } else {
                r->Ok_0 is Some && r->Ok_0->Some_0@ == text@
            },
            Err(error) => r is Err && (r->Err_0 matches DiagnosticKind::Error { subject, body }
                && subject@ == "git log"@ && body@ == error.message@),
        },
{
    match answer {
        Ok(text) => {
            if text.as_str().is_empty() {
                Ok(None)
            } else {
                Ok(Some(text.as_str()))
            }
        },
        Err(error) => Err(spawn_failure("git log", error)),
    }
}

/// The query for the latest commit of a branch.
pub fn latest_commit_query(branch: &str) -> (r: Invocation)
    ensures
        r@ == seq!["git"@, "log"@, "-1"@, "--pretty=%H"@, branch@],
{
    let r = Invocation::new("git").arg("log").arg("-1").arg("--pretty=%H").arg(branch);
    assert(r@ =~= seq!["git"@, "log"@, "-1"@, "--pretty=%H"@, branch@]);
    r
}

} // verus!
