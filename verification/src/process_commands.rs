//! The entry of the library: from the parsed command line to what is to be done.
use vstd::prelude::*;
use crate::action::{one_report, only_work_in_progress, Action};
use crate::diagnostics::DiagnosticKind;
use crate::branch::{branch_decision, process_branch_commands};
use crate::cli::{Cli, Commands, Init};
use crate::commit::{commit_command, commit_decision};
use crate::diff::{diff_command, diff_decision};
use crate::display::{state_command, state_decision};
use crate::healthcheck::{all_probes, healthcheck_command};
use crate::push::{push_command, push_decision};
use crate::stage::{stage_command, stage_decision};
use crate::unstage::{unstage_command, unstage_decision};
use crate::update::{update_command, update_decision};

verus! {

/// The announcement that a repository is about to be initialised.
pub open spec fn init_announcement(name: Option<String>) -> Seq<char> {
    match name {
        Some(name) => "Initializing new repository: "@ + name@,
        None => "Initializing new repository..."@,
    }
}

/// `init` announces the repository and asks for its backend.
pub fn init_command(init_options: &Init) -> (r: Action<'static>)
    ensures
        r is AskBackend,
        r->AskBackend_0@ == init_announcement(init_options.name),
{
    match &init_options.name {
        Some(name) => {
            let mut text = "Initializing new repository: ".to_owned();
            text.append(name.as_str());
            Action::AskBackend(text)
        },
        None => Action::AskBackend("Initializing new repository...".to_owned()),
    }
}

/// The name of the backend behind a position of the menu of `init`.
pub fn init_selection(selected: usize) -> (r: &'static str)
    ensures
        selected == 0 ==> r@ == "Git"@,
        selected == 1 ==> r@ == "Mercurial"@,
        selected == 2 ==> r@ == "Breezy"@,
        selected > 2 ==> r@ == "Unknown"@,
{
    match selected {
        0 => "Git",
        1 => "Mercurial",
        2 => "Breezy",
        _ => "Unknown",
    }
}

/// What `pull` shows.
pub open spec fn pull_text(info: bool) -> Seq<char> {
    if info {
        "Pull: true"@
    } else {
        "Pull: false"@
    }
}

/// What each command comes to: the commands with flags decide by their
/// flags, `new` and `pull` show a line, `init` asks for the backend, the
/// healthcheck probes every program, and the commands without a handler
/// report that they are unfinished.
pub open spec fn decision(command: Commands, r: Action) -> bool {
    match command {
        Commands::New(options) => r is Print && r->Print_0@ == "New: "@ + options.name@,
        Commands::Init(options) => r is AskBackend && r->AskBackend_0@ == init_announcement(
            options.name,
        ),
        Commands::State(options) => state_decision(options, r),
        Commands::Stage(options) => stage_decision(options, r),
        Commands::Unstage(options) => unstage_decision(options, r),
        Commands::Commit(options) => commit_decision(options, r),
        Commands::Push(options) => push_decision(options, r),
        Commands::Pull(options) => r is Print && r->Print_0@ == pull_text(options.info),
        Commands::Diff(options) => diff_decision(options, r),
        Commands::Branch(options) => branch_decision(options, r),
        Commands::Healthcheck => r is Probe && r->Probe_0@ == Some(all_probes()),
        Commands::Update(options) => update_decision(options, r),
        Commands::Feature(_) => r is Report && only_work_in_progress(r->Report_0@, "feature"),
        Commands::CommitAll(_) => r is Report && only_work_in_progress(
            r->Report_0@,
            "commit-all",
        ),
        Commands::Upstream(_) => r is Report && only_work_in_progress(r->Report_0@, "upstream"),
    }
}

/// Hands the command line to the command that it names.
pub fn process_args(args: &Cli) -> (r: Action<'static>)
    ensures
        decision(args.command, r),
{
    match &args.command {
        Commands::New(new_repo_options) => {
            let mut text = "New: ".to_owned();
            text.append(new_repo_options.name.as_str());
            Action::Print(text)
        },
        Commands::Init(init_options) => init_command(init_options),
        Commands::State(state_options) => state_command(*state_options),
        Commands::Stage(stage_options) => stage_command(*stage_options),
        Commands::Unstage(unstage_options) => unstage_command(*unstage_options),
        Commands::Commit(commit_options) => commit_command(*commit_options),
        Commands::Push(push_options) => push_command(*push_options),
        Commands::Pull(pull_options) => {
            if pull_options.info {
                Action::Print("Pull: true".to_owned())
            } else {
                Action::Print("Pull: false".to_owned())
            }
        },
        Commands::Diff(diff_options) => diff_command(*diff_options),
        Commands::Branch(branch_commands) => process_branch_commands(*branch_commands),
        Commands::Healthcheck => Action::Probe(healthcheck_command()),
        Commands::Update(update_options) => update_command(*update_options),
        Commands::Feature(_) => Action::Report(
            one_report(DiagnosticKind::WorkInProgress { feature: "feature" }),
        ),
        Commands::CommitAll(_) => Action::Report(
            one_report(DiagnosticKind::WorkInProgress { feature: "commit-all" }),
        ),
        Commands::Upstream(_) => Action::Report(
            one_report(DiagnosticKind::WorkInProgress { feature: "upstream" }),
        ),
    }
}

} // verus!
