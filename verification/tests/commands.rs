use scud_core::action::{run_exit_status, run_failure, run_succeeded, Action, Followup};
use scud_core::cli::{
    Branch, Cli, Codebase, Commands, Commit, CommitAll, Diff, Feature, Info, InfoCommands, Init,
    New, Pull, Push, Stage, State, System, Unstage, Update, Upstream, VCS,
};
use scud_core::diagnostics::{DiagnosticKind, ExternalCommandInfo};
use scud_core::diff::{
    diff_command, execute_diff, execute_diff_breezy, execute_diff_dry_run, execute_diff_git,
    execute_diff_info, execute_diff_mercurial,
};
use scud_core::error::ScudError;
use scud_core::explain::{exit_status, explain, is_fatal};
use scud_core::healthcheck::{
    execute_healthcheck_source_control, execute_healthcheck_vcs, healthcheck_command,
    healthcheck_report, healthcheck_sc_github, healthcheck_sc_gitlab, healthcheck_vcs_brz,
    healthcheck_vcs_git, healthcheck_vcs_hg, probed_tools, version_probe, Tool,
};
use scud_core::info::{
    execute_codebase, execute_system, execute_system_info, get_branch_command,
    info_codebase_command, info_system_command, process_info_commands,
};
use scud_core::process::{
    route, CommandPipeline, Invocation, Operation, OperationKind, ProcessResult, SpawnError,
};
use scud_core::process_commands::{init_command, init_selection, process_args};
use scud_core::push::{
    execute_push, execute_push_dry_run, execute_push_info, push_command, route_push,
};
use scud_core::stage::{
    execute_stage, execute_stage_breezy, execute_stage_dry_run, execute_stage_git,
    execute_stage_info, execute_stage_mercurial, log_staged_status, stage_command,
};
use scud_core::unstage::{
    execute_unstage, execute_unstage_breezy, execute_unstage_dry_run, execute_unstage_git,
    execute_unstage_info, execute_unstage_mercurial, unstage_command,
};
use scud_core::update::{
    execute_update, execute_update_dry_run, execute_update_info, execute_update_install,
    update_command,
};

fn wip(feature: &'static str) -> DiagnosticKind<'static> {
    DiagnosticKind::WorkInProgress { feature }
}

fn inv(argv: &[&str]) -> Invocation {
    Invocation {
        binary: argv[0].to_string(),
        args: argv[1..].iter().map(|a| a.to_string()).collect(),
    }
}

fn op(kind: OperationKind, dry_run: bool) -> Operation {
    Operation { kind, dry_run, info_only: false }
}

fn ran(exit_status: i32) -> Result<ProcessResult, SpawnError> {
    Ok(ProcessResult { stdout: vec![], stderr: vec![], exit_status })
}

fn not_started(text: &str) -> Result<ProcessResult, SpawnError> {
    Err(SpawnError { message: text.to_string() })
}

fn ok(text: &str) -> Result<String, SpawnError> {
    Ok(text.to_string())
}

fn err(text: &str) -> Result<String, SpawnError> {
    Err(SpawnError { message: text.to_string() })
}

#[test]
fn stage_by_flags() {
    let dry = Action::Resolve { first: vec![], operation: op(OperationKind::Stage, true) };
    assert_eq!(stage_command(Stage { dry_run: true, info: false }), dry);
    assert_eq!(stage_command(Stage { dry_run: true, info: true }), dry);
    assert_eq!(
        stage_command(Stage { dry_run: false, info: true }),
        Action::Report(execute_stage_info())
    );
    assert_eq!(
        stage_command(Stage { dry_run: false, info: false }),
        Action::Resolve { first: vec![], operation: op(OperationKind::Stage, false) }
    );
}

#[test]
fn the_dry_run_of_stage_runs_the_form_that_changes_nothing() {
    let execution = execute_stage(VCS::Git, true);
    assert_eq!(
        execution.pipeline,
        CommandPipeline::Invocations(vec![inv(&["git", "add", "-A", "--dry-run"])])
    );
    assert!(execution.reports.is_empty());
    assert_eq!(execute_stage_dry_run(&ran(0)), vec![DiagnosticKind::DryRun { command: "stage" }]);
    assert_eq!(
        execute_stage_dry_run(&ran(128)),
        vec![DiagnosticKind::Error { subject: "failed to stage (git)", body: "" }]
    );
    let failed = not_started("no git");
    assert_eq!(
        execute_stage_dry_run(&failed),
        vec![DiagnosticKind::Error { subject: "failed to stage (git)", body: "no git" }]
    );
    for backend in [VCS::Mercurial, VCS::Breezy] {
        assert_eq!(execute_stage(backend, true).pipeline, CommandPipeline::NotYetSupported);
        assert_eq!(execute_stage(backend, true).reports, execute_stage(backend, false).reports);
    }
}

#[test]
fn stage_information() {
    assert_eq!(
        execute_stage_info(),
        vec![
            DiagnosticKind::ScudCommandInfo {
                command: "stage",
                description: "This command is intended to stage all modified files in the current local repository ensuring they are ready to be committed. It is smart enough to detect the underlying version control system in which it is being run and execute the associated commands. Additionally, it can be run within any deeply nested subdirectory of the local repository root and will stage all files.",
            },
            DiagnosticKind::VCSInfo {
                command_name: "stage",
                git_command: "git add -A",
                mercurial_command: "Algorithm pseudocode:\n\t1. (Navigate to root of repository)\n\t2. hg add .\n\t3. (Navigate back to invocation directory)",
                breezy_command: "Algorithm pseudocode:\n\t1. (Navigate to root of repository)\n\t2. bzr add .\n\t3. (Navigate back to invocation directory)",
            },
        ]
    );
}

#[test]
fn stage_on_each_backend() {
    let tip = DiagnosticKind::Tip { body: "Use `scud commit` to commit any staged changes" };
    let git = execute_stage(VCS::Git, false);
    assert_eq!(git.pipeline, CommandPipeline::Invocations(vec![inv(&["git", "add", "-A"])]));
    assert_eq!(git.reports, vec![tip.clone()]);
    let hg = execute_stage(VCS::Mercurial, false);
    assert_eq!(hg.pipeline, CommandPipeline::NotYetSupported);
    assert_eq!(hg.reports, vec![wip("scud stage (mercurial)"), tip.clone()]);
    let bzr = execute_stage(VCS::Breezy, false);
    assert_eq!(bzr.pipeline, CommandPipeline::NotYetSupported);
    assert_eq!(bzr.reports, vec![wip("scud stage (breezy)"), tip]);
    assert_eq!(execute_stage_mercurial(), wip("scud stage (mercurial)"));
    assert_eq!(execute_stage_breezy(), wip("scud stage (breezy)"));
}

#[test]
fn after_staging() {
    assert_eq!(execute_stage_git(&ran(0)), Followup::ShowState);
    assert_eq!(execute_stage_git(&ran(1)), Followup::ShowState);
    let failed = not_started("No such file or directory (os error 2)");
    assert_eq!(
        execute_stage_git(&failed),
        Followup::Report(DiagnosticKind::Error {
            subject: "failed to stage (git)",
            body: "No such file or directory (os error 2)",
        })
    );
}

#[test]
fn staged_status_in_a_dry_run_shows_untracked_paths_as_added() {
    assert_eq!(log_staged_status("?? new.txt\n M a.rs\n?? b\n", true), "A new.txt\n M a.rs\nA b\n");
    assert_eq!(log_staged_status("?? new.txt\n M a.rs\n", false), "?? new.txt\n M a.rs\n");
    assert_eq!(log_staged_status("", true), "");
}

#[test]
fn unstage_by_flags() {
    let dry = Action::Resolve { first: vec![], operation: op(OperationKind::Unstage, true) };
    assert_eq!(unstage_command(Unstage { dry_run: true, info: false }), dry);
    assert_eq!(unstage_command(Unstage { dry_run: true, info: true }), dry);
    assert_eq!(unstage_command(Unstage { dry_run: false, info: true }), Action::Report(vec![]));
    assert_eq!(
        unstage_command(Unstage { dry_run: false, info: false }),
        Action::Resolve {
            first: vec![DiagnosticKind::ScudCommandInfo {
                command: "unstage",
                description: "This command is intended to unstage all modified files in the current local repository ensuring they are ready to be committed. It is smart enough to detect the underlying version control system in which it is being run and execute the associated commands. Additionally, it can be run within any deeply nested subdirectory of the local repository root and will unstage all modified files and directories within the current repository.",
            }],
            operation: op(OperationKind::Unstage, false),
        }
    );
    assert!(execute_unstage_info().is_empty());
}

#[test]
fn the_dry_run_of_unstage_asks_what_would_leave_the_index() {
    let execution = execute_unstage(VCS::Git, true);
    assert_eq!(
        execution.pipeline,
        CommandPipeline::Invocations(vec![inv(&["git", "diff", "--name-only", "--cached"])])
    );
    assert!(execution.reports.is_empty());
    assert_eq!(
        execute_unstage_dry_run(&ran(0)),
        vec![DiagnosticKind::DryRun { command: "unstage" }]
    );
    assert_eq!(
        execute_unstage_dry_run(&ran(1)),
        vec![DiagnosticKind::Error { subject: "failed to stage (git)", body: "" }]
    );
    for backend in [VCS::Mercurial, VCS::Breezy] {
        assert_eq!(execute_unstage(backend, true).pipeline, CommandPipeline::NotYetSupported);
    }
}

#[test]
fn unstage_on_each_backend() {
    let tip = DiagnosticKind::Tip {
        body: "When you're ready, use `scud stage` to stage all unstaged changes and untracked files for commit",
    };
    let git = execute_unstage(VCS::Git, false);
    assert_eq!(git.pipeline, CommandPipeline::Invocations(vec![inv(&["git", "reset"])]));
    assert_eq!(git.reports, vec![tip.clone()]);
    let hg = execute_unstage(VCS::Mercurial, false);
    assert_eq!(hg.pipeline, CommandPipeline::NotYetSupported);
    assert_eq!(hg.reports, vec![wip("scud unstage (mercurial)"), tip.clone()]);
    let bzr = execute_unstage(VCS::Breezy, false);
    assert_eq!(bzr.pipeline, CommandPipeline::NotYetSupported);
    assert_eq!(bzr.reports, vec![wip("scud unstage (breezy)"), tip]);
    assert_eq!(execute_unstage_mercurial(), wip("scud unstage (mercurial)"));
    assert_eq!(execute_unstage_breezy(), wip("scud unstage (breezy)"));
}

#[test]
fn after_unstaging() {
    assert_eq!(execute_unstage_git(&ran(0)), Followup::ShowState);
    let failed = not_started("denied");
    assert_eq!(
        execute_unstage_git(&failed),
        Followup::Report(DiagnosticKind::Error { subject: "failed to stage (git)", body: "denied" })
    );
}

#[test]
fn push_by_flags() {
    assert_eq!(
        push_command(Push { dry_run: true, info: false }),
        Action::Resolve { first: vec![], operation: op(OperationKind::Push, true) }
    );
    assert_eq!(
        push_command(Push { dry_run: true, info: true }),
        Action::Resolve { first: vec![], operation: op(OperationKind::Push, true) }
    );
    assert_eq!(push_command(Push { dry_run: false, info: true }), Action::Report(vec![]));
    assert_eq!(
        push_command(Push { dry_run: false, info: false }),
        Action::Resolve { first: vec![], operation: op(OperationKind::Push, false) }
    );
    assert!(execute_push_info().is_empty());
}

#[test]
fn push_on_each_backend() {
    assert_eq!(
        route_push(VCS::Git, false).pipeline,
        CommandPipeline::Invocations(vec![inv(&["git", "push"])])
    );
    assert_eq!(
        route_push(VCS::Git, true).pipeline,
        CommandPipeline::Invocations(vec![inv(&["git", "push", "--dry-run"])])
    );
    assert_eq!(route_push(VCS::Mercurial, true).pipeline, CommandPipeline::NotYetSupported);
    assert_eq!(route_push(VCS::Breezy, false).pipeline, CommandPipeline::NotYetSupported);
    assert!(route_push(VCS::Git, true).reports.is_empty());
}

#[test]
fn after_a_push() {
    assert!(execute_push(&ran(0)).is_empty());
    assert_eq!(
        execute_push(&ran(1)),
        vec![DiagnosticKind::Error { subject: "Failed to push files", body: "" }]
    );
    let failed = not_started("no git");
    assert_eq!(
        execute_push(&failed),
        vec![DiagnosticKind::Error { subject: "Failed to push files", body: "no git" }]
    );
}

#[test]
fn after_the_dry_run_of_a_push() {
    assert_eq!(execute_push_dry_run(&ran(0)), vec![DiagnosticKind::DryRun { command: "push" }]);
    assert_eq!(
        execute_push_dry_run(&ran(128)),
        vec![DiagnosticKind::Error { subject: "Failed to push files", body: "" }]
    );
    let failed = not_started("no git");
    assert_eq!(
        execute_push_dry_run(&failed),
        vec![DiagnosticKind::Error { subject: "Failed to push files", body: "no git" }]
    );
}

#[test]
fn a_run_ends_well_only_with_status_zero() {
    assert!(run_succeeded(&ran(0)));
    assert!(!run_succeeded(&ran(1)));
    assert!(!run_succeeded(&ran(-1)));
    assert!(!run_succeeded(&not_started("x")));
    let result = ran(2);
    assert_eq!(run_failure("s", &result), vec![DiagnosticKind::Error { subject: "s", body: "" }]);
    assert_eq!(run_exit_status(&ran(0)), 0);
    assert_eq!(run_exit_status(&ran(2)), 1);
    assert_eq!(run_exit_status(&not_started("x")), 1);
}

#[test]
fn diff_by_flag() {
    assert_eq!(diff_command(Diff { info: true }), Action::Report(vec![wip("diff (info)")]));
    assert_eq!(
        diff_command(Diff { info: false }),
        Action::Resolve { first: vec![], operation: op(OperationKind::Diff, false) }
    );
}

#[test]
fn diff_on_each_backend() {
    let git = execute_diff(VCS::Git);
    assert_eq!(git.pipeline, CommandPipeline::Invocations(vec![inv(&["git", "diff"])]));
    assert_eq!(git.reports, vec![wip("diff (git)")]);
    let hg = execute_diff(VCS::Mercurial);
    assert_eq!(hg.pipeline, CommandPipeline::NotYetSupported);
    assert_eq!(hg.reports, vec![wip("diff (mercurial)")]);
    let bzr = execute_diff(VCS::Breezy);
    assert_eq!(bzr.pipeline, CommandPipeline::NotYetSupported);
    assert_eq!(bzr.reports, vec![wip("diff (breezy)")]);
}

#[test]
fn unfinished_diff_features() {
    assert_eq!(execute_diff_git(), execute_diff(VCS::Git));
    assert_eq!(
        execute_diff_git().pipeline,
        CommandPipeline::Invocations(vec![inv(&["git", "diff"])])
    );
    assert_eq!(execute_diff_git().reports, vec![wip("diff (git)")]);
    assert_eq!(execute_diff_mercurial(), wip("diff (mercurial)"));
    assert_eq!(execute_diff_breezy(), wip("diff (breezy)"));
    assert_eq!(execute_diff_dry_run(), wip("diff (dry run)"));
    assert_eq!(execute_diff_info(), wip("diff (info)"));
}

#[test]
fn update_by_flags() {
    assert_eq!(
        update_command(Update { dry_run: true, info: false }),
        Action::Print("Dry run".to_string())
    );
    assert_eq!(
        update_command(Update { dry_run: true, info: true }),
        Action::Print("Dry run".to_string())
    );
    assert_eq!(
        update_command(Update { dry_run: false, info: true }),
        Action::Print("Info".to_string())
    );
    assert_eq!(update_command(Update { dry_run: false, info: false }), Action::CheckForUpdate);
    assert_eq!(execute_update_dry_run(), "Dry run");
    assert_eq!(execute_update_info(), "Info");
}

#[test]
fn update_after_the_look_for_a_release() {
    assert_eq!(
        execute_update(true),
        Action::Install(inv(&["cargo", "install", "scud", "--force"]))
    );
    assert_eq!(
        execute_update(false),
        Action::Report(vec![
            DiagnosticKind::Note { body: "No new release available" },
            DiagnosticKind::Note { body: "A new release of scud is available: 0.3.0 -> 0.6.0" },
        ])
    );
}

#[test]
fn update_after_the_installation() {
    assert!(execute_update_install(&ran(0)).is_empty());
    assert_eq!(
        execute_update_install(&ran(101)),
        vec![DiagnosticKind::Error { subject: "Failed to stage files", body: "" }]
    );
    let failed = not_started("no cargo");
    assert_eq!(
        execute_update_install(&failed),
        vec![DiagnosticKind::Error { subject: "Failed to stage files", body: "no cargo" }]
    );
}

#[test]
fn info_system() {
    assert_eq!(execute_system(), wip("System info"));
    assert_eq!(
        info_system_command(System { info: false }),
        Action::Report(vec![wip("System info")])
    );
    assert_eq!(info_system_command(System { info: true }), Action::Report(execute_system_info()));
    assert_eq!(
        execute_system_info(),
        vec![
            DiagnosticKind::ScudCommandInfo {
                command: "system information",
                description: "This command is intended to display detailed information about the system on which scud is running [alias: sys]",
            },
            DiagnosticKind::GeneralCommandInfo {
                command_name: "info system",
                commands: vec![
                    ExternalCommandInfo {
                        command_name: "neofetch",
                        command_link: "https://github.com/dylanaraps/neofetch",
                        command_description: "get system information",
                    },
                    ExternalCommandInfo {
                        command_name: "cpufetch",
                        command_link: "https://github.com/Dr-Noob/cpufetch",
                        command_description: "get CPU architecture information",
                    },
                ],
            },
        ]
    );
}

#[test]
fn info_codebase() {
    assert_eq!(info_codebase_command(Codebase { info: false }), Action::Describe(inv(&["onefetch"])));
    assert_eq!(
        info_codebase_command(Codebase { info: true }),
        Action::Report(vec![
            DiagnosticKind::ScudCommandInfo {
                command: "codebase information",
                description: "This command is intended to display detailed information about the contents of the codebase within the current directory [alias: cb]\n                          ",
            },
            DiagnosticKind::GeneralCommandInfo {
                command_name: "codebase",
                commands: vec![ExternalCommandInfo {
                    command_name: "info codebase",
                    command_link: "https://github.com/o2sh/onefetch",
                    command_description: "display detailed information about the contents of the codebase within the current directory.",
                }],
            },
        ])
    );
}

#[test]
fn info_codebase_after_the_run() {
    let answer = ok("Rust 100%\n");
    assert_eq!(execute_codebase(&answer), Ok("Rust 100%\n"));
    let failed = err("not found");
    assert_eq!(
        execute_codebase(&failed),
        Err(vec![
            DiagnosticKind::Error {
                subject: "onefetch (https://github.com/o2sh/onefetch)",
                body: "is not installed on system locally or not found in PATH.",
            },
            DiagnosticKind::Hint {
                body: "If you wish to use scud'scodebase informationcommand , try installing it with scud's built-in setup command",
                command: "scud setup info codebase",
            },
        ])
    );
}

#[test]
fn info_subcommands() {
    let codebase = |info| Info { command: Some(InfoCommands::Codebase(Codebase { info })) };
    let system = |info| Info { command: Some(InfoCommands::System(System { info })) };
    assert_eq!(process_info_commands(codebase(false)), Action::Describe(inv(&["onefetch"])));
    assert_eq!(
        process_info_commands(codebase(true)),
        info_codebase_command(Codebase { info: true })
    );
    assert_eq!(process_info_commands(system(false)), Action::Report(vec![wip("System info")]));
    assert_eq!(process_info_commands(system(true)), Action::Report(execute_system_info()));
    assert_eq!(process_info_commands(Info { command: None }), Action::AskInfoCommand);
}

#[test]
fn info_menu() {
    assert_eq!(get_branch_command(0), Action::Describe(inv(&["onefetch"])));
    assert_eq!(get_branch_command(1), Action::Report(vec![wip("system information")]));
}

#[test]
fn healthcheck_probes() {
    assert_eq!(version_probe(Tool::Git), inv(&["git", "--version"]));
    assert_eq!(
        execute_healthcheck_vcs(),
        vec![inv(&["git", "--version"]), inv(&["hg", "--version"]), inv(&["brz", "--version"])]
    );
    assert_eq!(
        execute_healthcheck_source_control(),
        vec![inv(&["gh", "--version"]), inv(&["glab", "--version"])]
    );
    assert_eq!(
        healthcheck_command(),
        CommandPipeline::Invocations(vec![
            inv(&["git", "--version"]),
            inv(&["hg", "--version"]),
            inv(&["brz", "--version"]),
            inv(&["gh", "--version"]),
            inv(&["glab", "--version"]),
        ])
    );
}

#[test]
fn healthcheck_of_installed_programs() {
    assert_eq!(healthcheck_vcs_git(&ok("git version 2.43.0\n")), Ok("git version 2.43.0\n".to_string()));
    let hg = ok("Mercurial Distributed SCM (version 6.5)\n(see https://mercurial-scm.org)\n");
    assert_eq!(healthcheck_vcs_hg(&hg), Ok("Mercurial Distributed SCM (version 6.5)".to_string()));
    assert_eq!(healthcheck_vcs_brz(&ok("Breezy (brz) 3.3.4\n  Python")), Ok("Breezy (brz) 3.3.4".to_string()));
    assert_eq!(healthcheck_sc_github(&ok("gh version 2.40.1\nhttps://x")), Ok("gh version 2.40.1".to_string()));
    assert_eq!(healthcheck_sc_gitlab(&ok("glab 1.36.0")), Ok("glab 1.36.0".to_string()));
    assert_eq!(healthcheck_sc_gitlab(&ok("")), Ok(String::new()));
}

#[test]
fn healthcheck_of_missing_programs() {
    let body = "is not installed on system locally or not found in PATH.";
    let missing = |subject: &'static str, hint: &'static str, command: &'static str| {
        vec![
            DiagnosticKind::Error { subject, body },
            DiagnosticKind::Hint { body: hint, command },
        ]
    };
    assert_eq!(
        healthcheck_vcs_git(&err("x")),
        Err(missing("Git", "Try installing it with scud's built-in setup command", "scud setup vcs git"))
    );
    assert_eq!(
        healthcheck_vcs_hg(&err("x")),
        Err(missing(
            "Mercurial",
            "If you wish to use Mercurial for your underlying VCS with scud, try installing it on your local machine with scud's builtin setup command",
            "scud setup vcs mercurial"
        ))
    );
    assert_eq!(
        healthcheck_vcs_brz(&err("x")),
        Err(missing("Breezy", "Try installing it with scud's builtin setup command", "scud setup vcs breezy"))
    );
    assert_eq!(
        healthcheck_sc_github(&err("x")),
        Err(missing(
            "Github CLI",
            "If you wish to use GitHub for your underlying source control provider within scud, try installing it with scud's built-in setup command ",
            "scud setup sc github"
        ))
    );
    assert_eq!(
        healthcheck_sc_gitlab(&err("x")),
        Err(missing(
            "GitLab CLI",
            "If you wish to use GitLab for your underlying source control provider within scud, try installing it with scud's built-in setup command",
            "scud setup sc gitlab"
        ))
    );
}

#[test]
fn errors_and_what_is_said_of_them() {
    assert_eq!(
        explain(ScudError::NoBackendDetected),
        vec![
            DiagnosticKind::Error {
                subject: "Could not detect a valid version control system (Supported VCSs are: Git, Mercurial, and Breezy)",
                body: "Scud's declarative, high-level operations on top of the underlying VCS are intended to be used with a supported version control system.",
            },
            DiagnosticKind::Tip {
                body: "To get started using scud's declarative, high-level operations on top of the underlying VCS, try using `scud init` to initialize a new project with your desired VCS",
            },
        ]
    );
    assert_eq!(
        explain(ScudError::NoStagedChanges),
        vec![
            DiagnosticKind::Error {
                subject: "Attempting to commit without any staged changes",
                body: "Please stage your changes before going through the commit process",
            },
            DiagnosticKind::Tip {
                body: "Use `scud stage` to stage all unstaged changes and untracked files for commit",
            },
        ]
    );
    assert_eq!(
        explain(ScudError::InvalidSubjectLength),
        vec![DiagnosticKind::Error {
            subject: "Invalid subject length",
            body: "Provided subject exceeds character limit, please specify a subject with less than the maximum character limit",
        }]
    );
    assert_eq!(explain(ScudError::SpawnError).len(), 1);
    assert_eq!(
        explain(ScudError::UnsupportedCombination),
        vec![wip("this operation on the detected version control system")]
    );
    assert!(explain(ScudError::MalformedStatusLine).is_empty());
}

#[test]
fn which_errors_end_the_operation() {
    for error in [
        ScudError::NoBackendDetected,
        ScudError::SpawnError,
        ScudError::UnsupportedCombination,
        ScudError::NoStagedChanges,
    ] {
        assert!(is_fatal(error));
        assert_eq!(exit_status(error), 1);
    }
    for error in [ScudError::InvalidSubjectLength, ScudError::MalformedStatusLine] {
        assert!(!is_fatal(error));
        assert_eq!(exit_status(error), 0);
    }
}

#[test]
fn init_announces_and_asks() {
    let named = Init { dry_run: false, name: Some("demo".to_string()), info: false };
    assert_eq!(
        init_command(&named),
        Action::AskBackend("Initializing new repository: demo".to_string())
    );
    let unnamed = Init { dry_run: false, name: None, info: false };
    assert_eq!(
        init_command(&unnamed),
        Action::AskBackend("Initializing new repository...".to_string())
    );
    assert_eq!(init_selection(0), "Git");
    assert_eq!(init_selection(1), "Mercurial");
    assert_eq!(init_selection(2), "Breezy");
    assert_eq!(init_selection(3), "Unknown");
}

#[test]
fn the_command_line_is_handed_on() {
    let cli = |command| Cli { command };
    assert_eq!(
        process_args(&cli(Commands::New(New { name: "demo".to_string() }))),
        Action::Print("New: demo".to_string())
    );
    assert_eq!(
        process_args(&cli(Commands::Pull(Pull { info: true }))),
        Action::Print("Pull: true".to_string())
    );
    assert_eq!(
        process_args(&cli(Commands::Pull(Pull { info: false }))),
        Action::Print("Pull: false".to_string())
    );
    assert_eq!(
        process_args(&cli(Commands::Init(Init { dry_run: false, name: None, info: false }))),
        Action::AskBackend("Initializing new repository...".to_string())
    );
    let stage = Stage { dry_run: false, info: true };
    assert_eq!(process_args(&cli(Commands::Stage(stage))), stage_command(stage));
    let unstage = Unstage { dry_run: false, info: false };
    assert_eq!(process_args(&cli(Commands::Unstage(unstage))), unstage_command(unstage));
    let commit = Commit { dry_run: true, info: false };
    assert_eq!(
        process_args(&cli(Commands::Commit(commit))),
        Action::Resolve { first: vec![], operation: op(OperationKind::Commit, true) }
    );
    let push = Push { dry_run: true, info: false };
    assert_eq!(process_args(&cli(Commands::Push(push))), push_command(push));
    assert_eq!(
        process_args(&cli(Commands::State(State { info: false }))),
        Action::Resolve { first: vec![], operation: op(OperationKind::State, false) }
    );
    assert_eq!(
        process_args(&cli(Commands::Diff(Diff { info: true }))),
        Action::Report(vec![wip("diff (info)")])
    );
    assert_eq!(
        process_args(&cli(Commands::Branch(Branch { command: None }))),
        Action::Report(vec![])
    );
    assert_eq!(
        process_args(&cli(Commands::Update(Update { dry_run: false, info: false }))),
        Action::CheckForUpdate
    );
    assert_eq!(process_args(&cli(Commands::Healthcheck)), Action::Probe(healthcheck_command()));
}

#[test]
fn commands_without_a_handler_are_unfinished() {
    let cli = |command| Cli { command };
    assert_eq!(
        process_args(&cli(Commands::Feature(Feature { command: None }))),
        Action::Report(vec![wip("feature")])
    );
    assert_eq!(
        process_args(&cli(Commands::CommitAll(CommitAll { dry_run: false, info: false }))),
        Action::Report(vec![wip("commit-all")])
    );
    assert_eq!(
        process_args(&cli(Commands::Upstream(Upstream { info: false }))),
        Action::Report(vec![wip("upstream")])
    );
}

#[test]
fn the_route_of_an_action_is_the_route_of_its_operation() {
    if let Action::Resolve { first, operation } = stage_command(Stage { dry_run: false, info: false }) {
        assert!(first.is_empty());
        assert_eq!(route(operation, VCS::Git), execute_stage(VCS::Git, false).pipeline);
        assert_eq!(route(operation, VCS::Breezy), execute_stage(VCS::Breezy, false).pipeline);
    } else {
        panic!("stage without flags resolves the backend");
    }
}

#[test]
fn healthcheck_by_program() {
    let tools = probed_tools();
    assert_eq!(tools, vec![Tool::Git, Tool::Mercurial, Tool::Breezy, Tool::GitHub, Tool::GitLab]);
    let probes: Vec<Invocation> = tools.iter().map(|tool| version_probe(*tool)).collect();
    assert_eq!(healthcheck_command(), CommandPipeline::Invocations(probes));
    let answer = ok("first\nsecond\n");
    assert_eq!(healthcheck_report(Tool::Git, &answer), Ok("first\nsecond\n".to_string()));
    for tool in [Tool::Mercurial, Tool::Breezy, Tool::GitHub, Tool::GitLab] {
        assert_eq!(healthcheck_report(tool, &answer), Ok("first".to_string()));
    }
    let failed = err("x");
    assert_eq!(healthcheck_report(Tool::Git, &failed), healthcheck_vcs_git(&failed));
    assert_eq!(healthcheck_report(Tool::Mercurial, &failed), healthcheck_vcs_hg(&failed));
    assert_eq!(healthcheck_report(Tool::Breezy, &failed), healthcheck_vcs_brz(&failed));
    assert_eq!(healthcheck_report(Tool::GitHub, &failed), healthcheck_sc_github(&failed));
    assert_eq!(healthcheck_report(Tool::GitLab, &failed), healthcheck_sc_gitlab(&failed));
}
