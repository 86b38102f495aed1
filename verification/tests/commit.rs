use scud_core::action::Action;
use scud_core::cli::{Commit, VCS};
use scud_core::commit::{
    check_for_staged_files, commit_angular_standard, commit_command, commit_conventional_standard,
    commit_standard_none, commit_type_entry, commit_type_of, execute_commit,
    execute_commit_breezy, execute_commit_dry_run, execute_commit_finished, execute_commit_git,
    execute_commit_info, execute_commit_mercurial, commit_step, get_breaking_changes,
    get_commit_message_format, get_commit_type, get_referenced_issues,
    get_remaining_subject_length, get_subject, git_commit_invocation, subject_fits,
    CommitMessage, CommitMessageFormat, CommitStep, COMMIT_TYPES, MAX_SUBJECT_LENGTH,
};
use scud_core::diagnostics::DiagnosticKind;
use scud_core::error::ScudError;
use scud_core::process::{
    CommandPipeline, Invocation, Operation, OperationKind, ProcessResult, SpawnError,
};

fn message(parts: [&str; 6]) -> CommitMessage {
    CommitMessage {
        commit_type: parts[0].to_string(),
        scope: parts[1].to_string(),
        subject: parts[2].to_string(),
        body: parts[3].to_string(),
        breaking_changes: parts[4].to_string(),
        refs: parts[5].to_string(),
    }
}

fn failure(text: &str) -> SpawnError {
    SpawnError { message: text.to_string() }
}

#[test]
fn rendering_without_scope() {
    let text = commit_conventional_standard(&message(["feat", "", "add parser", "", "", ""]));
    assert_eq!(text, "feat: add parser\n\n");
}

#[test]
fn rendering_with_scope() {
    let text = commit_conventional_standard(&message(["feat", "cli", "add parser", "", "", ""]));
    assert_eq!(text, "feat(cli): add parser\n\n");
}

#[test]
fn rendering_with_breaking_changes() {
    let text = commit_conventional_standard(
        &message(["feat", "cli", "add parser", "", "removes flag X", ""]),
    );
    assert_eq!(text, "feat(cli): add parser\n\n\n\nBREAKING CHANGE: removes flag X");
    let text = commit_conventional_standard(
        &message(["feat", "", "add parser", "", "removes flag X", ""]),
    );
    assert_eq!(text, "feat: add parser\n\n\n\nBREAKING CHANGE: removes flag X");
}

#[test]
fn rendering_with_every_section() {
    let text = commit_conventional_standard(
        &message(["fix", "core", "stop the leak", "The pool kept every buffer.", "pool API", "#12, #15"]),
    );
    assert_eq!(
        text,
        "fix(core): stop the leak\n\nThe pool kept every buffer.\n\nBREAKING CHANGE: pool API\n\nRefs: #12, #15"
    );
}

#[test]
fn rendering_with_references_only() {
    let text = commit_conventional_standard(&message(["docs", "", "fix typo", "body", "", "#7"]));
    assert_eq!(text, "docs: fix typo\n\nbody\n\nRefs: #7");
}

#[test]
fn rendering_of_an_empty_message() {
    assert_eq!(commit_conventional_standard(&CommitMessage::new()), ": \n\n");
    assert_eq!(CommitMessage::new(), message(["", "", "", "", "", ""]));
}

#[test]
fn the_other_formats_have_fixed_texts() {
    assert_eq!(commit_angular_standard(), "angular message");
    assert_eq!(commit_standard_none(), "none message");
}

#[test]
fn remaining_length_with_scope() {
    assert_eq!(MAX_SUBJECT_LENGTH, 100);
    assert_eq!(get_remaining_subject_length("feat", "cli"), 100 - 4 - 3 - 4);
    assert_eq!(get_remaining_subject_length("refactor", "x"), 87);
}

#[test]
fn remaining_length_without_scope() {
    assert_eq!(get_remaining_subject_length("feat", ""), 94);
    assert_eq!(get_remaining_subject_length("", ""), 98);
}

#[test]
fn remaining_length_can_be_zero() {
    let scope = "s".repeat(92);
    assert_eq!(get_remaining_subject_length("feat", &scope), 0);
    let long_type = "t".repeat(98);
    assert_eq!(get_remaining_subject_length(&long_type, ""), 0);
}

#[test]
fn subject_of_exactly_the_remaining_length_is_accepted() {
    let remaining = get_remaining_subject_length("feat", "cli");
    let exact = "x".repeat(remaining);
    assert!(subject_fits("feat", "cli", &exact));
    assert_eq!(get_subject("feat", "cli", exact.clone()), Ok(exact));
}

#[test]
fn subject_one_longer_is_rejected() {
    let remaining = get_remaining_subject_length("feat", "cli");
    let longer = "x".repeat(remaining + 1);
    assert!(!subject_fits("feat", "cli", &longer));
    assert_eq!(get_subject("feat", "cli", longer), Err(ScudError::InvalidSubjectLength));
}

#[test]
fn subject_limit_for_many_lengths() {
    for t in 0..12usize {
        for s in 1..12usize {
            let commit_type = "t".repeat(t);
            let scope = "s".repeat(s);
            let remaining = 100 - t - s - 4;
            assert_eq!(get_remaining_subject_length(&commit_type, &scope), remaining);
            assert!(subject_fits(&commit_type, &scope, &"x".repeat(remaining)));
            assert!(!subject_fits(&commit_type, &scope, &"x".repeat(remaining + 1)));
        }
    }
}

#[test]
fn nothing_fits_behind_an_overlong_prefix() {
    let scope = "s".repeat(200);
    assert!(!subject_fits("feat", &scope, ""));
    assert!(!subject_fits("feat", &scope, "x"));
    assert!(!subject_fits(&"t".repeat(99), "", ""));
    assert!(subject_fits(&"t".repeat(98), "", ""));
    assert_eq!(get_subject("feat", &scope, String::new()), Err(ScudError::InvalidSubjectLength));
}

#[test]
fn lengths_count_characters() {
    let subject = "é".repeat(89);
    assert!(subject_fits("feat", "cli", &subject));
    assert!(!subject_fits("feat", "cli", &"é".repeat(90)));
    assert_eq!(get_remaining_subject_length("féat", "clï"), 89);
}

#[test]
fn formats_of_the_menu() {
    assert_eq!(get_commit_message_format(0), CommitMessageFormat::Conventional);
    assert_eq!(get_commit_message_format(1), CommitMessageFormat::Angular);
    assert_eq!(get_commit_message_format(2), CommitMessageFormat::Plain);
    assert_eq!(get_commit_message_format(3), CommitMessageFormat::Plain);
    assert_eq!(get_commit_message_format(usize::MAX), CommitMessageFormat::Plain);
}

#[test]
fn types_of_the_menu() {
    let expected = [
        "feat", "fix", "docs", "style", "refactor", "perf", "test", "build", "ci", "chore",
        "revert",
    ];
    assert_eq!(COMMIT_TYPES, expected.len());
    for (i, name) in expected.iter().enumerate() {
        assert_eq!(get_commit_type(i), *name);
        assert!(commit_type_entry(i).starts_with(&format!("{}:  ", name)));
    }
    assert_eq!(commit_type_entry(0), "feat:  A new feature");
    assert_eq!(
        commit_type_entry(8),
        "ci:  Changes to our CI configuration files and scripts (example scopes: Travis, Circle, BrowserStack, SauceLabs, etc.)"
    );
}

#[test]
fn type_is_what_stands_before_the_first_colon() {
    assert_eq!(commit_type_of("feat:  A new feature"), "feat");
    assert_eq!(commit_type_of("a:b:c"), "a");
    assert_eq!(commit_type_of("no colon"), "no colon");
    assert_eq!(commit_type_of(":x"), "");
    assert_eq!(commit_type_of(""), "");
}

#[test]
fn optional_sections() {
    assert_eq!(get_breaking_changes(None), "");
    assert_eq!(get_breaking_changes(Some("drops v1".to_string())), "drops v1");
    assert_eq!(get_referenced_issues(None), "");
    assert_eq!(get_referenced_issues(Some("#1, #2".to_string())), "#1, #2");
}

#[test]
fn commit_with_nothing_staged() {
    let staged: Result<String, SpawnError> = Ok(String::new());
    assert_eq!(check_for_staged_files(&staged), Err(ScudError::NoStagedChanges));
    assert_eq!(execute_commit_git(&staged, "feat: x\n\n", false), Err(ScudError::NoStagedChanges));
    assert_eq!(execute_commit_git(&staged, "feat: x\n\n", true), Err(ScudError::NoStagedChanges));
    for message in [None, Some("feat: x\n\n")] {
        for dry_run in [false, true] {
            assert_eq!(
                commit_step(VCS::Git, dry_run, Some(&staged), message),
                CommitStep::Fail(ScudError::NoStagedChanges)
            );
        }
    }
}

#[test]
fn commit_with_something_staged() {
    let staged: Result<String, SpawnError> = Ok("src/lib.rs\n".to_string());
    assert_eq!(check_for_staged_files(&staged), Ok(()));
    let expected = Invocation {
        binary: "git".to_string(),
        args: vec!["commit".to_string(), "-m".to_string(), "feat: x\n\n".to_string()],
    };
    assert_eq!(execute_commit_git(&staged, "feat: x\n\n", false), Ok(expected.clone()));
    assert_eq!(git_commit_invocation("feat: x\n\n", false), expected);
    let rehearsal = Invocation {
        binary: "git".to_string(),
        args: vec![
            "commit".to_string(),
            "--dry-run".to_string(),
            "-m".to_string(),
            "feat: x\n\n".to_string(),
        ],
    };
    assert_eq!(execute_commit_git(&staged, "feat: x\n\n", true), Ok(rehearsal.clone()));
    assert_eq!(git_commit_invocation("feat: x\n\n", true), rehearsal);
}

#[test]
fn commit_when_the_query_did_not_start() {
    let staged: Result<String, SpawnError> = Err(failure("No such file or directory"));
    assert_eq!(check_for_staged_files(&staged), Err(ScudError::SpawnError));
    assert_eq!(execute_commit_git(&staged, "m", false), Err(ScudError::SpawnError));
    assert_eq!(
        commit_step(VCS::Git, false, Some(&staged), None),
        CommitStep::Fail(ScudError::SpawnError)
    );
}

#[test]
fn commit_on_the_other_backends() {
    assert_eq!(execute_commit_mercurial("m"), Err(ScudError::UnsupportedCombination));
    assert_eq!(execute_commit_breezy("m"), Err(ScudError::UnsupportedCombination));
    assert_eq!(execute_commit(VCS::Mercurial, false).pipeline, CommandPipeline::NotYetSupported);
    assert_eq!(execute_commit(VCS::Breezy, true).pipeline, CommandPipeline::NotYetSupported);
    assert!(execute_commit(VCS::Breezy, false).reports.is_empty());
}

#[test]
fn commit_on_git_asks_for_staged_paths_first() {
    let execution = execute_commit(VCS::Git, false);
    assert_eq!(execution, execute_commit(VCS::Git, true));
    let query = Invocation {
        binary: "git".to_string(),
        args: vec!["diff".to_string(), "--name-only".to_string(), "--cached".to_string()],
    };
    assert_eq!(execution.pipeline, CommandPipeline::Invocations(vec![query]));
    assert!(execution.reports.is_empty());
}

#[test]
fn commit_command_by_flags() {
    let rehearsal = Action::Resolve {
        first: vec![],
        operation: Operation { kind: OperationKind::Commit, dry_run: true, info_only: false },
    };
    assert_eq!(commit_command(Commit { dry_run: true, info: false }), rehearsal);
    assert_eq!(commit_command(Commit { dry_run: true, info: true }), rehearsal);
    assert_eq!(
        commit_command(Commit { dry_run: false, info: true }),
        Action::Report(execute_commit_info())
    );
    assert_eq!(
        commit_command(Commit { dry_run: false, info: false }),
        Action::Resolve {
            first: vec![],
            operation: Operation { kind: OperationKind::Commit, dry_run: false, info_only: false },
        }
    );
}

#[test]
fn commit_information() {
    let reports = execute_commit_info();
    assert_eq!(reports.len(), 2);
    assert_eq!(
        reports[0],
        DiagnosticKind::ScudCommandInfo {
            command: "commit",
            description: "This command is used to construct a human-readable commit message and commit staged changes to the current branch in the local repository.",
        }
    );
    assert_eq!(
        reports[1],
        DiagnosticKind::VCSInfo {
            command_name: "commit",
            git_command: "git commit -m \"<generated message>\" (generated commit message comes from user flow w/ CLI)",
            mercurial_command: "hg commit -m \"<generated message>\" (generated commit message comes from user flow w/ CLI)",
            breezy_command: "bzr commit -m \"<generated message>\" (generated commit message comes from user flow w/ CLI)",
        }
    );
}

#[test]
fn after_the_commit() {
    let done: Result<ProcessResult, SpawnError> =
        Ok(ProcessResult { stdout: b"[main 1a2b3c] x".to_vec(), stderr: vec![], exit_status: 0 });
    assert!(execute_commit_finished(&done).is_empty());
    let failed: Result<ProcessResult, SpawnError> = Err(failure("permission denied"));
    assert_eq!(
        execute_commit_finished(&failed),
        vec![DiagnosticKind::Error { subject: "git commit failed", body: "permission denied" }]
    );
}

#[test]
fn a_message_is_put_together_only_with_a_subject_that_fits() {
    let part = |s: &str| s.to_string();
    let built = CommitMessage::compose(
        part("feat"),
        part("cli"),
        part("add parser"),
        part("body"),
        part(""),
        part("#1"),
    );
    assert_eq!(built, Ok(message(["feat", "cli", "add parser", "body", "", "#1"])));
    assert!(built.unwrap().is_well_formed());
    let rejected = CommitMessage::compose(
        part("feat"),
        part("cli"),
        "x".repeat(90),
        part(""),
        part(""),
        part(""),
    );
    assert_eq!(rejected, Err(ScudError::InvalidSubjectLength));
    assert!(!message(["feat", "cli", &"x".repeat(90), "", "", ""]).is_well_formed());
    assert!(message(["feat", "cli", &"x".repeat(89), "", "", ""]).is_well_formed());
    assert!(CommitMessage::new().is_well_formed());
}

#[test]
fn the_steps_of_a_commit_on_git() {
    let query = Invocation {
        binary: "git".to_string(),
        args: vec!["diff".to_string(), "--name-only".to_string(), "--cached".to_string()],
    };
    assert_eq!(commit_step(VCS::Git, false, None, None), CommitStep::QueryStaged(query.clone()));
    assert_eq!(commit_step(VCS::Git, true, None, Some("m")), CommitStep::QueryStaged(query));
    let staged: Result<String, SpawnError> = Ok("src/lib.rs\n".to_string());
    assert_eq!(commit_step(VCS::Git, false, Some(&staged), None), CommitStep::Compose);
    assert_eq!(commit_step(VCS::Git, true, Some(&staged), None), CommitStep::Compose);
    assert_eq!(
        commit_step(VCS::Git, false, Some(&staged), Some("fix: y\n\n")),
        CommitStep::Run(git_commit_invocation("fix: y\n\n", false))
    );
    assert_eq!(
        commit_step(VCS::Git, true, Some(&staged), Some("fix: y\n\n")),
        CommitStep::Run(git_commit_invocation("fix: y\n\n", true))
    );
}

#[test]
fn a_commit_on_another_backend_ends_before_anything_is_asked() {
    let staged: Result<String, SpawnError> = Ok("src/lib.rs\n".to_string());
    for vcs in [VCS::Mercurial, VCS::Breezy] {
        for dry_run in [false, true] {
            for answer in [None, Some(&staged)] {
                for message in [None, Some("m")] {
                    assert_eq!(
                        commit_step(vcs, dry_run, answer, message),
                        CommitStep::Fail(ScudError::UnsupportedCombination)
                    );
                }
            }
        }
    }
}

#[test]
fn after_the_dry_run_of_a_commit() {
    let done: Result<ProcessResult, SpawnError> =
        Ok(ProcessResult { stdout: vec![], stderr: vec![], exit_status: 0 });
    assert_eq!(execute_commit_dry_run(&done), vec![DiagnosticKind::DryRun { command: "commit" }]);
    let refused: Result<ProcessResult, SpawnError> =
        Ok(ProcessResult { stdout: vec![], stderr: vec![], exit_status: 1 });
    assert_eq!(
        execute_commit_dry_run(&refused),
        vec![DiagnosticKind::Error { subject: "git commit failed", body: "" }]
    );
    let failed: Result<ProcessResult, SpawnError> = Err(failure("no git"));
    assert_eq!(
        execute_commit_dry_run(&failed),
        vec![DiagnosticKind::Error { subject: "git commit failed", body: "no git" }]
    );
}
