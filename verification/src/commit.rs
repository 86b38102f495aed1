//! The commit message: its parts, the limit on its subject, and its text.
use vstd::prelude::*;
use crate::action::{
    command_and_backends, dry_run_outcome, one_report, report_dry_run, silent, spawn_failure,
    two_reports, Action, Execution,
};
use crate::cli::{Commit, VCS};
use crate::diagnostics::DiagnosticKind;
use crate::error::ScudError;
use crate::process::{
    decoded, git_staged_query, lemma_reading_subcommands, mutates, pipeline_of, route,
    staged_query,
    Invocation, Operation, OperationKind, ProcessResult, SpawnError,
};
use crate::text::{chars_of, find_between, first_index_of, slice_of};

verus! {

/// The conventions that a commit message can follow.
#[derive(Clone, Copy, Debug, PartialEq, Eq, Structural)]
pub enum CommitMessageFormat {
    Angular,
    Conventional,
    /// No convention at all.
    Plain,
    Unknown,
}

/// The parts of a commit message. An empty text stands for a part that was left out.
#[derive(Debug, Clone, PartialEq, Eq)]
pub struct CommitMessage {
    pub commit_type: String,
    pub scope: String,
    pub subject: String,
    pub body: String,
    pub breaking_changes: String,
    pub refs: String,
}

/// The parts of a commit message as character sequences.
pub struct MessageView {
    pub commit_type: Seq<char>,
    pub scope: Seq<char>,
    pub subject: Seq<char>,
    pub body: Seq<char>,
    pub breaking_changes: Seq<char>,
    pub refs: Seq<char>,
}

impl View for CommitMessage {
    type V = MessageView;

    open spec fn view(&self) -> MessageView {
        MessageView {
            commit_type: self.commit_type@,
            scope: self.scope@,
            subject: self.subject@,
            body: self.body@,
            breaking_changes: self.breaking_changes@,
            refs: self.refs@,
        }
    }
}

/// The longest first line that a message may have.
pub const MAX_SUBJECT_LENGTH: usize = 100;

/// Characters that the first line spends on the type, on the scope with its
/// brackets, and on the colon and blank before the subject.
pub open spec fn prefix_length(commit_type: Seq<char>, scope: Seq<char>) -> int {
    commit_type.len() + scope.len() + (if scope.len() > 0 {
        2int
    } else {
        0int
    }) + 2
}

/// Characters left for the subject. Negative where the prefix alone is too long.
pub open spec fn remaining_length(commit_type: Seq<char>, scope: Seq<char>) -> int {
    MAX_SUBJECT_LENGTH as int - prefix_length(commit_type, scope)
}

/// Whether a subject fits into what the type and the scope leave of the first line.
pub open spec fn subject_accepted(
    commit_type: Seq<char>,
    scope: Seq<char>,
    subject: Seq<char>,
) -> bool {
    subject.len() <= remaining_length(commit_type, scope)
}

impl MessageView {
    /// The invariant of a finished message: its subject fits.
    pub open spec fn well_formed(self) -> bool {
        subject_accepted(self.commit_type, self.scope, self.subject)
    }

    /// A message with every part empty.
    pub open spec fn blank() -> MessageView {
        MessageView {
            commit_type: Seq::empty(),
            scope: Seq::empty(),
            subject: Seq::empty(),
            body: Seq::empty(),
            breaking_changes: Seq::empty(),
            refs: Seq::empty(),
        }
    }
}

impl CommitMessage {
    /// A message with every part empty.
    pub fn new() -> (r: CommitMessage)
        ensures
            r@ == MessageView::blank(),
            r@.well_formed(),
    {
        let r = CommitMessage {
            commit_type: String::new(),
            scope: String::new(),
            subject: String::new(),
            body: String::new(),
            breaking_changes: String::new(),
            refs: String::new(),
        };
        assert(r@.commit_type =~= Seq::<char>::empty());
        assert(r@.scope =~= Seq::<char>::empty());
        assert(r@.subject =~= Seq::<char>::empty());
        assert(r@.body =~= Seq::<char>::empty());
        assert(r@.breaking_changes =~= Seq::<char>::empty());
        assert(r@.refs =~= Seq::<char>::empty());
        r
    }
}

/// The number of characters that the subject may have, given the type and
/// the scope. The type and the scope must leave room on the first line.
pub fn get_remaining_subject_length(commit_type: &str, scope: &str) -> (r: usize)
    requires
        prefix_length(commit_type@, scope@) <= MAX_SUBJECT_LENGTH,
    ensures
        r == remaining_length(commit_type@, scope@),
{
    let t = commit_type.unicode_len();
    let s = scope.unicode_len();
    let mut remaining: usize = MAX_SUBJECT_LENGTH - s - t - 2;
    if s > 0 {
        remaining -= 2;
    }
    remaining
}

/// Whether `subject` fits behind this type and scope. Nothing fits where the
/// type and the scope alone overrun the first line.
pub fn subject_fits(commit_type: &str, scope: &str, subject: &str) -> (r: bool)
    ensures
        r == subject_accepted(commit_type@, scope@, subject@),
{
    let t = commit_type.unicode_len();
    let s = scope.unicode_len();
    let n = subject.unicode_len();
    let decoration: usize = if s > 0 { 4 } else { 2 };
    if t > MAX_SUBJECT_LENGTH || s > MAX_SUBJECT_LENGTH {
        return false;
    }
    let prefix: usize = t + s + decoration;
    if prefix > MAX_SUBJECT_LENGTH {
        return false;
    }
    n <= MAX_SUBJECT_LENGTH - prefix
}

impl CommitMessage {
    /// Whether the subject fits behind the type and the scope.
    pub fn is_well_formed(&self) -> (r: bool)
        ensures
            r == self@.well_formed(),
    {
        subject_fits(self.commit_type.as_str(), self.scope.as_str(), self.subject.as_str())
    }

    /// Puts a message together from its parts, or rejects a subject that does not fit.
    pub fn compose(
        commit_type: String,
        scope: String,
        subject: String,
        body: String,
        breaking_changes: String,
        refs: String,
    ) -> (r: Result<CommitMessage, ScudError>)
        ensures
            subject_accepted(commit_type@, scope@, subject@) ==> (r is Ok && r->Ok_0@.well_formed()
                && r->Ok_0@ == (MessageView {
                commit_type: commit_type@,
                scope: scope@,
                subject: subject@,
                body: body@,
                breaking_changes: breaking_changes@,
                refs: refs@,
            })),
            !subject_accepted(commit_type@, scope@, subject@) ==> r == Err::<
                CommitMessage,
                ScudError,
            >(ScudError::InvalidSubjectLength),
    {
        if subject_fits(commit_type.as_str(), scope.as_str(), subject.as_str()) {
            Ok(CommitMessage { commit_type, scope, subject, body, breaking_changes, refs })
        } else {
            Err(ScudError::InvalidSubjectLength)
        }
    }
}

/// Takes the subject that the user gave, or rejects it as too long.
pub fn get_subject(commit_type: &str, scope: &str, input: String) -> (r: Result<String, ScudError>)
    ensures
        subject_accepted(commit_type@, scope@, input@) ==> r == Ok::<String, ScudError>(input),
        !subject_accepted(commit_type@, scope@, input@) ==> r == Err::<String, ScudError>(
            ScudError::InvalidSubjectLength,
        ),
{
    if subject_fits(commit_type, scope, input.as_str()) {
        Ok(input)
    } else {
        Err(ScudError::InvalidSubjectLength)
    }
}

/// With a scope, the subject may have 100 characters less the type, the
/// scope and four more; a subject of exactly that length is accepted, and one
/// that is longer by a single character is rejected.
pub proof fn law_subject_limit(commit_type: Seq<char>, scope: Seq<char>, subject: Seq<char>)
    requires
        scope.len() > 0,
    ensures
        remaining_length(commit_type, scope) == 100 - commit_type.len() - scope.len() - 4,
        subject.len() == remaining_length(commit_type, scope) ==> subject_accepted(
            commit_type,
            scope,
            subject,
        ),
        subject.len() == remaining_length(commit_type, scope) + 1 ==> !subject_accepted(
            commit_type,
            scope,
            subject,
        ),
{
}

/// Without a scope only the colon and the blank are taken off.
pub proof fn law_subject_limit_without_scope(commit_type: Seq<char>, subject: Seq<char>)
    ensures
        remaining_length(commit_type, Seq::empty()) == 100 - commit_type.len() - 2,
        subject_accepted(commit_type, Seq::empty(), subject) <==> subject.len() + commit_type.len()
            + 2 <= 100,
{
}

/// The first line and the body: `type(scope): subject`, or `type: subject`
/// without a scope, then an empty line and the body.
pub open spec fn conventional_head(m: MessageView) -> Seq<char> {
    if m.scope.len() == 0 {
        m.commit_type + ": "@ + m.subject + "\n\n"@ + m.body
    } else {
        m.commit_type + "("@ + m.scope + "): "@ + m.subject + "\n\n"@ + m.body
    }
}

/// The text of a message that follows the Conventional Commits layout. The
/// section on breaking changes and the one on references follow the body in
/// this order, each only where it has anything to say.
pub open spec fn conventional_text(m: MessageView) -> Seq<char> {
    conventional_head(m) + (if m.breaking_changes.len() == 0 {
        Seq::empty()
    } else {
        "\n\nBREAKING CHANGE: "@ + m.breaking_changes
    }) + (if m.refs.len() == 0 {
        Seq::empty()
    } else {
        "\n\nRefs: "@ + m.refs
    })
}

/// A section that was left out leaves no trace in the text, not even an
/// empty line; and whatever sections there are, the text begins with the first
/// line and the body.
pub proof fn law_omitted_sections_leave_no_trace(m: MessageView)
    ensures
        m.breaking_changes.len() == 0 && m.refs.len() == 0 ==> conventional_text(m)
            == conventional_head(m),
        m.breaking_changes.len() == 0 && m.refs.len() > 0 ==> conventional_text(m)
            == conventional_head(m) + "\n\nRefs: "@ + m.refs,
        m.breaking_changes.len() > 0 && m.refs.len() == 0 ==> conventional_text(m)
            == conventional_head(m) + "\n\nBREAKING CHANGE: "@ + m.breaking_changes,
        conventional_head(m).is_prefix_of(conventional_text(m)),
{
    let head = conventional_head(m);
    let text = conventional_text(m);
    assert(head + Seq::<char>::empty() =~= head);
    if m.breaking_changes.len() == 0 {
        assert(head + Seq::<char>::empty() + ("\n\nRefs: "@ + m.refs) =~= head + "\n\nRefs: "@
            + m.refs);
    } else {
        assert(head + ("\n\nBREAKING CHANGE: "@ + m.breaking_changes) + Seq::<char>::empty()
            =~= head + "\n\nBREAKING CHANGE: "@ + m.breaking_changes);
    }
    assert(head =~= text.subrange(0, head.len() as int));
}

/// Renders a message in the Conventional Commits layout.
pub fn commit_conventional_standard(message: &CommitMessage) -> (r: String)
    ensures
        r@ == conventional_text(message@),
{
    let mut text = String::new();
    text.append(message.commit_type.as_str());
    if message.scope.as_str().is_empty() {
        text.append(": ");
    } else {
        text.append("(");
        text.append(message.scope.as_str());
        text.append("): ");
    }
    text.append(message.subject.as_str());
    text.append("\n\n");
    text.append(message.body.as_str());
    assert(text@ =~= conventional_head(message@));
    if !message.breaking_changes.as_str().is_empty() {
        text.append("\n\nBREAKING CHANGE: ");
        text.append(message.breaking_changes.as_str());
    }
    if !message.refs.as_str().is_empty() {
        text.append("\n\nRefs: ");
        text.append(message.refs.as_str());
    }
    assert(text@ =~= conventional_text(message@));
    text
}

/// The message in the Angular layout.
pub fn commit_angular_standard() -> (r: String)
    ensures
        r@ == "angular message"@,
{
    "angular message".to_owned()
}

/// The message without any layout.
pub fn commit_standard_none() -> (r: String)
    ensures
        r@ == "none message"@,
{
    "none message".to_owned()
}

/// The format behind a position of the format menu.
pub open spec fn format_at(selected: usize) -> CommitMessageFormat {
    if selected == 0 {
        CommitMessageFormat::Conventional
    } else if selected == 1 {
        CommitMessageFormat::Angular
    } else {
        CommitMessageFormat::Plain
    }
}

/// The format that the user picked from the menu. A position that the menu
/// does not have counts as no format.
pub fn get_commit_message_format(selected: usize) -> (r: CommitMessageFormat)
    ensures
        r == format_at(selected),
{
    match selected {
        0 => CommitMessageFormat::Conventional,
        1 => CommitMessageFormat::Angular,
        _ => CommitMessageFormat::Plain,
    }
}

/// The name of a type of change: what stands before the first colon of its menu entry.
pub open spec fn entry_label(entry: Seq<char>) -> Seq<char> {
    entry.take(first_index_of(entry, ':'))
}

/// Cuts the name of the type of change out of a menu entry.
pub fn commit_type_of(entry: &str) -> (r: String)
    ensures
        r@ == entry_label(entry@),
{
    let v = chars_of(entry);
    let e = find_between(&v, ':', 0, v.len());
    assert(v@.subrange(0, v.len() as int) =~= v@);
    let r = slice_of(&v, 0, e);
    assert(r@ =~= entry_label(entry@));
    r
}

/// How many types of change the menu offers.
pub const COMMIT_TYPES: usize = 11;

/// The entry of the menu of types at a position: the name of the type, a colon, and what it is for.
pub open spec fn type_entry(selected: usize) -> Seq<char> {
    if selected == 0 {
        "feat:  A new feature"@
    } else if selected == 1 {
        "fix:  A bug fix"@
    } else if selected == 2 {
        "docs:  Documentation only changes"@
    } else if selected == 3 {
        "style:  Changes that do not affect the meaning of the code (white-space, formatting, missing semi-colons, etc)"@
    } else if selected == 4 {
        "refactor:  A code change that neither fixes a bug nor adds a feature"@
    } else if selected == 5 {
        "perf:  A code change that improves performance"@
    } else if selected == 6 {
        "test:  Adding missing tests or correcting existing tests"@
    } else if selected == 7 {
        "build:  Changes that affect the build system or external dependencies (example scons, gulp, grunt, broccoli, npm, etc.)"@
    } else if selected == 8 {
        "ci:  Changes to our CI configuration files and scripts (example scopes: Travis, Circle, BrowserStack, SauceLabs, etc.)"@
    } else if selected == 9 {
        "chore:  Other changes that don't modify src/bin files"@
    } else {
        "revert:  Reverts a previous commit"@
    }
}

/// The entry of the menu of types at a position.
pub fn commit_type_entry(selected: usize) -> (r: &'static str)
    requires
        selected < COMMIT_TYPES,
    ensures
        r@ == type_entry(selected),
{
    match selected {
        0 => "feat:  A new feature",
        1 => "fix:  A bug fix",
        2 => "docs:  Documentation only changes",
        3 => "style:  Changes that do not affect the meaning of the code (white-space, formatting, missing semi-colons, etc)",
        4 => "refactor:  A code change that neither fixes a bug nor adds a feature",
        5 => "perf:  A code change that improves performance",
        6 => "test:  Adding missing tests or correcting existing tests",
        7 => "build:  Changes that affect the build system or external dependencies (example scons, gulp, grunt, broccoli, npm, etc.)",
        8 => "ci:  Changes to our CI configuration files and scripts (example scopes: Travis, Circle, BrowserStack, SauceLabs, etc.)",
        9 => "chore:  Other changes that don't modify src/bin files",
        _ => "revert:  Reverts a previous commit",
    }
}

/// The type of change that the user picked from the menu.
pub fn get_commit_type(selected: usize) -> (r: String)
    requires
        selected < COMMIT_TYPES,
    ensures
        r@ == entry_label(type_entry(selected)),
{
    commit_type_of(commit_type_entry(selected))
}

/// The section that an optional answer leaves: the text given, or nothing.
pub open spec fn section_text(answer: Option<String>) -> Seq<char> {
    match answer {
        Some(text) => text@,
        None => Seq::empty(),
    }
}

/// The section on breaking changes: the description, where the user had any to give.
pub fn get_breaking_changes(answer: Option<String>) -> (r: String)
    ensures
        r@ == section_text(answer),
{
    match answer {
        Some(text) => text,
        None => {
            let r = String::new();
            assert(r@ =~= Seq::<char>::empty());
            r
        },
    }
}

/// The section on referenced issues: the list, where the user had any to give.
pub fn get_referenced_issues(answer: Option<String>) -> (r: String)
    ensures
        r@ == section_text(answer),
{
    match answer {
        Some(text) => text,
        None => {
            let r = String::new();
            assert(r@ =~= Seq::<char>::empty());
            r
        },
    }
}

pub const COMMIT_DESCRIPTION: &'static str =
    "This command is used to construct a human-readable commit message and commit staged changes to the current branch in the local repository.";

pub const COMMIT_WITH_GIT: &'static str =
    "git commit -m \"<generated message>\" (generated commit message comes from user flow w/ CLI)";

pub const COMMIT_WITH_MERCURIAL: &'static str =
    "hg commit -m \"<generated message>\" (generated commit message comes from user flow w/ CLI)";

pub const COMMIT_WITH_BREEZY: &'static str =
    "bzr commit -m \"<generated message>\" (generated commit message comes from user flow w/ CLI)";

/// The commit operation, for real or as a dry run.
pub open spec fn commit_operation(dry_run: bool) -> Operation {
    Operation { kind: OperationKind::Commit, dry_run, info_only: false }
}

/// What to report after the dry run of the commit: that it was a dry
/// run where the backend ended well, and the failure otherwise.
pub fn execute_commit_dry_run<'a>(result: &'a Result<ProcessResult, SpawnError>) -> (r: Vec<
    DiagnosticKind<'a>,
>)
    ensures
        dry_run_outcome(r@, "commit", "git commit failed", *result),
{
    report_dry_run("commit", "git commit failed", result)
}

/// What `commit` is for, and what each backend runs for it.
pub fn execute_commit_info() -> (r: Vec<DiagnosticKind<'static>>)
    ensures
        command_and_backends(
            r@,
            "commit",
            COMMIT_DESCRIPTION,
            COMMIT_WITH_GIT,
            COMMIT_WITH_MERCURIAL,
            COMMIT_WITH_BREEZY,
        ),
{
    two_reports(
        DiagnosticKind::ScudCommandInfo { command: "commit", description: COMMIT_DESCRIPTION },
        DiagnosticKind::VCSInfo {
            command_name: "commit",
            git_command: COMMIT_WITH_GIT,
            mercurial_command: COMMIT_WITH_MERCURIAL,
            breezy_command: COMMIT_WITH_BREEZY,
        },
    )
}

/// What `commit` comes to for each setting of its flags.
pub open spec fn commit_decision(options: Commit, r: Action) -> bool {
    if options.dry_run {
        r is Resolve && r->first@.len() == 0 && r->operation == commit_operation(true)
    } else if options.info {
        r is Report && command_and_backends(
            r->Report_0@,
            "commit",
            COMMIT_DESCRIPTION,
            COMMIT_WITH_GIT,
            COMMIT_WITH_MERCURIAL,
            COMMIT_WITH_BREEZY,
        )
    } else {
        r is Resolve && r->first@.len() == 0 && r->operation == commit_operation(false)
    }
}

/// Decides what `commit` does: a request for information only informs,
/// and anything else goes to the backend that governs the tree, for real or as
/// a dry run. The dry run goes before the information.
pub fn commit_command(commit_options: Commit) -> (r: Action<'static>)
    ensures
        commit_decision(commit_options, r),
{
    if commit_options.dry_run {
        Action::Resolve {
            first: Vec::new(),
            operation: Operation { kind: OperationKind::Commit, dry_run: true, info_only: false },
        }
    } else if commit_options.info {
        Action::Report(execute_commit_info())
    } else {
        Action::Resolve {
            first: Vec::new(),
            operation: Operation { kind: OperationKind::Commit, dry_run: false, info_only: false },
        }
    }
}

/// The commit on a resolved backend, for real or as a dry run: the query
/// for what is staged, where the backend is Git, and no pipeline otherwise.
pub fn execute_commit(vcs: VCS, dry_run: bool) -> (r: Execution<'static>)
    ensures
        r.pipeline@ == pipeline_of(commit_operation(dry_run), vcs),
        silent(r.reports@),
{
    Execution {
        pipeline: route(Operation { kind: OperationKind::Commit, dry_run, info_only: false }, vcs),
        reports: Vec::new(),
    }
}

/// What the answer to the query for staged paths allows: the commit may
/// go on where the query named at least one path.
pub open spec fn staged_check(staged: Result<String, SpawnError>) -> Result<(), ScudError> {
    match staged {
        Err(_) => Err(ScudError::SpawnError),
        Ok(text) => if text@.len() == 0 {
            Err(ScudError::NoStagedChanges)
        } else {
            Ok(())
        },
    }
}

/// Checks that something is staged before a commit is composed.
pub fn check_for_staged_files(staged: &Result<String, SpawnError>) -> (r: Result<(), ScudError>)
    ensures
        r == staged_check(*staged),
{
    match staged {
        Err(_) => Err(ScudError::SpawnError),
        Ok(text) => {
            if text.as_str().is_empty() {
                Err(ScudError::NoStagedChanges)
            } else {
                Ok(())
            }
        },
    }
}

/// The call of Git that commits with a message. The dry run is the same
/// call with the mark that nothing is to be committed.
pub open spec fn commit_call(message: Seq<char>, dry_run: bool) -> Seq<Seq<char>> {
    if dry_run {
        seq!["git"@, "commit"@, "--dry-run"@, "-m"@, message]
    } else {
        seq!["git"@, "commit"@, "-m"@, message]
    }
}

/// The call that commits with `message`, for real or as a dry run.
pub fn git_commit_invocation(message: &str, dry_run: bool) -> (r: Invocation)
    ensures
        r@ == commit_call(message@, dry_run),
{
    let r = if dry_run {
        Invocation::new("git").arg("commit").arg("--dry-run").arg("-m").arg(message)
    } else {
        Invocation::new("git").arg("commit").arg("-m").arg(message)
    };
    assert(r@ =~= commit_call(message@, dry_run));
    r
}

/// The commit with Git. Where nothing is staged, or the query for it did
/// not start, there is no call to run: the error is all that comes back.
pub fn execute_commit_git(staged: &Result<String, SpawnError>, message: &str, dry_run: bool) -> (r:
    Result<Invocation, ScudError>)
    ensures
        match staged_check(*staged) {
            Ok(_) => r is Ok && r->Ok_0@ == commit_call(message@, dry_run),
            Err(error) => r == Err::<Invocation, ScudError>(error),
        },
{
    match check_for_staged_files(staged) {
        Ok(_) => Ok(git_commit_invocation(message, dry_run)),
        Err(error) => Err(error),
    }
}

/// The commit with Mercurial is not implemented: no call is handed out.
pub fn execute_commit_mercurial(message: &str) -> (r: Result<Invocation, ScudError>)
    ensures
        r == Err::<Invocation, ScudError>(ScudError::UnsupportedCombination),
{
    Err(ScudError::UnsupportedCombination)
}

/// The commit with Breezy is not implemented: no call is handed out.
pub fn execute_commit_breezy(message: &str) -> (r: Result<Invocation, ScudError>)
    ensures
        r == Err::<Invocation, ScudError>(ScudError::UnsupportedCombination),
{
    Err(ScudError::UnsupportedCombination)
}

/// What to report after the commit ran: nothing, or that Git could not be started.
pub fn execute_commit_finished<'a>(result: &'a Result<ProcessResult, SpawnError>) -> (r: Vec<
    DiagnosticKind<'a>,
>)
    ensures
        match *result {
            Ok(_) => silent(r@),
            Err(error) => r@.len() == 1 && (r@[0] matches DiagnosticKind::Error { subject, body }
                && subject@ == "git commit failed"@ && body@ == error.message@),
        },
{
    match result {
        Ok(_) => Vec::new(),
        Err(error) => one_report(spawn_failure("git commit failed", error)),
    }
}

/// What comes next in a commit.
#[derive(Debug, PartialEq, Eq)]
pub enum CommitStep {
    /// Ask the backend which paths are staged.
    QueryStaged(Invocation),
    /// Compose the message with the user.
    Compose,
    /// Run the commit.
    Run(Invocation),
    /// End the commit with this error. Nothing more is run or asked.
    Fail(ScudError),
}

/// The next step of a commit, from what is known so far. A backend other
/// than Git ends the commit at once, before anything is asked or run. On Git
/// the staged paths are asked for first; their answer decides whether the
/// commit goes on; only then is the message composed; and only with a message
/// is the commit run.
pub open spec fn next_commit_step(
    vcs: VCS,
    dry_run: bool,
    staged: Option<Result<String, SpawnError>>,
    message: Option<Seq<char>>,
    r: CommitStep,
) -> bool {
    if vcs != VCS::Git {
        r == CommitStep::Fail(ScudError::UnsupportedCombination)
    } else {
        match staged {
            None => r is QueryStaged && r->QueryStaged_0@ == staged_query(),
            Some(answer) => match staged_check(answer) {
                Err(error) => r == CommitStep::Fail(error),
                Ok(_) => match message {
                    None => r is Compose,
                    Some(text) => r is Run && r->Run_0@ == commit_call(text, dry_run),
                },
            },
        }
    }
}

/// The text of a message that may still be missing.
pub open spec fn message_view(message: Option<&str>) -> Option<Seq<char>> {
    match message {
        Some(text) => Some(text@),
        None => None,
    }
}

/// The answer to the query for staged paths, where there is one yet.
pub open spec fn staged_view(staged: Option<&Result<String, SpawnError>>) -> Option<
    Result<String, SpawnError>,
> {
    match staged {
        Some(answer) => Some(*answer),
        None => None,
    }
}

/// Decides the next step of a commit on a resolved backend: `staged` is
/// the answer to the query for staged paths once it was asked, `message` the
/// message once it was composed.
pub fn commit_step(
    vcs: VCS,
    dry_run: bool,
    staged: Option<&Result<String, SpawnError>>,
    message: Option<&str>,
) -> (r: CommitStep)
    ensures
        next_commit_step(vcs, dry_run, staged_view(staged), message_view(message), r),
{
    match vcs {
        VCS::Git => match staged {
            None => CommitStep::QueryStaged(git_staged_query()),
            Some(answer) => match check_for_staged_files(answer) {
                Err(error) => CommitStep::Fail(error),
                Ok(_) => match message {
                    None => CommitStep::Compose,
                    Some(text) => CommitStep::Run(git_commit_invocation(text, dry_run)),
                },
            },
        },
        VCS::Mercurial => CommitStep::Fail(ScudError::UnsupportedCombination),
        VCS::Breezy => CommitStep::Fail(ScudError::UnsupportedCombination),
    }
}

/// A commit with nothing staged never gets a call to run and never asks
/// for a message, whatever is known besides: it ends with the error.
pub proof fn law_nothing_staged_nothing_committed(
    staged: Result<String, SpawnError>,
    dry_run: bool,
    message: Option<Seq<char>>,
    r: CommitStep,
)
    requires
        staged matches Ok(text) && text@.len() == 0,
        next_commit_step(VCS::Git, dry_run, Some(staged), message, r),
    ensures
        staged_check(staged) == Err::<(), ScudError>(ScudError::NoStagedChanges),
        r == CommitStep::Fail(ScudError::NoStagedChanges),
        !(r is Run) && !(r is Compose),
{
}

/// Nothing is staged exactly where the query for staged paths ran and
/// wrote nothing at all.
pub proof fn law_empty_output_means_nothing_staged(
    outcome: Result<ProcessResult, SpawnError>,
    answer: Result<String, SpawnError>,
)
    requires
        decoded(outcome, answer),
    ensures
        staged_check(answer) == Err::<(), ScudError>(ScudError::NoStagedChanges) <==> (
        outcome matches Ok(done) && done.stdout@.len() == 0),
        staged_check(answer) == Err::<(), ScudError>(ScudError::SpawnError) <==> outcome is Err,
{
}

/// On a backend other than Git a commit is reported as unsupported before
/// anything is asked or run.
pub proof fn law_unsupported_commit_attempts_nothing(
    vcs: VCS,
    dry_run: bool,
    staged: Option<Result<String, SpawnError>>,
    message: Option<Seq<char>>,
    r: CommitStep,
)
    requires
        vcs != VCS::Git,
        next_commit_step(vcs, dry_run, staged, message, r),
    ensures
        r == CommitStep::Fail(ScudError::UnsupportedCombination),
{
}

/// The dry run of a commit runs a call that commits nothing.
pub proof fn law_commit_dry_run_changes_nothing(message: Seq<char>)
    ensures
        !mutates(commit_call(message, true)),
        !mutates(staged_query()),
{
    lemma_reading_subcommands();
    let call = commit_call(message, true);
    assert(call[2] == "--dry-run"@);
    assert(staged_query()[1] == "diff"@);
}

} // verus!
