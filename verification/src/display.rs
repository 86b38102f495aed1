//! Decides, from the answers of the status queries, which lines the state
//! report holds. A line is a record of what to show, not its wording.
use vstd::prelude::*;
use crate::action::{command_and_backends, only_tip, one_report, two_reports, Action, Execution};
use crate::cli::{State, VCS};
use crate::diagnostics::DiagnosticKind;
use crate::error::ScudError;
use crate::explain::{explain, explains};
use crate::process::{
    answer_of, decoded, git_state_queries, law_looking_changes_nothing, pipeline_of, reads_only,
    route, Operation, OperationKind, ProcessResult, SpawnError,
};
use crate::state::{commit_diff, display_commit_state, get_commit_diff, shown_state, CommitState};
use crate::text::{lines_of, split_lines, texts_view, trim_text, trimmed};

verus! {

/// The three areas of the report.
#[derive(Clone, Copy, Debug, PartialEq, Eq, Structural)]
pub enum Section {
    Staged,
    Unstaged,
    Untracked,
}

/// The kinds of change that the report tells apart.
#[derive(Clone, Copy, Debug, PartialEq, Eq, Structural)]
pub enum ChangeKind {
    Modified,
    Deleted,
    Renamed,
}

/// One line of the state report.
#[derive(Debug, Clone, PartialEq, Eq)]
pub enum StateLine {
    /// The heading of the whole report.
    RepositoryHeader,
    /// The branch that is checked out.
    Branch(String),
    /// The heading of an area.
    Header(Section),
    /// The area holds no change at all.
    NoChanges(Section),
    /// The area holds no change of this kind.
    NoFiles(Section, ChangeKind),
    /// The heading of the paths with this kind of change.
    Files(Section, ChangeKind),
    /// One path with this kind of change.
    Path(ChangeKind, String),
    /// The heading of the untracked paths.
    NewFiles,
    /// One untracked path.
    NewPath(String),
    /// An empty line.
    Blank,
    /// A query could not be started.
    Failure { subject: String, body: String },
    /// How the branch stands against its upstream.
    Standing(CommitState),
}

/// A line of the state report, with its texts as character sequences.
pub enum LineView {
    RepositoryHeader,
    Branch(Seq<char>),
    Header(Section),
    NoChanges(Section),
    NoFiles(Section, ChangeKind),
    Files(Section, ChangeKind),
    Path(ChangeKind, Seq<char>),
    NewFiles,
    NewPath(Seq<char>),
    Blank,
    Failure { subject: Seq<char>, body: Seq<char> },
    Standing(CommitState),
}

impl View for StateLine {
    type V = LineView;

    open spec fn view(&self) -> LineView {
        match self {
            StateLine::RepositoryHeader => LineView::RepositoryHeader,
            StateLine::Branch(name) => LineView::Branch(name@),
            StateLine::Header(section) => LineView::Header(*section),
            StateLine::NoChanges(section) => LineView::NoChanges(*section),
            StateLine::NoFiles(section, kind) => LineView::NoFiles(*section, *kind),
            StateLine::Files(section, kind) => LineView::Files(*section, *kind),
            StateLine::Path(kind, path) => LineView::Path(*kind, path@),
            StateLine::NewFiles => LineView::NewFiles,
            StateLine::NewPath(path) => LineView::NewPath(path@),
            StateLine::Blank => LineView::Blank,
            StateLine::Failure { subject, body } => LineView::Failure {
                subject: subject@,
                body: body@,
            },
            StateLine::Standing(state) => LineView::Standing(*state),
        }
    }
}

/// The views of a list of lines.
pub open spec fn lines_view(lines: Seq<StateLine>) -> Seq<LineView> {
    lines.map_values(|line: StateLine| line@)
}

/// The failure line for a query that could not be started.
pub open spec fn failure_line(subject: &str, error: SpawnError) -> LineView {
    LineView::Failure { subject: subject@, body: error.message@ }
}

/// One line per path, each marked with the kind of change.
pub open spec fn path_lines(kind: ChangeKind, paths: Seq<Seq<char>>) -> Seq<LineView> {
    paths.map_values(|path: Seq<char>| LineView::Path(kind, path))
}

/// One line per untracked path.
pub open spec fn new_path_lines(paths: Seq<Seq<char>>) -> Seq<LineView> {
    paths.map_values(|path: Seq<char>| LineView::NewPath(path))
}

/// The lines for the paths with one kind of change in one area: a failure
/// where the query did not start; a note where it named no path; else a
/// heading and the paths, closed by an empty line after the modified ones.
pub open spec fn kind_lines(
    section: Section,
    kind: ChangeKind,
    answer: Result<String, SpawnError>,
) -> Seq<LineView> {
    match answer {
        Err(error) => seq![failure_line("getting staged changes (git)", error)],
        Ok(text) => if text@.len() == 0 {
            seq![LineView::NoFiles(section, kind)]
        } else {
            seq![LineView::Files(section, kind)] + path_lines(kind, lines_of(text@)) + (if kind
                == ChangeKind::Modified {
                seq![LineView::Blank]
            } else {
                Seq::empty()
            })
        },
    }
}

/// Whether a query answered with at least one character.
pub open spec fn names_something(answer: Result<String, SpawnError>) -> bool {
    answer matches Ok(text) && text@.len() > 0
}

/// The answers of the three queries by kind of change.
#[derive(Debug, PartialEq, Eq)]
pub struct KindAnswers {
    pub modified: Result<String, SpawnError>,
    pub deleted: Result<String, SpawnError>,
    pub renamed: Result<String, SpawnError>,
}

/// The lines of the staged or the unstaged area: the heading; a failure
/// where the overall query did not start; then the three kinds in turn where
/// the overall query named something, else the note that nothing changed.
pub open spec fn area_lines(
    section: Section,
    any: Result<String, SpawnError>,
    kinds: KindAnswers,
) -> Seq<LineView> {
    seq![LineView::Header(section)] + (match any {
        Err(error) => seq![failure_line("getting staged changes (git)", error)],
        Ok(_) => Seq::empty(),
    }) + (if names_something(any) {
        kind_lines(section, ChangeKind::Modified, kinds.modified) + kind_lines(
            section,
            ChangeKind::Deleted,
            kinds.deleted,
        ) + kind_lines(section, ChangeKind::Renamed, kinds.renamed)
    } else {
        seq![LineView::NoChanges(section)]
    })
}

/// The lines of the untracked area.
pub open spec fn untracked_lines(answer: Result<String, SpawnError>) -> Seq<LineView> {
    seq![LineView::Header(Section::Untracked)] + (match answer {
        Err(error) => seq![failure_line("getting staged changes (git)", error)],
        Ok(text) => if text@.len() == 0 {
            seq![LineView::NoChanges(Section::Untracked)]
        } else {
            seq![LineView::NewFiles] + new_path_lines(lines_of(text@)) + seq![LineView::Blank]
        },
    })
}

/// The line that names the branch: the answer without the white space around it.
pub open spec fn branch_lines(answer: Result<String, SpawnError>) -> Seq<LineView> {
    match answer {
        Err(error) => seq![failure_line("getting current branch (git)", error)],
        Ok(text) => seq![LineView::Branch(trimmed(text@))],
    }
}

/// The line on the branch's standing, where there is anything to say.
pub open spec fn standing_lines(answer: Result<String, SpawnError>) -> Seq<LineView> {
    match answer {
        Err(error) => seq![failure_line("getting status diff (git)", error)],
        Ok(text) => {
            let state = shown_state(commit_diff(text@));
            if state == CommitState::UpToDate {
                Seq::empty()
            } else {
                seq![LineView::Standing(state)]
            }
        },
    }
}

/// The failure line for a query that could not be started.
fn failure(subject: &str, error: &SpawnError) -> (r: StateLine)
    ensures
        r@ == failure_line(subject, *error),
{
    StateLine::Failure { subject: subject.to_owned(), body: error.message.clone() }
}

/// A list that holds one line.
fn one_line(line: StateLine) -> (r: Vec<StateLine>)
    ensures
        lines_view(r@) == seq![line@],
{
    let mut out: Vec<StateLine> = Vec::new();
    out.push(line);
    assert(lines_view(out@) =~= seq![line@]);
    out
}

/// Adds the lines of `more` behind those of `out`.
fn append_lines(out: &mut Vec<StateLine>, more: Vec<StateLine>)
    ensures
        lines_view(final(out)@) == lines_view(old(out)@) + lines_view(more@),
{
    let mut more = more;
    let ghost added = more@;
    out.append(&mut more);
    assert(lines_view(out@) =~= lines_view(old(out)@) + lines_view(added));
}

/// Adds one line behind those of `out`.
fn push_line(out: &mut Vec<StateLine>, line: StateLine)
    ensures
        lines_view(final(out)@) == lines_view(old(out)@).push(line@),
{
    out.push(line);
    assert(lines_view(out@) =~= lines_view(old(out)@).push(line@));
}

/// Adds one line per path of `text` behind those of `out`, as changed
/// paths of `kind`, or as untracked paths where `kind` is `None`.
fn push_paths(out: &mut Vec<StateLine>, kind: Option<ChangeKind>, text: &str)
    ensures
        lines_view(final(out)@) == lines_view(old(out)@) + (match kind {
            Some(k) => path_lines(k, lines_of(text@)),
            None => new_path_lines(lines_of(text@)),
        }),
{
    let paths = split_lines(text);
    let ghost all = match kind {
        Some(k) => path_lines(k, lines_of(text@)),
        None => new_path_lines(lines_of(text@)),
    };
    let ghost before = lines_view(out@);
    let mut i: usize = 0;
    assert(before + all.take(0) =~= before);
    while i < paths.len()
        invariant
            i <= paths.len(),
            texts_view(paths@) == lines_of(text@),
            all == (match kind {
                Some(k) => path_lines(k, lines_of(text@)),
                None => new_path_lines(lines_of(text@)),
            }),
            lines_view(out@) == before + all.take(i as int),
        decreases paths.len() - i,
    {
        let path = paths[i].clone();
        assert(path@ == texts_view(paths@)[i as int]);
        let line = match kind {
            Some(k) => StateLine::Path(k, path),
            None => StateLine::NewPath(path),
        };
        assert(line@ == all[i as int]);
        push_line(out, line);
        assert(before + all.take(i + 1) =~= (before + all.take(i as int)).push(all[i as int]));
        i += 1;
    }
    assert(all.take(paths.len() as int) =~= all);
}

/// The lines for the paths with one kind of change in one area.
pub fn display_changes_of_kind(
    section: Section,
    kind: ChangeKind,
    answer: &Result<String, SpawnError>,
) -> (r: Vec<StateLine>)
    ensures
        lines_view(r@) == kind_lines(section, kind, *answer),
{
    match answer {
        Err(error) => one_line(failure("getting staged changes (git)", error)),
        Ok(text) => {
            if text.as_str().is_empty() {
                one_line(StateLine::NoFiles(section, kind))
            } else {
                let mut out = one_line(StateLine::Files(section, kind));
                push_paths(&mut out, Some(kind), text.as_str());
                match kind {
                    ChangeKind::Modified => {
                        push_line(&mut out, StateLine::Blank);
                        assert(lines_view(out@) =~= kind_lines(section, kind, *answer));
                    },
                    _ => {
                        assert(lines_view(out@) =~= kind_lines(section, kind, *answer));
                    },
                }
                out
            }
        },
    }
}

/// The lines of the staged or the unstaged area.
fn display_area(section: Section, any: &Result<String, SpawnError>, kinds: &KindAnswers) -> (r:
    Vec<StateLine>)
    ensures
        lines_view(r@) == area_lines(section, *any, *kinds),
{
    let mut out = one_line(StateLine::Header(section));
    let mut found = false;
    match any {
        Err(error) => {
            push_line(&mut out, failure("getting staged changes (git)", error));
        },
        Ok(text) => {
            found = !text.as_str().is_empty();
        },
    }
    if found {
        append_lines(&mut out, display_changes_of_kind(section, ChangeKind::Modified, &kinds.modified));
        append_lines(&mut out, display_changes_of_kind(section, ChangeKind::Deleted, &kinds.deleted));
        append_lines(&mut out, display_changes_of_kind(section, ChangeKind::Renamed, &kinds.renamed));
    } else {
        push_line(&mut out, StateLine::NoChanges(section));
    }
    assert(lines_view(out@) =~= area_lines(section, *any, *kinds));
    out
}

/// The lines of the staged area.
pub fn display_all_staged_changes(any: &Result<String, SpawnError>, kinds: &KindAnswers) -> (r:
    Vec<StateLine>)
    ensures
        lines_view(r@) == area_lines(Section::Staged, *any, *kinds),
{
    display_area(Section::Staged, any, kinds)
}

/// The lines of the unstaged area.
pub fn display_all_unstaged_changes(any: &Result<String, SpawnError>, kinds: &KindAnswers) -> (r:
    Vec<StateLine>)
    ensures
        lines_view(r@) == area_lines(Section::Unstaged, *any, *kinds),
{
    display_area(Section::Unstaged, any, kinds)
}

/// The lines of the untracked area.
pub fn display_all_untracked_changes(answer: &Result<String, SpawnError>) -> (r: Vec<StateLine>)
    ensures
        lines_view(r@) == untracked_lines(*answer),
{
    let mut out = one_line(StateLine::Header(Section::Untracked));
    match answer {
        Err(error) => {
            push_line(&mut out, failure("getting staged changes (git)", error));
        },
        Ok(text) => {
            if text.as_str().is_empty() {
                push_line(&mut out, StateLine::NoChanges(Section::Untracked));
            } else {
                push_line(&mut out, StateLine::NewFiles);
                push_paths(&mut out, None, text.as_str());
                push_line(&mut out, StateLine::Blank);
            }
        },
    }
    assert(lines_view(out@) =~= untracked_lines(*answer));
    out
}

/// The heading of the whole report.
pub fn display_state_header() -> (r: StateLine)
    ensures
        r@ == LineView::RepositoryHeader,
{
    StateLine::RepositoryHeader
}

/// The line that names the branch that is checked out.
pub fn display_current_branch(answer: &Result<String, SpawnError>) -> (r: Vec<StateLine>)
    ensures
        lines_view(r@) == branch_lines(*answer),
{
    match answer {
        Err(error) => one_line(failure("getting current branch (git)", error)),
        Ok(text) => {
            one_line(StateLine::Branch(trim_text(text.as_str())))
        },
    }
}

/// The line on the branch's standing, read from the short status report.
pub fn display_standing(answer: &Result<String, SpawnError>) -> (r: Vec<StateLine>)
    ensures
        lines_view(r@) == standing_lines(*answer),
{
    match answer {
        Err(error) => one_line(failure("getting status diff (git)", error)),
        Ok(text) => {
            let state = display_commit_state(get_commit_diff(text.clone()));
            match state {
                CommitState::UpToDate => {
                    let out: Vec<StateLine> = Vec::new();
                    assert(lines_view(out@) =~= standing_lines(*answer));
                    out
                },
                _ => one_line(StateLine::Standing(state)),
            }
        },
    }
}

/// The answers of all the queries behind the state report.
#[derive(Debug, PartialEq, Eq)]
pub struct StateAnswers {
    pub branch: Result<String, SpawnError>,
    pub staged_any: Result<String, SpawnError>,
    pub staged: KindAnswers,
    pub unstaged_any: Result<String, SpawnError>,
    pub unstaged: KindAnswers,
    pub untracked: Result<String, SpawnError>,
    pub status: Result<String, SpawnError>,
}

/// Whether `answers` holds the outcomes of the state queries of Git, each
/// in the place of its query.
pub open spec fn answers_of(
    outcomes: Seq<Result<ProcessResult, SpawnError>>,
    answers: StateAnswers,
) -> bool {
    &&& outcomes.len() == git_state_queries().len()
    &&& decoded(outcomes[0], answers.branch)
    &&& decoded(outcomes[1], answers.staged_any)
    &&& decoded(outcomes[2], answers.staged.modified)
    &&& decoded(outcomes[3], answers.staged.deleted)
    &&& decoded(outcomes[4], answers.staged.renamed)
    &&& decoded(outcomes[5], answers.unstaged_any)
    &&& decoded(outcomes[6], answers.unstaged.modified)
    &&& decoded(outcomes[7], answers.unstaged.deleted)
    &&& decoded(outcomes[8], answers.unstaged.renamed)
    &&& decoded(outcomes[9], answers.untracked)
    &&& decoded(outcomes[10], answers.status)
}

impl StateAnswers {
    /// Sorts the outcomes of the state queries of Git, given in the order
    /// of the queries, into their places. There must be one outcome per query.
    pub fn from_outcomes(outcomes: Vec<Result<ProcessResult, SpawnError>>) -> (r: Option<
        StateAnswers,
    >)
        ensures
            outcomes@.len() == git_state_queries().len() ==> (r is Some && answers_of(
                outcomes@,
                r->Some_0,
            )),
            outcomes@.len() != git_state_queries().len() ==> r is None,
    {
        let mut rest = outcomes;
        if rest.len() != 11 {
            return None;
        }
        let status = answer_of(rest.pop().unwrap());
        let untracked = answer_of(rest.pop().unwrap());
        let unstaged_renamed = answer_of(rest.pop().unwrap());
        let unstaged_deleted = answer_of(rest.pop().unwrap());
        let unstaged_modified = answer_of(rest.pop().unwrap());
        let unstaged_any = answer_of(rest.pop().unwrap());
        let staged_renamed = answer_of(rest.pop().unwrap());
        let staged_deleted = answer_of(rest.pop().unwrap());
        let staged_modified = answer_of(rest.pop().unwrap());
        let staged_any = answer_of(rest.pop().unwrap());
        let branch = answer_of(rest.pop().unwrap());
        Some(
            StateAnswers {
                branch,
                staged_any,
                staged: KindAnswers {
                    modified: staged_modified,
                    deleted: staged_deleted,
                    renamed: staged_renamed,
                },
                unstaged_any,
                unstaged: KindAnswers {
                    modified: unstaged_modified,
                    deleted: unstaged_deleted,
                    renamed: unstaged_renamed,
                },
                untracked,
                status,
            },
        )
    }
}

/// The state report of a Git tree: the heading, the branch, the staged,
/// the unstaged and the untracked area, and the branch's standing.
pub open spec fn state_lines(answers: StateAnswers) -> Seq<LineView> {
    seq![LineView::RepositoryHeader] + branch_lines(answers.branch) + area_lines(
        Section::Staged,
        answers.staged_any,
        answers.staged,
    ) + area_lines(Section::Unstaged, answers.unstaged_any, answers.unstaged) + untracked_lines(
        answers.untracked,
    ) + standing_lines(answers.status)
}

pub const STATE_DESCRIPTION: &'static str =
    "This command is intended to display repository metadata including branching information as well as file changes in a concise, human-readable format.";

pub const STATE_WITH_GIT: &'static str =
    "git status (along with other commands for more rich output)";

pub const STATE_WITH_MERCURIAL: &'static str =
    "hg status (along with other commands for more rich output)";

pub const STATE_WITH_BREEZY: &'static str =
    "bzr status (along with other commands for more rich output)";

pub const STATE_TIP: &'static str =
    "Use `scud stage` to stage all unstaged and untracked changes for commit or use `scud commit` to commit any staged changes";

/// The operation that shows the state.
pub open spec fn state_operation() -> Operation {
    Operation { kind: OperationKind::State, dry_run: false, info_only: false }
}

/// What `state` is for, and what each backend runs for it.
pub fn execute_state_info() -> (r: Vec<DiagnosticKind<'static>>)
    ensures
        command_and_backends(
            r@,
            "state",
            STATE_DESCRIPTION,
            STATE_WITH_GIT,
            STATE_WITH_MERCURIAL,
            STATE_WITH_BREEZY,
        ),
{
    two_reports(
        DiagnosticKind::ScudCommandInfo { command: "state", description: STATE_DESCRIPTION },
        DiagnosticKind::VCSInfo {
            command_name: "state",
            git_command: STATE_WITH_GIT,
            mercurial_command: STATE_WITH_MERCURIAL,
            breezy_command: STATE_WITH_BREEZY,
        },
    )
}

/// The state report of a Git tree, from the answers of its queries.
pub fn execute_state_git(answers: &StateAnswers) -> (r: Vec<StateLine>)
    ensures
        lines_view(r@) == state_lines(*answers),
{
    let mut out = one_line(display_state_header());
    append_lines(&mut out, display_current_branch(&answers.branch));
    append_lines(&mut out, display_all_staged_changes(&answers.staged_any, &answers.staged));
    append_lines(
        &mut out,
        display_all_unstaged_changes(&answers.unstaged_any, &answers.unstaged),
    );
    append_lines(&mut out, display_all_untracked_changes(&answers.untracked));
    append_lines(&mut out, display_standing(&answers.status));
    out
}

/// The state of a Mercurial tree cannot be read: the one report says
/// that the combination is not supported. There is no state line.
pub fn execute_state_mercurial() -> (r: Vec<DiagnosticKind<'static>>)
    ensures
        explains(r@, ScudError::UnsupportedCombination),
{
    explain(ScudError::UnsupportedCombination)
}

/// The state of a Breezy tree cannot be read: the one report says that
/// the combination is not supported. There is no state line.
pub fn execute_state_breezy() -> (r: Vec<DiagnosticKind<'static>>)
    ensures
        explains(r@, ScudError::UnsupportedCombination),
{
    explain(ScudError::UnsupportedCombination)
}

/// What `state` comes to for each setting of its flag.
pub open spec fn state_decision(options: State, r: Action) -> bool {
    if options.info {
        r is Report && command_and_backends(
            r->Report_0@,
            "state",
            STATE_DESCRIPTION,
            STATE_WITH_GIT,
            STATE_WITH_MERCURIAL,
            STATE_WITH_BREEZY,
        )
    } else {
        r is Resolve && r->first@.len() == 0 && r->operation == state_operation()
    }
}

/// Decides what `state` does: a request for information only informs, and
/// anything else shows the state on the backend that governs the tree.
pub fn state_command(state_options: State) -> (r: Action<'static>)
    ensures
        state_decision(state_options, r),
{
    if state_options.info {
        Action::Report(execute_state_info())
    } else {
        Action::Resolve {
            first: Vec::new(),
            operation: Operation { kind: OperationKind::State, dry_run: false, info_only: false },
        }
    }
}

/// The state on a resolved backend. Git runs its queries, which change
/// nothing, and the tip on what to do next follows the report. On the other
/// backends nothing is run and nothing is shown but the one report that the
/// combination is not supported.
pub fn execute_state(vcs: VCS) -> (r: Execution<'static>)
    ensures
        r.pipeline@ == pipeline_of(state_operation(), vcs),
        reads_only(r.pipeline@),
        vcs == VCS::Git ==> only_tip(r.reports@, STATE_TIP),
        vcs != VCS::Git ==> r.pipeline@ is None && explains(
            r.reports@,
            ScudError::UnsupportedCombination,
        ),
{
    proof {
        law_looking_changes_nothing(state_operation(), vcs);
    }
    let pipeline = route(
        Operation { kind: OperationKind::State, dry_run: false, info_only: false },
        vcs,
    );
    let reports = match vcs {
        VCS::Git => one_report(DiagnosticKind::Tip { body: STATE_TIP }),
        VCS::Mercurial => execute_state_mercurial(),
        VCS::Breezy => execute_state_breezy(),
    };
    Execution { pipeline, reports }
}

} // verus!
