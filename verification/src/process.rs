//! Invocations of backend binaries as plain data, and the routing of an
//! abstract operation to the invocations that carry it out.
use vstd::prelude::*;
use crate::cli::VCS;
use crate::error::ScudError;
use crate::text::texts_view;

verus! {

/// One call of an outside binary: its name and its arguments.
#[derive(Debug, Clone, PartialEq, Eq)]
pub struct Invocation {
    pub binary: String,
    pub args: Vec<String>,
}

impl View for Invocation {
    type V = Seq<Seq<char>>;

    /// The argument vector: the binary's name, then the arguments.
    open spec fn view(&self) -> Seq<Seq<char>> {
        seq![self.binary@] + texts_view(self.args@)
    }
}

impl Invocation {
    /// A call of `binary` without arguments.
    pub fn new(binary: &str) -> (r: Invocation)
        ensures
            r@ == seq![binary@],
    {
        let r = Invocation { binary: binary.to_owned(), args: Vec::new() };
        assert(r@ =~= seq![binary@]);
        r
    }

    /// The same call with one more argument at the end.
    pub fn arg(self, value: &str) -> (r: Invocation)
        ensures
            r@ == self@.push(value@),
    {
        let mut args = self.args;
        args.push(value.to_owned());
        let r = Invocation { binary: self.binary, args };
        assert(r@ =~= self@.push(value@));
        r
    }
}

/// What a finished process left behind.
#[derive(Debug, Clone, PartialEq, Eq)]
pub struct ProcessResult {
    pub stdout: Vec<u8>,
    pub stderr: Vec<u8>,
    pub exit_status: i32,
}

/// Why a binary could not be started.
#[derive(Debug, Clone, PartialEq, Eq)]
pub struct SpawnError {
    pub message: String,
}

/// The text that a lossy UTF-8 decoding makes of a run of bytes.
pub uninterp spec fn lossy_text(bytes: Seq<u8>) -> Seq<char>;

/// Decodes captured output with `String::from_utf8_lossy`. The contract
/// names the text that the decoder gives for these bytes, and says of it only
/// that it is empty for no bytes and for nothing else: every byte ends up in a
/// character, its own or the one that stands for what could not be decoded.
#[verifier::external_body]
pub(crate) fn decode_lossy(bytes: &Vec<u8>) -> (r: String)
    ensures
        r@ == lossy_text(bytes@),
        r@.len() == 0 <==> bytes@.len() == 0,
{
    String::from_utf8_lossy(bytes).into_owned()
}

impl ProcessResult {
    /// What the process wrote to its standard output, as text.
    pub fn stdout_text(&self) -> (r: String)
        ensures
            r@ == lossy_text(self.stdout@),
            r@.len() == 0 <==> self.stdout@.len() == 0,
    {
        decode_lossy(&self.stdout)
    }
}

/// Whether `answer` is what `outcome` comes to as text: the decoded
/// output of a process that was started, which is empty exactly where the
/// process wrote nothing; or the failure of one that was not.
pub open spec fn decoded(
    outcome: Result<ProcessResult, SpawnError>,
    answer: Result<String, SpawnError>,
) -> bool {
    match outcome {
        Ok(done) => answer is Ok && answer->Ok_0@ == lossy_text(done.stdout@) && (
        answer->Ok_0@.len() == 0 <==> done.stdout@.len() == 0),
        Err(error) => answer == Err::<String, SpawnError>(error),
    }
}

/// What a started process answered, as text; or why it was not started.
pub fn answer_of(outcome: Result<ProcessResult, SpawnError>) -> (r: Result<String, SpawnError>)
    ensures
        decoded(outcome, r),
{
    match outcome {
        Ok(done) => Ok(done.stdout_text()),
        Err(error) => Err(error),
    }
}

/// The abstract operations.
#[derive(Clone, Copy, Debug, PartialEq, Eq, Structural)]
pub enum OperationKind {
    Stage,
    Unstage,
    Commit,
    Diff,
    Push,
    Pull,
    State,
    BranchList,
}

/// An abstract operation with the flags it was asked with.
#[derive(Clone, Copy, Debug, PartialEq, Eq, Structural)]
pub struct Operation {
    pub kind: OperationKind,
    pub dry_run: bool,
    pub info_only: bool,
}

/// The invocations that realise one operation against one backend.
#[derive(Debug, Clone, PartialEq, Eq)]
pub enum CommandPipeline {
    /// Run these, in this order.
    Invocations(Vec<Invocation>),
    /// The combination is not implemented; nothing is to be run.
    NotYetSupported,
}

/// The argument vectors of a list of invocations.
pub open spec fn argvs(steps: Seq<Invocation>) -> Seq<Seq<Seq<char>>> {
    steps.map_values(|step: Invocation| step@)
}

impl View for CommandPipeline {
    type V = Option<Seq<Seq<Seq<char>>>>;

    open spec fn view(&self) -> Option<Seq<Seq<Seq<char>>>> {
        match self {
            CommandPipeline::Invocations(steps) => Some(argvs(steps@)),
            CommandPipeline::NotYetSupported => None,
        }
    }
}

impl CommandPipeline {
    /// The invocations to run, or the error that the combination is not supported.
    pub fn steps(self) -> (r: Result<Vec<Invocation>, ScudError>)
        ensures
            match self@ {
                Some(calls) => r is Ok && argvs(r->Ok_0@) == calls,
                None => r == Err::<Vec<Invocation>, ScudError>(ScudError::UnsupportedCombination),
            },
    {
        match self {
            CommandPipeline::Invocations(steps) => Ok(steps),
            CommandPipeline::NotYetSupported => Err(ScudError::UnsupportedCombination),
        }
    }
}

/// `git diff --name-only` narrowed to one kind of change, on the index or on the working tree.
pub open spec fn filtered_diff(staged: bool, filter: &str) -> Seq<Seq<char>> {
    if staged {
        seq!["git"@, "diff"@, "--name-only"@, "--staged"@, "--diff-filter"@, filter@]
    } else {
        seq!["git"@, "diff"@, "--name-only"@, "--diff-filter"@, filter@]
    }
}

/// The read-only queries from which the state of a Git tree is assembled.
pub open spec fn git_state_queries() -> Seq<Seq<Seq<char>>> {
    seq![
        seq!["git"@, "branch"@, "--show-current"@],
        seq!["git"@, "diff"@, "--cached"@, "--name-only"@],
        filtered_diff(true, "M"),
        filtered_diff(true, "D"),
        filtered_diff(true, "R"),
        seq!["git"@, "diff"@, "--name-only"@],
        filtered_diff(false, "M"),
        filtered_diff(false, "D"),
        filtered_diff(false, "R"),
        seq!["git"@, "ls-files"@, "--others"@, "--exclude-standard"@],
        seq!["git"@, "status"@, "-sb"@],
    ]
}

/// The query for the paths that are staged.
pub open spec fn staged_query() -> Seq<Seq<char>> {
    seq!["git"@, "diff"@, "--name-only"@, "--cached"@]
}

/// The invocations of Git for an operation. A dry run is not skipped: it
/// takes the form of the command that changes nothing. Staging and pushing
/// have such a form of their own. Unstaging has none, so its dry run asks for
/// the paths that would leave the index. The commit asks for the staged paths
/// first, dry run or not. A request for information alone runs nothing.
pub open spec fn git_pipeline(op: Operation) -> Option<Seq<Seq<Seq<char>>>> {
    match op.kind {
        OperationKind::Pull => None,
        OperationKind::Push => if op.dry_run {
            Some(seq![seq!["git"@, "push"@, "--dry-run"@]])
        } else if op.info_only {
            Some(Seq::empty())
        } else {
            Some(seq![seq!["git"@, "push"@]])
        },
        OperationKind::Stage => if op.dry_run {
            Some(seq![seq!["git"@, "add"@, "-A"@, "--dry-run"@]])
        } else if op.info_only {
            Some(Seq::empty())
        } else {
            Some(seq![seq!["git"@, "add"@, "-A"@]])
        },
        OperationKind::Unstage => if op.dry_run {
            Some(seq![staged_query()])
        } else if op.info_only {
            Some(Seq::empty())
        } else {
            Some(seq![seq!["git"@, "reset"@]])
        },
        OperationKind::Commit => if op.dry_run {
            Some(seq![staged_query()])
        } else if op.info_only {
            Some(Seq::empty())
        } else {
            Some(seq![staged_query()])
        },
        OperationKind::Diff => if op.dry_run {
            Some(seq![seq!["git"@, "diff"@]])
        } else if op.info_only {
            Some(Seq::empty())
        } else {
            Some(seq![seq!["git"@, "diff"@]])
        },
        OperationKind::State => if op.dry_run {
            Some(git_state_queries())
        } else if op.info_only {
            Some(Seq::empty())
        } else {
            Some(git_state_queries())
        },
        OperationKind::BranchList => if op.dry_run {
            Some(seq![seq!["git"@, "branch"@, "-a"@]])
        } else if op.info_only {
            Some(Seq::empty())
        } else {
            Some(seq![seq!["git"@, "branch"@, "-a"@]])
        },
    }
}

/// The pipeline of every pair of operation and backend. Only Git has any;
/// the other backends are not yet supported, whatever the operation.
pub open spec fn pipeline_of(op: Operation, backend: VCS) -> Option<Seq<Seq<Seq<char>>>> {
    match backend {
        VCS::Git => git_pipeline(op),
        VCS::Mercurial => None,
        VCS::Breezy => None,
    }
}

/// A pipeline of exactly one invocation.
fn single(step: Invocation) -> (r: CommandPipeline)
    ensures
        r@ == Some(seq![step@]),
{
    let mut steps: Vec<Invocation> = Vec::new();
    steps.push(step);
    assert(argvs(steps@) =~= seq![step@]);
    CommandPipeline::Invocations(steps)
}

/// A pipeline that runs nothing.
fn nothing() -> (r: CommandPipeline)
    ensures
        r@ == Some(Seq::<Seq<Seq<char>>>::empty()),
{
    let steps: Vec<Invocation> = Vec::new();
    assert(argvs(steps@) =~= Seq::<Seq<Seq<char>>>::empty());
    CommandPipeline::Invocations(steps)
}

/// The query for the paths that are staged.
pub fn git_staged_query() -> (r: Invocation)
    ensures
        r@ == staged_query(),
{
    let r = Invocation::new("git").arg("diff").arg("--name-only").arg("--cached");
    assert(r@ =~= staged_query());
    r
}

/// The query for the paths with one kind of change.
fn git_filtered_diff(staged: bool, filter: &str) -> (r: Invocation)
    ensures
        r@ == filtered_diff(staged, filter),
{
    let base = Invocation::new("git").arg("diff").arg("--name-only");
    let r = if staged {
        base.arg("--staged").arg("--diff-filter").arg(filter)
    } else {
        base.arg("--diff-filter").arg(filter)
    };
    assert(r@ =~= filtered_diff(staged, filter));
    r
}

/// The queries behind the state of a Git tree.
fn git_state_pipeline() -> (r: CommandPipeline)
    ensures
        r@ == Some(git_state_queries()),
{
    let mut steps: Vec<Invocation> = Vec::new();
    let branch = Invocation::new("git").arg("branch").arg("--show-current");
    assert(branch@ =~= seq!["git"@, "branch"@, "--show-current"@]);
    steps.push(branch);
    let staged = Invocation::new("git").arg("diff").arg("--cached").arg("--name-only");
    assert(staged@ =~= seq!["git"@, "diff"@, "--cached"@, "--name-only"@]);
    steps.push(staged);
    steps.push(git_filtered_diff(true, "M"));
    steps.push(git_filtered_diff(true, "D"));
    steps.push(git_filtered_diff(true, "R"));
    let unstaged = Invocation::new("git").arg("diff").arg("--name-only");
    assert(unstaged@ =~= seq!["git"@, "diff"@, "--name-only"@]);
    steps.push(unstaged);
    steps.push(git_filtered_diff(false, "M"));
    steps.push(git_filtered_diff(false, "D"));
    steps.push(git_filtered_diff(false, "R"));
    let untracked = Invocation::new("git").arg("ls-files").arg("--others").arg(
        "--exclude-standard",
    );
    assert(untracked@ =~= seq!["git"@, "ls-files"@, "--others"@, "--exclude-standard"@]);
    steps.push(untracked);
    let status = Invocation::new("git").arg("status").arg("-sb");
    assert(status@ =~= seq!["git"@, "status"@, "-sb"@]);
    steps.push(status);
    assert(argvs(steps@) =~= git_state_queries());
    CommandPipeline::Invocations(steps)
}

/// The pipeline of an operation on a Git tree.
fn route_git(op: Operation) -> (r: CommandPipeline)
    ensures
        r@ == git_pipeline(op),
{
    match op.kind {
        OperationKind::Pull => CommandPipeline::NotYetSupported,
        OperationKind::Push => {
            if op.dry_run {
                let step = Invocation::new("git").arg("push").arg("--dry-run");
                assert(step@ =~= seq!["git"@, "push"@, "--dry-run"@]);
                single(step)
            } else if op.info_only {
                nothing()
            } else {
                let step = Invocation::new("git").arg("push");
                assert(step@ =~= seq!["git"@, "push"@]);
                single(step)
            }
        },
        OperationKind::Stage => {
            if op.dry_run {
                let step = Invocation::new("git").arg("add").arg("-A").arg("--dry-run");
                assert(step@ =~= seq!["git"@, "add"@, "-A"@, "--dry-run"@]);
                single(step)
            } else if op.info_only {
                nothing()
            } else {
                let step = Invocation::new("git").arg("add").arg("-A");
                assert(step@ =~= seq!["git"@, "add"@, "-A"@]);
                single(step)
            }
        },
        OperationKind::Unstage => {
            if op.dry_run {
                single(git_staged_query())
            } else if op.info_only {
                nothing()
            } else {
                let step = Invocation::new("git").arg("reset");
                assert(step@ =~= seq!["git"@, "reset"@]);
                single(step)
            }
        },
        OperationKind::Commit => {
            if !op.dry_run && op.info_only {
                nothing()
            } else {
                single(git_staged_query())
            }
        },
        OperationKind::Diff => {
            if !op.dry_run && op.info_only {
                nothing()
            } else {
                let step = Invocation::new("git").arg("diff");
                assert(step@ =~= seq!["git"@, "diff"@]);
                single(step)
            }
        },
        OperationKind::State => {
            if !op.dry_run && op.info_only {
                nothing()
            } else {
                git_state_pipeline()
            }
        },
        OperationKind::BranchList => {
            if !op.dry_run && op.info_only {
                nothing()
            } else {
                let step = Invocation::new("git").arg("branch").arg("-a");
                assert(step@ =~= seq!["git"@, "branch"@, "-a"@]);
                single(step)
            }
        },
    }
}

/// Maps an operation and a backend to the invocations that carry it out.
/// Nothing is run here: the result is data.
pub fn route(op: Operation, backend: VCS) -> (r: CommandPipeline)
    ensures
        r@ == pipeline_of(op, backend),
{
    match backend {
        VCS::Git => route_git(op),
        VCS::Mercurial => CommandPipeline::NotYetSupported,
        VCS::Breezy => CommandPipeline::NotYetSupported,
    }
}

/// Routing depends on nothing but its two arguments: two pipelines routed
/// from equal operations and equal backends are equal.
pub proof fn law_route_is_a_function(
    op1: Operation,
    backend1: VCS,
    p1: CommandPipeline,
    op2: Operation,
    backend2: VCS,
    p2: CommandPipeline,
)
    requires
        op1 == op2,
        backend1 == backend2,
        p1@ == pipeline_of(op1, backend1),
        p2@ == pipeline_of(op2, backend2),
    ensures
        p1@ == p2@,
{
}

/// A backend other than Git never gets an invocation.
pub proof fn law_only_git_is_routed(op: Operation, backend: VCS)
    requires
        backend != VCS::Git,
    ensures
        pipeline_of(op, backend) is None,
{
}

/// Whether a call changes the index, the history or the remote
/// repository: a call of Git to add, reset, commit or push that is not marked
/// as a dry run.
pub open spec fn mutates(call: Seq<Seq<char>>) -> bool {
    call.len() >= 2 && call[0] == "git"@ && (call[1] == "add"@ || call[1] == "reset"@ || call[1]
        == "commit"@ || call[1] == "push"@) && !call.contains("--dry-run"@)
}

/// The subcommands that only read are none of those that write.
pub proof fn lemma_reading_subcommands()
    ensures
        "diff"@ != "add"@ && "diff"@ != "reset"@ && "diff"@ != "commit"@ && "diff"@ != "push"@,
        "branch"@ != "add"@ && "branch"@ != "reset"@ && "branch"@ != "commit"@ && "branch"@
            != "push"@,
        "status"@ != "add"@ && "status"@ != "reset"@ && "status"@ != "commit"@ && "status"@
            != "push"@,
        "ls-files"@ != "add"@ && "ls-files"@ != "reset"@ && "ls-files"@ != "commit"@
            && "ls-files"@ != "push"@,
{
    reveal_strlit("diff");
    reveal_strlit("branch");
    reveal_strlit("status");
    reveal_strlit("ls-files");
    reveal_strlit("add");
    reveal_strlit("reset");
    reveal_strlit("commit");
    reveal_strlit("push");
    assert("diff"@[0] == 'd' && "branch"@[0] == 'b' && "status"@[0] == 's' && "ls-files"@[0]
        == 'l');
    assert("add"@[0] == 'a' && "reset"@[0] == 'r' && "commit"@[0] == 'c' && "push"@[0] == 'p');
}

/// None of the state queries of Git changes anything.
proof fn lemma_state_queries_read()
    ensures
        forall|i: int|
            0 <= i < git_state_queries().len() ==> !mutates(#[trigger] git_state_queries()[i]),
{
    lemma_reading_subcommands();
    let q = git_state_queries();
    assert(q[0][1] == "branch"@);
    assert(q[1][1] == "diff"@);
    assert(q[2][1] == "diff"@);
    assert(q[3][1] == "diff"@);
    assert(q[4][1] == "diff"@);
    assert(q[5][1] == "diff"@);
    assert(q[6][1] == "diff"@);
    assert(q[7][1] == "diff"@);
    assert(q[8][1] == "diff"@);
    assert(q[9][1] == "ls-files"@);
    assert(q[10][1] == "status"@);
    assert forall|i: int| 0 <= i < q.len() implies !mutates(#[trigger] q[i]) by {
        assert(q[i][1] == "diff"@ || q[i][1] == "branch"@ || q[i][1] == "status"@ || q[i][1]
            == "ls-files"@);
    }
}

/// Whether no call of a pipeline changes anything. A combination that is
/// not supported has no call at all.
pub open spec fn reads_only(pipeline: Option<Seq<Seq<Seq<char>>>>) -> bool {
    match pipeline {
        Some(calls) => forall|i: int| 0 <= i < calls.len() ==> !mutates(#[trigger] calls[i]),
        None => true,
    }
}

/// A dry run never holds a call that changes the index, the history or
/// the remote repository, whatever the operation and the backend; and on Git
/// it is never skipped: unless the operation is not supported at all, there is
/// a call to run.
pub proof fn law_dry_run_changes_nothing(op: Operation, backend: VCS)
    requires
        op.dry_run,
    ensures
        reads_only(pipeline_of(op, backend)),
        backend == VCS::Git && op.kind != OperationKind::Pull ==> (pipeline_of(op, backend)
            matches Some(calls) && calls.len() > 0),
{
    lemma_reading_subcommands();
    lemma_state_queries_read();
    if backend == VCS::Git {
        match op.kind {
            OperationKind::Stage => {
                let call = seq!["git"@, "add"@, "-A"@, "--dry-run"@];
                assert(call[3] == "--dry-run"@);
                assert(!mutates(call));
            },
            OperationKind::Push => {
                let call = seq!["git"@, "push"@, "--dry-run"@];
                assert(call[2] == "--dry-run"@);
                assert(!mutates(call));
            },
            OperationKind::Unstage => {
                assert(staged_query()[1] == "diff"@);
                assert(!mutates(staged_query()));
            },
            OperationKind::Commit => {
                assert(staged_query()[1] == "diff"@);
                assert(!mutates(staged_query()));
            },
            OperationKind::Diff => {
                let call = seq!["git"@, "diff"@];
                assert(call[1] == "diff"@);
                assert(!mutates(call));
            },
            OperationKind::BranchList => {
                let call = seq!["git"@, "branch"@, "-a"@];
                assert(call[1] == "branch"@);
                assert(!mutates(call));
            },
            _ => {},
        }
    }
}

/// The operations that only look never hold a call that changes anything,
/// dry run or not: the diff, the state and the list of branches.
pub proof fn law_looking_changes_nothing(op: Operation, backend: VCS)
    requires
        op.kind == OperationKind::Diff || op.kind == OperationKind::State || op.kind
            == OperationKind::BranchList,
    ensures
        reads_only(pipeline_of(op, backend)),
{
    lemma_reading_subcommands();
    lemma_state_queries_read();
    if backend == VCS::Git {
        let diff = seq!["git"@, "diff"@];
        assert(diff[1] == "diff"@);
        assert(!mutates(diff));
        let branches = seq!["git"@, "branch"@, "-a"@];
        assert(branches[1] == "branch"@);
        assert(!mutates(branches));
    }
}

/// A request for information alone never runs anything.
pub proof fn law_information_runs_nothing(op: Operation, backend: VCS)
    requires
        op.info_only,
        !op.dry_run,
    ensures
        match pipeline_of(op, backend) {
            Some(calls) => calls.len() == 0,
            None => true,
        },
{
}

} // verus!
