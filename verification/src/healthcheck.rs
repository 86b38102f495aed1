//! The `healthcheck` command: which of the programs that the tool drives
//! are installed.
use vstd::prelude::*;
use crate::action::two_reports;
use crate::diagnostics::DiagnosticKind;
use crate::info::TOOL_MISSING;
use crate::process::{argvs, CommandPipeline, Invocation, SpawnError};
use crate::text::{first_line, first_line_of};

verus! {

/// The programs that the healthcheck looks for.
#[derive(Clone, Copy, Debug, PartialEq, Eq, Structural)]
pub enum Tool {
    Git,
    Mercurial,
    Breezy,
    GitHub,
    GitLab,
}

pub const GITHUB_HINT: &'static str =
    "If you wish to use GitHub for your underlying source control provider within scud, try installing it with scud's built-in setup command ";

pub const GITLAB_HINT: &'static str =
    "If you wish to use GitLab for your underlying source control provider within scud, try installing it with scud's built-in setup command";

pub const GIT_HINT: &'static str = "Try installing it with scud's built-in setup command";

pub const MERCURIAL_HINT: &'static str =
    "If you wish to use Mercurial for your underlying VCS with scud, try installing it on your local machine with scud's builtin setup command";

pub const BREEZY_HINT: &'static str = "Try installing it with scud's builtin setup command";

impl Tool {
    /// The name of the program's binary.
    pub open spec fn binary(self) -> Seq<char> {
        match self {
            Tool::Git => "git"@,
            Tool::Mercurial => "hg"@,
            Tool::Breezy => "brz"@,
            Tool::GitHub => "gh"@,
            Tool::GitLab => "glab"@,
        }
    }

    /// The call that asks the program for its version.
    pub open spec fn probe(self) -> Seq<Seq<char>> {
        seq![self.binary(), "--version"@]
    }
}

/// Whether `reports` says that a program is missing, under `subject`, and
/// hints at `command` with the words of `hint`.
pub open spec fn missing(
    reports: Seq<DiagnosticKind>,
    subject: &str,
    hint: &str,
    command: &str,
) -> bool {
    reports.len() == 2 && reports[0].is_error(subject, TOOL_MISSING) && reports[1].is_hint(
        hint,
        command,
    )
}

/// The reports that a program is missing.
fn report_missing(subject: &'static str, hint: &'static str, command: &'static str) -> (r: Vec<
    DiagnosticKind<'static>,
>)
    ensures
        missing(r@, subject, hint, command),
{
    two_reports(
        DiagnosticKind::Error { subject, body: TOOL_MISSING },
        DiagnosticKind::Hint { body: hint, command },
    )
}

/// The call that asks `tool` for its version.
pub fn version_probe(tool: Tool) -> (r: Invocation)
    ensures
        r@ == tool.probe(),
{
    let binary = match tool {
        Tool::Git => "git",
        Tool::Mercurial => "hg",
        Tool::Breezy => "brz",
        Tool::GitHub => "gh",
        Tool::GitLab => "glab",
    };
    let r = Invocation::new(binary).arg("--version");
    assert(r@ =~= tool.probe());
    r
}

/// The probes for the three backends.
pub fn execute_healthcheck_vcs() -> (r: Vec<Invocation>)
    ensures
        argvs(r@) == seq![Tool::Git.probe(), Tool::Mercurial.probe(), Tool::Breezy.probe()],
{
    let mut probes: Vec<Invocation> = Vec::new();
    probes.push(version_probe(Tool::Git));
    probes.push(version_probe(Tool::Mercurial));
    probes.push(version_probe(Tool::Breezy));
    assert(argvs(probes@) =~= seq![
        Tool::Git.probe(),
        Tool::Mercurial.probe(),
        Tool::Breezy.probe(),
    ]);
    probes
}

/// The probes for the command lines of the two hosting providers.
pub fn execute_healthcheck_source_control() -> (r: Vec<Invocation>)
    ensures
        argvs(r@) == seq![Tool::GitHub.probe(), Tool::GitLab.probe()],
{
    let mut probes: Vec<Invocation> = Vec::new();
    probes.push(version_probe(Tool::GitHub));
    probes.push(version_probe(Tool::GitLab));
    assert(argvs(probes@) =~= seq![Tool::GitHub.probe(), Tool::GitLab.probe()]);
    probes
}

/// The probes of the healthcheck: the backends first, then the providers.
pub open spec fn all_probes() -> Seq<Seq<Seq<char>>> {
    seq![
        Tool::Git.probe(),
        Tool::Mercurial.probe(),
        Tool::Breezy.probe(),
        Tool::GitHub.probe(),
        Tool::GitLab.probe(),
    ]
}

/// The probes of the healthcheck: the backends first, then the providers.
pub fn healthcheck_command() -> (r: CommandPipeline)
    ensures
        r@ == Some(all_probes()),
{
    let mut probes = execute_healthcheck_vcs();
    let mut more = execute_healthcheck_source_control();
    let ghost first = probes@;
    let ghost second = more@;
    probes.append(&mut more);
    assert(argvs(probes@) =~= argvs(first) + argvs(second));
    assert(argvs(probes@) =~= seq![
        Tool::Git.probe(),
        Tool::Mercurial.probe(),
        Tool::Breezy.probe(),
        Tool::GitHub.probe(),
        Tool::GitLab.probe(),
    ]);
    CommandPipeline::Invocations(probes)
}

/// The programs in the order in which the healthcheck probes them.
pub fn probed_tools() -> (r: Vec<Tool>)
    ensures
        r@ == seq![Tool::Git, Tool::Mercurial, Tool::Breezy, Tool::GitHub, Tool::GitLab],
        r@.map_values(|tool: Tool| tool.probe()) == all_probes(),
{
    let mut tools: Vec<Tool> = Vec::new();
    tools.push(Tool::Git);
    tools.push(Tool::Mercurial);
    tools.push(Tool::Breezy);
    tools.push(Tool::GitHub);
    tools.push(Tool::GitLab);
    assert(tools@ =~= seq![Tool::Git, Tool::Mercurial, Tool::Breezy, Tool::GitHub, Tool::GitLab]);
    assert(tools@.map_values(|tool: Tool| tool.probe()) =~= all_probes());
    tools
}

/// What the probe for Git shows: all that Git answered, or that Git is missing.
pub fn healthcheck_vcs_git(answer: &Result<String, SpawnError>) -> (r: Result<
    String,
    Vec<DiagnosticKind<'static>>,
>)
    ensures
        match *answer {
            Ok(text) => r is Ok && r->Ok_0@ == text@,
            Err(_) => r is Err && missing(r->Err_0@, "Git", GIT_HINT, "scud setup vcs git"),
        },
{
    match answer {
        Ok(text) => Ok(text.clone()),
        Err(_) => Err(report_missing("Git", GIT_HINT, "scud setup vcs git")),
    }
}

/// What the probe for Mercurial shows: the first line of its answer, or
/// that Mercurial is missing.
pub fn healthcheck_vcs_hg(answer: &Result<String, SpawnError>) -> (r: Result<
    String,
    Vec<DiagnosticKind<'static>>,
>)
    ensures
        match *answer {
            Ok(text) => r is Ok && r->Ok_0@ == first_line(text@),
            Err(_) => r is Err && missing(
                r->Err_0@,
                "Mercurial",
                MERCURIAL_HINT,
                "scud setup vcs mercurial",
            ),
        },
{
    match answer {
        Ok(text) => Ok(first_line_of(text.as_str())),
        Err(_) => Err(report_missing("Mercurial", MERCURIAL_HINT, "scud setup vcs mercurial")),
    }
}

/// What the probe for Breezy shows: the first line of its answer, or that
/// Breezy is missing.
pub fn healthcheck_vcs_brz(answer: &Result<String, SpawnError>) -> (r: Result<
    String,
    Vec<DiagnosticKind<'static>>,
>)
    ensures
        match *answer {
            Ok(text) => r is Ok && r->Ok_0@ == first_line(text@),
            Err(_) => r is Err && missing(
                r->Err_0@,
                "Breezy",
                BREEZY_HINT,
                "scud setup vcs breezy",
            ),
        },
{
    match answer {
        Ok(text) => Ok(first_line_of(text.as_str())),
        Err(_) => Err(report_missing("Breezy", BREEZY_HINT, "scud setup vcs breezy")),
    }
}

/// What the probe for the command line of GitHub shows: the first line of
/// its answer, or that it is missing.
pub fn healthcheck_sc_github(answer: &Result<String, SpawnError>) -> (r: Result<
    String,
    Vec<DiagnosticKind<'static>>,
>)
    ensures
        match *answer {
            Ok(text) => r is Ok && r->Ok_0@ == first_line(text@),
            Err(_) => r is Err && missing(
                r->Err_0@,
                "Github CLI",
                GITHUB_HINT,
                "scud setup sc github",
            ),
        },
{
    match answer {
        Ok(text) => Ok(first_line_of(text.as_str())),
        Err(_) => Err(report_missing("Github CLI", GITHUB_HINT, "scud setup sc github")),
    }
}

/// What the probe for the command line of GitLab shows: the first line of
/// its answer, or that it is missing.
pub fn healthcheck_sc_gitlab(answer: &Result<String, SpawnError>) -> (r: Result<
    String,
    Vec<DiagnosticKind<'static>>,
>)
    ensures
        match *answer {
            Ok(text) => r is Ok && r->Ok_0@ == first_line(text@),
            Err(_) => r is Err && missing(
                r->Err_0@,
                "GitLab CLI",
                GITLAB_HINT,
                "scud setup sc gitlab",
            ),
        },
{
    match answer {
        Ok(text) => Ok(first_line_of(text.as_str())),
        Err(_) => Err(report_missing("GitLab CLI", GITLAB_HINT, "scud setup sc gitlab")),
    }
}

/// What the probe for `tool` shows.
pub open spec fn probe_shows(
    tool: Tool,
    answer: Result<String, SpawnError>,
    r: Result<String, Vec<DiagnosticKind>>,
) -> bool {
    match answer {
        Ok(text) => r is Ok && r->Ok_0@ == (if tool == Tool::Git {
            text@
        } else {
            first_line(text@)
        }),
        Err(_) => r is Err && match tool {
            Tool::Git => missing(r->Err_0@, "Git", GIT_HINT, "scud setup vcs git"),
            Tool::Mercurial => missing(
                r->Err_0@,
                "Mercurial",
                MERCURIAL_HINT,
                "scud setup vcs mercurial",
            ),
            Tool::Breezy => missing(r->Err_0@, "Breezy", BREEZY_HINT, "scud setup vcs breezy"),
            Tool::GitHub => missing(r->Err_0@, "Github CLI", GITHUB_HINT, "scud setup sc github"),
            Tool::GitLab => missing(r->Err_0@, "GitLab CLI", GITLAB_HINT, "scud setup sc gitlab"),
        },
    }
}

/// What the probe for `tool` shows: its version, or that it is missing.
pub fn healthcheck_report(tool: Tool, answer: &Result<String, SpawnError>) -> (r: Result<
    String,
    Vec<DiagnosticKind<'static>>,
>)
    ensures
        probe_shows(tool, *answer, r),
{
    match tool {
        Tool::Git => healthcheck_vcs_git(answer),
        Tool::Mercurial => healthcheck_vcs_hg(answer),
        Tool::Breezy => healthcheck_vcs_brz(answer),
        Tool::GitHub => healthcheck_sc_github(answer),
        Tool::GitLab => healthcheck_sc_gitlab(answer),
    }
}

} // verus!
