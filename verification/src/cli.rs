//! The command line as plain data: every subcommand with its flags, as the
//! argument layer hands them over.
use vstd::prelude::*;

verus! {

/// The version-control backends that the tool can drive.
#[derive(Clone, Copy, Debug, PartialEq, Eq, Structural)]
pub enum VCS {
    Git,
    Mercurial,
    Breezy,
}

/// The parsed command line.
#[derive(Debug, Clone, PartialEq, Eq)]
pub struct Cli {
    pub command: Commands,
}

/// The subcommands.
#[derive(Debug, Clone, PartialEq, Eq)]
pub enum Commands {
    New(New),
    Init(Init),
    Stage(Stage),
    Unstage(Unstage),
    State(State),
    Branch(Branch),
    Feature(Feature),
    Diff(Diff),
    Commit(Commit),
    CommitAll(CommitAll),
    Push(Push),
    Pull(Pull),
    Upstream(Upstream),
    Update(Update),
    Healthcheck,
}

/// Flags of `setup`.
#[derive(Debug, Clone, PartialEq, Eq)]
pub struct Setup {
    pub vcs: Option<String>,
    pub info: bool,
}

/// Flags of `state`.
#[derive(Clone, Copy, Debug, PartialEq, Eq, Structural)]
pub struct State {
    pub info: bool,
}

/// Flags of `upstream`.
#[derive(Clone, Copy, Debug, PartialEq, Eq, Structural)]
pub struct Upstream {
    pub info: bool,
}

/// Flags of `stage`.
#[derive(Clone, Copy, Debug, PartialEq, Eq, Structural)]
pub struct Stage {
    pub dry_run: bool,
    pub info: bool,
}

/// Flags of `unstage`.
#[derive(Clone, Copy, Debug, PartialEq, Eq, Structural)]
pub struct Unstage {
    pub dry_run: bool,
    pub info: bool,
}

/// Flags of `commit`.
#[derive(Clone, Copy, Debug, PartialEq, Eq, Structural)]
pub struct Commit {
    pub dry_run: bool,
    pub info: bool,
}

/// Flags of `commit-all`.
#[derive(Clone, Copy, Debug, PartialEq, Eq, Structural)]
pub struct CommitAll {
    pub dry_run: bool,
    pub info: bool,
}

/// Flags of `push`.
#[derive(Clone, Copy, Debug, PartialEq, Eq, Structural)]
pub struct Push {
    pub dry_run: bool,
    pub info: bool,
}

/// Flags of `pull`.
#[derive(Clone, Copy, Debug, PartialEq, Eq, Structural)]
pub struct Pull {
    pub info: bool,
}

/// Flags of `update`.
#[derive(Clone, Copy, Debug, PartialEq, Eq, Structural)]
pub struct Update {
    pub dry_run: bool,
    pub info: bool,
}

/// Flags of `init`.
#[derive(Debug, Clone, PartialEq, Eq)]
pub struct Init {
    pub dry_run: bool,
    pub name: Option<String>,
    pub info: bool,
}

/// Arguments of `new`.
#[derive(Debug, Clone, PartialEq, Eq)]
pub struct New {
    pub name: String,
}

/// Flags of `diff`.
#[derive(Clone, Copy, Debug, PartialEq, Eq, Structural)]
pub struct Diff {
    pub info: bool,
}

/// The `branch` command: a subcommand, or none.
#[derive(Clone, Copy, Debug, PartialEq, Eq)]
pub struct Branch {
    pub command: Option<BranchCommands>,
}

/// The subcommands of `branch`.
#[derive(Clone, Copy, Debug, PartialEq, Eq, Structural)]
pub enum BranchCommands {
    List(BranchList),
    Rename(BranchRename),
    Delete(BranchDelete),
}

/// Flags of `branch list`.
#[derive(Clone, Copy, Debug, PartialEq, Eq, Structural)]
pub struct BranchList {
    pub info: bool,
}

/// Flags of `branch rename`.
#[derive(Clone, Copy, Debug, PartialEq, Eq, Structural)]
pub struct BranchRename {
    pub info: bool,
}

/// Flags of `branch delete`.
#[derive(Clone, Copy, Debug, PartialEq, Eq, Structural)]
pub struct BranchDelete {
    pub info: bool,
}

/// The `feature` command: a subcommand, or none.
#[derive(Clone, Copy, Debug, PartialEq, Eq)]
pub struct Feature {
    pub command: Option<FeatureCommands>,
}

/// The subcommands of `feature`.
#[derive(Clone, Copy, Debug, PartialEq, Eq, Structural)]
pub enum FeatureCommands {
    List(FeatureList),
    Start(FeatureStart),
}

/// Flags of `feature list`.
#[derive(Clone, Copy, Debug, PartialEq, Eq, Structural)]
pub struct FeatureList {
    pub info: bool,
}

/// Flags of `feature start`.
#[derive(Clone, Copy, Debug, PartialEq, Eq, Structural)]
pub struct FeatureStart {
    pub dry_run: bool,
    pub info: bool,
}

/// The `info` command: a subcommand, or none.
#[derive(Clone, Copy, Debug, PartialEq, Eq)]
pub struct Info {
    pub command: Option<InfoCommands>,
}

/// The subcommands of `info`.
#[derive(Clone, Copy, Debug, PartialEq, Eq, Structural)]
pub enum InfoCommands {
    Codebase(Codebase),
    System(System),
}

/// Flags of `info codebase`.
#[derive(Clone, Copy, Debug, PartialEq, Eq, Structural)]
pub struct Codebase {
    pub info: bool,
}

/// Flags of `info system`.
#[derive(Clone, Copy, Debug, PartialEq, Eq, Structural)]
pub struct System {
    pub info: bool,
}

} // verus!
