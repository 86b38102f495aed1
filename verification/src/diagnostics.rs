//! Semantic event records. The library only says what is to be reported;
//! wording in colour and printing belong to the program around it.
use vstd::prelude::*;

verus! {

/// An outside program that a command relies on.
#[derive(Debug, Clone, PartialEq, Eq)]
pub struct ExternalCommandInfo<'a> {
    pub command_name: &'a str,
    pub command_link: &'a str,
    pub command_description: &'a str,
}

/// One report to the user.
#[derive(Debug, Clone, PartialEq, Eq)]
pub enum DiagnosticKind<'a> {
    ScudCommandInfo { command: &'a str, description: &'a str },
    DryRun { command: &'a str },
    Error { subject: &'a str, body: &'a str },
    Hint { body: &'a str, command: &'a str },
    Info,
    Note { body: &'a str },
    Tip { body: &'a str },
    VCSInfo {
        command_name: &'a str,
        git_command: &'a str,
        mercurial_command: &'a str,
        breezy_command: &'a str,
    },
    GeneralCommandInfo { command_name: &'a str, commands: Vec<ExternalCommandInfo<'a>> },
    WorkInProgress { feature: &'a str },
}

impl<'a> ExternalCommandInfo<'a> {
    /// Whether this entry names `name`, links to `link` and is described by `description`.
    pub open spec fn reads(self, name: &str, link: &str, description: &str) -> bool {
        &&& self.command_name@ == name@
        &&& self.command_link@ == link@
        &&& self.command_description@ == description@
    }
}

impl<'a> DiagnosticKind<'a> {
    /// Whether this is the description of one of the tool's own commands.
    pub open spec fn is_scud_command_info(self, command: &str, description: &str) -> bool {
        self matches DiagnosticKind::ScudCommandInfo { command: c, description: d }
            && c@ == command@ && d@ == description@
    }

    /// Whether this is the note that `command` was only rehearsed.
    pub open spec fn is_dry_run(self, command: &str) -> bool {
        self matches DiagnosticKind::DryRun { command: c } && c@ == command@
    }

    /// Whether this is an error with the given subject and body.
    pub open spec fn is_error(self, subject: &str, body: &str) -> bool {
        self matches DiagnosticKind::Error { subject: s, body: b } && s@ == subject@ && b@
            == body@
    }

    /// Whether this is a hint with the given body that proposes `command`.
    pub open spec fn is_hint(self, body: &str, command: &str) -> bool {
        self matches DiagnosticKind::Hint { body: b, command: c } && b@ == body@ && c@
            == command@
    }

    /// Whether this is a tip with the given body.
    pub open spec fn is_tip(self, body: &str) -> bool {
        self matches DiagnosticKind::Tip { body: b } && b@ == body@
    }

    /// Whether this lists the backend commands behind `command_name`.
    pub open spec fn is_vcs_info(
        self,
        command_name: &str,
        git_command: &str,
        mercurial_command: &str,
        breezy_command: &str,
    ) -> bool {
        self matches DiagnosticKind::VCSInfo {
            command_name: n,
            git_command: g,
            mercurial_command: m,
            breezy_command: b,
        } && n@ == command_name@ && g@ == git_command@ && m@ == mercurial_command@ && b@
            == breezy_command@
    }

    /// Whether this announces `feature` as unfinished.
    pub open spec fn is_work_in_progress(self, feature: &str) -> bool {
        self matches DiagnosticKind::WorkInProgress { feature: f } && f@ == feature@
    }
}

} // verus!
