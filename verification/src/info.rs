//! The `info` command: what the tool can tell about the codebase and the system.
use vstd::prelude::*;
use crate::action::{one_report, only_work_in_progress, two_reports, Action};
use crate::cli::{Codebase, Info, InfoCommands, System};
use crate::diagnostics::{DiagnosticKind, ExternalCommandInfo};
use crate::process::{Invocation, SpawnError};

verus! {

pub const CODEBASE_DESCRIPTION: &'static str =
    "This command is intended to display detailed information about the contents of the codebase within the current directory [alias: cb]\n                          ";

pub const CODEBASE_TOOL_PURPOSE: &'static str =
    "display detailed information about the contents of the codebase within the current directory.";

pub const CODEBASE_TOOL: &'static str = "onefetch (https://github.com/o2sh/onefetch)";

pub const TOOL_MISSING: &'static str = "is not installed on system locally or not found in PATH.";

pub const CODEBASE_HINT: &'static str =
    "If you wish to use scud'scodebase informationcommand , try installing it with scud's built-in setup command";

pub const SYSTEM_DESCRIPTION: &'static str =
    "This command is intended to display detailed information about the system on which scud is running [alias: sys]";

/// Whether `reports` describes a command and lists one outside program behind it.
pub open spec fn command_and_one_tool(
    reports: Seq<DiagnosticKind>,
    command: &str,
    description: &str,
    invoked_as: &str,
    name: &str,
    link: &str,
    purpose: &str,
) -> bool {
    reports.len() == 2 && reports[0].is_scud_command_info(command, description) && (
    reports[1] matches DiagnosticKind::GeneralCommandInfo { command_name, commands }
        && command_name@ == invoked_as@ && commands@.len() == 1 && commands@[0].reads(
        name,
        link,
        purpose,
    ))
}

/// Whether `reports` is what `info system` has to say about itself.
pub open spec fn system_information(reports: Seq<DiagnosticKind>) -> bool {
    reports.len() == 2 && reports[0].is_scud_command_info(
        "system information",
        SYSTEM_DESCRIPTION,
    ) && (reports[1] matches DiagnosticKind::GeneralCommandInfo { command_name, commands }
        && command_name@ == "info system"@ && commands@.len() == 2 && commands@[0].reads(
        "neofetch",
        "https://github.com/dylanaraps/neofetch",
        "get system information",
    ) && commands@[1].reads(
        "cpufetch",
        "https://github.com/Dr-Noob/cpufetch",
        "get CPU architecture information",
    ))
}

/// Whether `reports` says that the codebase tool is missing and how to get it.
pub open spec fn codebase_tool_missing(reports: Seq<DiagnosticKind>) -> bool {
    reports.len() == 2 && reports[0].is_error(CODEBASE_TOOL, TOOL_MISSING) && reports[1].is_hint(
        CODEBASE_HINT,
        "scud setup info codebase",
    )
}

/// The information on the system is unfinished.
pub fn execute_system() -> (r: DiagnosticKind<'static>)
    ensures
        r.is_work_in_progress("System info"),
{
    DiagnosticKind::WorkInProgress { feature: "System info" }
}

/// What `info system` is for, and which outside programs it relies on.
pub fn execute_system_info() -> (r: Vec<DiagnosticKind<'static>>)
    ensures
        system_information(r@),
{
    let mut commands: Vec<ExternalCommandInfo<'static>> = Vec::new();
    commands.push(
        ExternalCommandInfo {
            command_name: "neofetch",
            command_link: "https://github.com/dylanaraps/neofetch",
            command_description: "get system information",
        },
    );
    commands.push(
        ExternalCommandInfo {
            command_name: "cpufetch",
            command_link: "https://github.com/Dr-Noob/cpufetch",
            command_description: "get CPU architecture information",
        },
    );
    two_reports(
        DiagnosticKind::ScudCommandInfo {
            command: "system information",
            description: SYSTEM_DESCRIPTION,
        },
        DiagnosticKind::GeneralCommandInfo { command_name: "info system", commands },
    )
}

/// Decides what `info system` does: it informs about itself, or reports
/// that it is unfinished.
pub fn info_system_command(system_options: System) -> (r: Action<'static>)
    ensures
        r is Report,
        system_options.info ==> system_information(r->Report_0@),
        !system_options.info ==> only_work_in_progress(r->Report_0@, "System info"),
{
    if system_options.info {
        Action::Report(execute_system_info())
    } else {
        Action::Report(one_report(execute_system()))
    }
}

/// Decides what `info codebase` does: it informs about itself, or runs
/// the program that describes the codebase.
pub fn info_codebase_command(codebase_options: Codebase) -> (r: Action<'static>)
    ensures
        codebase_options.info ==> (r is Report && command_and_one_tool(
            r->Report_0@,
            "codebase information",
            CODEBASE_DESCRIPTION,
            "codebase",
            "info codebase",
            "https://github.com/o2sh/onefetch",
            CODEBASE_TOOL_PURPOSE,
        )),
        !codebase_options.info ==> (r is Describe && r->Describe_0@ == seq!["onefetch"@]),
{
    if codebase_options.info {
        let mut commands: Vec<ExternalCommandInfo<'static>> = Vec::new();
        commands.push(
            ExternalCommandInfo {
                command_name: "info codebase",
                command_link: "https://github.com/o2sh/onefetch",
                command_description: CODEBASE_TOOL_PURPOSE,
            },
        );
        Action::Report(
            two_reports(
                DiagnosticKind::ScudCommandInfo {
                    command: "codebase information",
                    description: CODEBASE_DESCRIPTION,
                },
                DiagnosticKind::GeneralCommandInfo { command_name: "codebase", commands },
            ),
        )
    } else {
        Action::Describe(Invocation::new("onefetch"))
    }
}

/// What to make of the run of the codebase tool: its output, or the
/// reports that it is missing and how to get it.
pub fn execute_codebase<'a>(answer: &'a Result<String, SpawnError>) -> (r: Result<
    &'a str,
    Vec<DiagnosticKind<'static>>,
>)
    ensures
        match *answer {
            Ok(text) => r is Ok && r->Ok_0@ == text@,
            Err(_) => r is Err && codebase_tool_missing(r->Err_0@),
        },
{
    match answer {
        Ok(text) => Ok(text.as_str()),
        Err(_) => Err(
            two_reports(
                DiagnosticKind::Error { subject: CODEBASE_TOOL, body: TOOL_MISSING },
                DiagnosticKind::Hint { body: CODEBASE_HINT, command: "scud setup info codebase" },
            ),
        ),
    }
}

/// What the menu of information commands leads to: the first entry runs
/// the codebase tool, the second is unfinished.
pub fn get_branch_command(selected: usize) -> (r: Action<'static>)
    requires
        selected < 2,
    ensures
        selected == 0 ==> (r is Describe && r->Describe_0@ == seq!["onefetch"@]),
        selected == 1 ==> (r is Report && only_work_in_progress(
            r->Report_0@,
            "system information",
        )),
{
    if selected == 0 {
        info_codebase_command(Codebase { info: false })
    } else {
        Action::Report(one_report(DiagnosticKind::WorkInProgress { feature: "system information" }))
    }
}

/// Decides what `info` does: a subcommand stands for itself, and without
/// one the user is asked which is meant.
pub fn process_info_commands(info_commands: Info) -> (r: Action<'static>)
    ensures
        match info_commands.command {
            Some(InfoCommands::Codebase(options)) => if options.info {
                r is Report && command_and_one_tool(
                    r->Report_0@,
                    "codebase information",
                    CODEBASE_DESCRIPTION,
                    "codebase",
                    "info codebase",
                    "https://github.com/o2sh/onefetch",
                    CODEBASE_TOOL_PURPOSE,
                )
            } else {
                r is Describe && r->Describe_0@ == seq!["onefetch"@]
            },
            Some(InfoCommands::System(options)) => r is Report && if options.info {
                system_information(r->Report_0@)
            } else {
                only_work_in_progress(r->Report_0@, "System info")
            },
            None => r is AskInfoCommand,
        },
{
    match info_commands.command {
        Some(InfoCommands::Codebase(codebase_options)) => info_codebase_command(codebase_options),
        Some(InfoCommands::System(system_options)) => info_system_command(system_options),
        None => Action::AskInfoCommand,
    }
}

} // verus!
