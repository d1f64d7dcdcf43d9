//! Launch planning: what the command line asks for, and how typed input
//! resolves against the command table.
//!
//! Spawning the chosen program is the runtime's business; these decisions are
//! pure.

use vstd::prelude::*;
use crate::commands::{contains_name, find_first, Commands};
use crate::strutil::{str_eq, trim, trim_spec};
use vstd::string::StrSliceExecFns;

verus! {

/// What the command line asks the launcher to do.
#[derive(Debug, PartialEq)]
pub enum CliPlan {
    /// Print the command table.
    List,
    /// Launch the first command of the table.
    RunFirst,
    /// Launch the command with this name.
    Run(String),
    /// `run` was asked for without a name: report usage.
    MissingName,
    /// No recognized mode: start the interactive launcher.
    Ui,
}

/// The plan the arguments call for, by the priority the launcher gives the
/// modes.
pub open spec fn cli_plan_matches(args: Seq<Seq<char>>, plan: CliPlan) -> bool {
    if args.len() < 2 {
        plan == CliPlan::Ui
    } else if args[1] == "list"@ {
        plan == CliPlan::List
    } else if args[1] == "run-first"@ {
        plan == CliPlan::RunFirst
    } else if args[1] == "run"@ {
        if args.len() >= 3 {
            plan matches CliPlan::Run(name) && name@ == args[2]
        } else {
            plan == CliPlan::MissingName
        }
    } else {
        plan == CliPlan::Ui
    }
}

/// Decide what the command line asks for. The first argument is the program's
/// own name; the second selects the mode; `run` takes the command name as the
/// third.
pub fn plan_cli(args: &Vec<String>) -> (plan: CliPlan)
    ensures
        cli_plan_matches(args.deep_view(), plan),
{
    proof {
        assert(args.deep_view().len() == args@.len());
    }
    if args.len() < 2 {
        return CliPlan::Ui;
    }
    let mode = args[1].as_str();
    if str_eq(mode, "list") {
        CliPlan::List
    } else if str_eq(mode, "run-first") {
        CliPlan::RunFirst
    } else if str_eq(mode, "run") {
        if args.len() >= 3 {
            CliPlan::Run(args[2].clone())
        } else {
            CliPlan::MissingName
        }
    } else {
        CliPlan::Ui
    }
}

/// How typed input resolves against the command table.
#[derive(Clone, Copy, Debug, PartialEq, Eq, Structural)]
pub enum CommandQuery {
    /// The input was blank after trimming.
    EmptyInput,
    /// No command carries the trimmed name.
    NotFound,
    /// The first command with the trimmed name sits at this position.
    Found(usize),
}

/// Resolve the text typed into the command-entry field: strip surrounding
/// blanks, reject an empty line, and find the first command with that name.
pub fn resolve_command(cmds: &Commands, input: &str) -> (q: CommandQuery)
    ensures
        ({
            let t = trim_spec(input@);
            match q {
                CommandQuery::EmptyInput => t.len() == 0,
                CommandQuery::NotFound => t.len() > 0 && !contains_name(cmds@, t),
                CommandQuery::Found(i) => t.len() > 0 && i < cmds@.len() && find_first(cmds@, t)
                    == Some(cmds@[i as int]) && cmds@[i as int].name == t,
            }
        }),
{
    let trimmed = trim(input);
    if trimmed.unicode_len() == 0 {
        return CommandQuery::EmptyInput;
    }
    match cmds.position_by_name(trimmed) {
        Some(i) => CommandQuery::Found(i),
        None => CommandQuery::NotFound,
    }
}

} // verus!
