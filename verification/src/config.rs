//! Building the command table from the two parsed configuration files.
//!
//! Reading the files from disk and decoding their YAML is the runtime's
//! business; it hands the parsed shapes over and gets the finished table
//! back: duplicates removed (first occurrence wins) and `$name` references
//! expanded from the environment table. A failure to read or decode either
//! file is fatal to startup and never reaches this module.

use vstd::prelude::*;
use crate::commands::{dedup_first, expand_all, CommandSpec, Commands, EnvVars};

verus! {

/// The settings file's shape: the list of commands, duplicates included.
#[derive(Debug)]
pub struct LoadSettings {
    pub commands: Vec<CommandSpec>,
}

impl LoadSettings {
    pub fn new(commands: Vec<CommandSpec>) -> (s: LoadSettings)
        ensures
            s.commands == commands,
    {
        LoadSettings { commands }
    }

    pub fn inner(self) -> (r: Vec<CommandSpec>)
        ensures
            r == self.commands,
    {
        self.commands
    }
}

/// The environment file's shape: the substitution table.
#[derive(Debug)]
pub struct LoadEnv {
    pub env: EnvVars,
}

impl LoadEnv {
    pub fn new(env: EnvVars) -> (e: LoadEnv)
        ensures
            e.env == env,
    {
        LoadEnv { env }
    }

    pub fn inner(self) -> (r: EnvVars)
        ensures
            r == self.env,
    {
        self.env
    }
}

/// Assemble the launcher's command table: keep the first command of each
/// name, then expand `$name` in every program and argument.
pub fn load_settings(settings: LoadSettings, env_vars: LoadEnv) -> (cmds: Commands)
    ensures
        cmds@ == expand_all(dedup_first(settings.commands.deep_view()), env_vars.env@),
{
    let commands = Commands::new(settings.inner());
    commands.expand_vars(env_vars.inner())
}

} // verus!
