use command_launcher::commands::{CommandSpec, Commands, EnvVars};
use command_launcher::config::{load_settings, LoadEnv, LoadSettings};
use command_launcher::launch::{plan_cli, resolve_command, CliPlan, CommandQuery};
use command_launcher::paths::{app_name, config_dir, env_path, settings_path};

fn spec(name: &str, program: &str) -> CommandSpec {
    CommandSpec::new(name.to_string(), program.to_string(), vec![])
}

fn argv(items: &[&str]) -> Vec<String> {
    items.iter().map(|s| s.to_string()).collect()
}

#[test]
fn paths_follow_the_home_directory() {
    assert_eq!(app_name(), "command_launcher");
    assert_eq!(config_dir("/home/u"), "/home/u/.config/command_launcher");
    assert_eq!(settings_path("/home/u"), "/home/u/.config/command_launcher/setting.yaml");
    assert_eq!(env_path("/home/u"), "/home/u/.config/command_launcher/env.yaml");
}

#[test]
fn cli_modes_are_recognized() {
    assert_eq!(plan_cli(&argv(&["launcher"])), CliPlan::Ui);
    assert_eq!(plan_cli(&argv(&["launcher", "list"])), CliPlan::List);
    assert_eq!(plan_cli(&argv(&["launcher", "run-first"])), CliPlan::RunFirst);
    assert_eq!(plan_cli(&argv(&["launcher", "run", "editor"])), CliPlan::Run("editor".to_string()));
    assert_eq!(plan_cli(&argv(&["launcher", "run"])), CliPlan::MissingName);
    assert_eq!(plan_cli(&argv(&["launcher", "dance"])), CliPlan::Ui);
}

#[test]
fn typed_input_resolves_after_trimming() {
    let cmds = Commands::new(vec![spec("editor", "vi"), spec("browser", "surf")]);
    assert_eq!(resolve_command(&cmds, "  editor  "), CommandQuery::Found(0));
    assert_eq!(resolve_command(&cmds, "browser"), CommandQuery::Found(1));
    assert_eq!(resolve_command(&cmds, "shell"), CommandQuery::NotFound);
    assert_eq!(resolve_command(&cmds, ""), CommandQuery::EmptyInput);
    assert_eq!(resolve_command(&cmds, " \t\r\n"), CommandQuery::EmptyInput);
}

#[test]
fn load_settings_dedups_and_expands() {
    let raw = LoadSettings::new(vec![
        spec("editor", "$EDITOR_BIN"),
        spec("editor", "other"),
        spec("browser", "surf"),
    ]);
    let mut env = EnvVars::new();
    env.push("EDITOR_BIN".to_string(), "/usr/bin/vi".to_string());
    let cmds = load_settings(raw, LoadEnv::new(env));

    assert_eq!(cmds.len(), 2);
    assert_eq!(cmds.get(0).name(), "editor");
    assert_eq!(cmds.get(0).program(), "/usr/bin/vi");
    assert_eq!(cmds.get(1).name(), "browser");
    assert_eq!(cmds.get(1).program(), "surf");
}
