use command_launcher::commands::{CommandSpec, Commands, EnvVars};

fn spec(name: &str, program: &str, args: Vec<String>) -> CommandSpec {
    CommandSpec::new(name.to_string(), program.to_string(), args)
}

#[test]
fn dedup_by_name_removes_duplicates() {
    let mut cmds = Commands {
        inner: vec![spec("a", "p1", vec![]), spec("b", "p2", vec![]), spec("a", "p3", vec![])],
    };

    cmds.dedup_by_name();
    assert_eq!(cmds.inner.len(), 2);
    assert_eq!(cmds.inner[0].name, "a");
    assert_eq!(cmds.inner[1].name, "b");
    println!("cmd:{:?}", cmds);
}

#[test]
fn dedup_keeps_first_occurrence() {
    let mut cmds = Commands {
        inner: vec![spec("a", "p1", vec![]), spec("b", "p2", vec![]), spec("a", "p3", vec![])],
    };
    cmds.dedup_by_name();
    assert_eq!(cmds.inner[0].program, "p1");
}

#[test]
fn dedup_keep_last_keeps_last_occurrence() {
    let mut cmds = Commands {
        inner: vec![spec("a", "p1", vec![]), spec("b", "p2", vec![]), spec("a", "p3", vec![])],
    };
    cmds.dedup_by_name_keep_last();
    assert_eq!(cmds.inner.len(), 2);
    assert_eq!(cmds.inner[0].name, "b");
    assert_eq!(cmds.inner[1].name, "a");
    assert_eq!(cmds.inner[1].program, "p3");
}

#[test]
fn new_removes_duplicates_keeping_first() {
    let cmds = Commands::new(vec![
        spec("x", "p1", vec![]),
        spec("x", "p2", vec![]),
        spec("y", "p3", vec![]),
    ]);
    assert_eq!(cmds.len(), 2);
    assert_eq!(cmds.get(0).name(), "x");
    assert_eq!(cmds.get(0).program(), "p1");
    assert_eq!(cmds.get(1).name(), "y");
}

#[test]
fn extend_lets_the_later_table_win() {
    let mut cmds = Commands::new(vec![spec("a", "old", vec![]), spec("b", "keep", vec![])]);
    let other = Commands::new(vec![spec("a", "new", vec![])]);
    cmds.extend(other);
    assert_eq!(cmds.len(), 2);
    assert_eq!(cmds.inner[0].name, "b");
    assert_eq!(cmds.inner[0].program, "keep");
    assert_eq!(cmds.inner[1].name, "a");
    assert_eq!(cmds.inner[1].program, "new");
}

#[test]
fn find_by_name_returns_the_first_match() {
    let cmds = Commands {
        inner: vec![spec("a", "p1", vec![]), spec("b", "p2", vec![]), spec("a", "p3", vec![])],
    };
    let found = cmds.find_by_name("a").expect("a is present");
    assert_eq!(found.program(), "p1");
    assert!(cmds.find_by_name("c").is_none());
}

#[test]
fn first_returns_the_front_command() {
    let cmds = Commands { inner: vec![spec("a", "p1", vec![]), spec("b", "p2", vec![])] };
    assert_eq!(cmds.first().expect("non-empty").name(), "a");
    let empty = Commands { inner: vec![] };
    assert!(empty.first().is_none());
}

#[test]
fn expand_replaces_a_defined_whole_string_variable() {
    let mut env = EnvVars::new();
    env.push("HOME_DIR".to_string(), "/home/user".to_string());
    let cmds = Commands { inner: vec![spec("go", "$HOME_DIR", vec!["$HOME_DIR".to_string()])] };
    let cmds = cmds.expand_vars(env);
    assert_eq!(cmds.get(0).program(), "/home/user");
    assert_eq!(cmds.get(0).args()[0], "/home/user");
    assert_eq!(cmds.get(0).name(), "go");
}

#[test]
fn expand_leaves_undefined_and_plain_strings_alone() {
    let env = EnvVars::new();
    let cmds = Commands {
        inner: vec![spec(
            "go",
            "$MISSING",
            vec!["plain".to_string(), "$".to_string(), "".to_string(), "a$b".to_string()],
        )],
    };
    let cmds = cmds.expand_vars(env);
    assert_eq!(cmds.get(0).program(), "$MISSING");
    assert_eq!(cmds.get(0).args()[0], "plain");
    assert_eq!(cmds.get(0).args()[1], "$");
    assert_eq!(cmds.get(0).args()[2], "");
    assert_eq!(cmds.get(0).args()[3], "a$b");
}

#[test]
fn env_lookup_takes_the_first_entry() {
    let mut env = EnvVars::new();
    env.push("K".to_string(), "one".to_string());
    env.push("K".to_string(), "two".to_string());
    assert_eq!(env.get("K").expect("bound"), "one");
    assert!(env.get("L").is_none());
}
