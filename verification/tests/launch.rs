use shunt::color::ConsoleColor;
use shunt::launch::{plan_command, plan_run, resolve_wrap_tty, LaunchError};
use shunt::color::ColorAssigner;
use shunt::shunt::{AutoBool, Shunt, ShuntCommand};

fn command(argv: &[&str], tty: AutoBool) -> ShuntCommand {
    ShuntCommand {
        argv: argv.iter().map(|s| s.to_string()).collect(),
        workdir: String::from("/tmp"),
        tty,
        env: Vec::new(),
    }
}

#[test]
fn launch_non_empty_argv_yields_exactly_one_plan() {
    let mut colors = ColorAssigner::new();
    let cmd = command(&["echo", "hi"], AutoBool::Auto);
    let plan = plan_command(&String::from("build"), &cmd, true, &mut colors)
        .expect("non-empty argv must plan");
    assert_eq!(plan.info.name.as_str(), "build");
    assert_eq!(plan.argv, vec!["echo".to_string(), "hi".to_string()]);
    assert_eq!(plan.workdir.as_str(), "/tmp");
}

#[test]
fn launch_empty_argv_fails_without_disturbing_siblings() {
    let config = Shunt {
        commands: vec![
            (String::from("bad"), command(&[], AutoBool::Auto)),
            (String::from("good"), command(&["true"], AutoBool::Auto)),
        ],
    };
    let results = plan_run(&config, false);
    assert_eq!(results.len(), 2);
    let err = results[0].as_ref().expect_err("empty argv must fail");
    assert!(matches!(err, LaunchError::EmptyCommand(n) if n == "bad"));
    assert_eq!(err.message().as_str(), "command \"bad\" was empty");
    assert!(results[1].is_ok());
}

#[test]
fn launch_spawn_failure_message() {
    let err = LaunchError::SpawnFailed(
        String::from("serve"),
        String::from("No such file or directory"),
    );
    assert_eq!(
        err.message().as_str(),
        "command \"serve\" failed to spawn: No such file or directory"
    );
}

#[test]
fn launch_wrap_tty_resolution() {
    assert_eq!(resolve_wrap_tty(AutoBool::Auto, true), true);
    assert_eq!(resolve_wrap_tty(AutoBool::Auto, false), false);
    assert_eq!(resolve_wrap_tty(AutoBool::Always, true), true);
    assert_eq!(resolve_wrap_tty(AutoBool::Always, false), true);
    assert_eq!(resolve_wrap_tty(AutoBool::Never, true), false);
    assert_eq!(resolve_wrap_tty(AutoBool::Never, false), false);
}

#[test]
fn launch_always_wraps_even_off_terminal_and_stays_uncolored() {
    let mut colors = ColorAssigner::new();
    let cmd = command(&["top"], AutoBool::Always);
    let plan = plan_command(&String::from("mon"), &cmd, false, &mut colors).unwrap();
    assert!(plan.wrap_tty, "tty mode Always must allocate a pseudo-terminal");
    assert!(plan.info.color.is_none(), "no terminal on our side, no color");
}

#[test]
fn launch_colors_cycle_in_launch_order() {
    let names = ["a", "b", "c", "d", "e", "f"];
    let config = Shunt {
        commands: names
            .iter()
            .map(|n| (n.to_string(), command(&["true"], AutoBool::Never)))
            .collect(),
    };
    let results = plan_run(&config, true);
    let colors: Vec<ConsoleColor> =
        results.iter().map(|r| r.as_ref().unwrap().info.color.unwrap()).collect();
    assert_eq!(
        colors,
        vec![
            ConsoleColor::Green,
            ConsoleColor::Red,
            ConsoleColor::Cyan,
            ConsoleColor::Magenta,
            ConsoleColor::Yellow,
            ConsoleColor::Green,
        ]
    );
}

#[test]
fn launch_failed_plan_does_not_consume_a_color() {
    let config = Shunt {
        commands: vec![
            (String::from("a"), command(&["true"], AutoBool::Auto)),
            (String::from("bad"), command(&[], AutoBool::Auto)),
            (String::from("b"), command(&["true"], AutoBool::Auto)),
        ],
    };
    let results = plan_run(&config, true);
    assert_eq!(results[0].as_ref().unwrap().info.color, Some(ConsoleColor::Green));
    assert!(results[1].is_err());
    assert_eq!(results[2].as_ref().unwrap().info.color, Some(ConsoleColor::Red));
}

#[test]
fn launch_plan_carries_env_overrides() {
    let mut colors = ColorAssigner::new();
    let mut cmd = command(&["env"], AutoBool::Never);
    cmd.env = vec![
        (String::from("SET"), Some(String::from("v"))),
        (String::from("DROP"), None),
    ];
    let plan = plan_command(&String::from("p"), &cmd, false, &mut colors).unwrap();
    assert_eq!(plan.env, cmd.env);
}
