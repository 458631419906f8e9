use matiane::swayidle::AfterResume;
use matiane::swayidle::BeforeSleep;
use matiane::swayidle::SwayIdle;
use matiane::swayidle::Timeout;
use matiane::swayidle::kill_command;
use matiane::swayidle::swayidle_commands;

#[test]
fn swayidle_before_sleep_cmd_test() {
    let mut swayidle = SwayIdle::new();

    swayidle.add_command(BeforeSleep::new("dothisbeforesleep".into()));

    assert_eq!(swayidle.args.len(), 2);
    assert_eq!(swayidle.args[0], "before-sleep");
    assert_eq!(swayidle.args[1], "dothisbeforesleep");
}

#[test]
fn swayidle_after_sleep_cmd_test() {
    let mut swayidle = SwayIdle::new();

    swayidle.add_command(AfterResume::new("dothisafterresume".into()));

    assert_eq!(swayidle.args.len(), 2);
    assert_eq!(swayidle.args[0], "after-resume");
    assert_eq!(swayidle.args[1], "dothisafterresume");
}

#[test]
fn swayidle_timeout_cmd_test() {
    let mut swayidle = SwayIdle::new();

    swayidle.add_command(Timeout::new("timeoutcmd".into(), 100));

    assert_eq!(swayidle.args.len(), 3);
    assert_eq!(swayidle.args[0], "timeout");
    assert_eq!(swayidle.args[1], "100");
    assert_eq!(swayidle.args[2], "timeoutcmd");

    swayidle.add_command(Timeout::new_with_resume(
        "timeout2cmd".into(),
        20,
        "onresumecmd".into(),
    ));

    assert_eq!(swayidle.args.len(), 3 + 3 + 2);
    assert_eq!(swayidle.args[3], "timeout");
    assert_eq!(swayidle.args[4], "20");
    assert_eq!(swayidle.args[5], "timeout2cmd");
    assert_eq!(swayidle.args[6], "resume");
    assert_eq!(swayidle.args[7], "onresumecmd");
}

#[test]
fn swayidle_kill_command_test() {
    assert_eq!(kill_command(10, 4242), "kill -10 4242");
    assert_eq!(kill_command(35, 1), "kill -35 1");
}

#[test]
fn swayidle_full_hook_set_test() {
    let swayidle = swayidle_commands(60, 777, 10, 12, 35, 36);
    let expected: Vec<String> = vec![
        "before-sleep".to_string(),
        "kill -10 777".to_string(),
        "after-resume".to_string(),
        "kill -12 777".to_string(),
        "timeout".to_string(),
        "60".to_string(),
        "kill -35 777".to_string(),
        "resume".to_string(),
        "kill -36 777".to_string(),
    ];
    assert_eq!(swayidle.args, expected);
}

#[test]
fn swayidle_spawn_options_test() {
    let mut swayidle = SwayIdle::new();
    swayidle.add_command(BeforeSleep::new("cmd".into()));
    let opts = swayidle.spawn_options();
    assert_eq!(opts.name, "swayidle");
    assert_eq!(opts.args, vec!["before-sleep".to_string(), "cmd".to_string()]);
    assert_eq!(opts.restart_delay_ms, 100);
}
