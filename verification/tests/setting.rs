use curses_game_wrapper::{DrawType, GameSetting, Severity};
use std::time::Duration;

fn pair(name: &str, value: &str) -> (String, String) {
    (name.to_string(), value.to_string())
}

#[test]
fn a_new_setting_has_the_defaults() {
    let s = GameSetting::new("rogue");
    assert_eq!(s.cmdname, "rogue");
    assert_eq!(s.lines, 24);
    assert_eq!(s.columns, 80);
    assert!(s.envs.is_empty());
    assert!(s.args.is_empty());
    assert_eq!(s.log_info.fname, "");
    assert_eq!(s.log_info.sev, Severity::Debug);
    assert_eq!(s.timeout, Duration::from_millis(100));
    assert!(matches!(s.draw_type, DrawType::Null));
    assert_eq!(s.max_loop, 100);
}

#[test]
fn each_builder_method_replaces_one_part() {
    let s = GameSetting::new("nethack")
        .columns(132)
        .lines(50)
        .arg("-u")
        .arg("me")
        .env("A", "1")
        .env("B", "2")
        .draw_on(Duration::from_millis(200))
        .debug_file("debug.txt")
        .debug_level(Severity::Trace)
        .timeout(Duration::from_secs(2))
        .max_loop(7);
    assert_eq!(s.cmdname, "nethack");
    assert_eq!(s.columns, 132);
    assert_eq!(s.lines, 50);
    assert_eq!(s.args, vec!["-u", "me"]);
    assert_eq!(s.envs, vec![("A", "1"), ("B", "2")]);
    assert!(matches!(s.draw_type, DrawType::Terminal(d) if d == Duration::from_millis(200)));
    assert_eq!(s.log_info.fname, "debug.txt");
    assert_eq!(s.log_info.sev, Severity::Trace);
    assert_eq!(s.timeout, Duration::from_secs(2));
    assert_eq!(s.max_loop, 7);
}

#[test]
fn args_and_envs_replace_the_lists() {
    let s = GameSetting::new("game")
        .arg("old")
        .env("OLD", "x")
        .args(vec!["a", "b"])
        .envs(vec![("K", "v")])
        .arg("c");
    assert_eq!(s.args, vec!["a", "b", "c"]);
    assert_eq!(s.envs, vec![("K", "v")]);
    let cleared = s.args(Vec::new()).envs(Vec::new());
    assert!(cleared.args.is_empty());
    assert!(cleared.envs.is_empty());
    assert_eq!(cleared.cmdname, "game");
}

#[test]
fn the_log_file_and_level_are_set_apart() {
    let s = GameSetting::new("game").debug_level(Severity::Critical).debug_file("a.log");
    assert_eq!(s.log_info.sev, Severity::Critical);
    assert_eq!(s.log_info.fname, "a.log");
    let s = s.debug_file("b.log").debug_level(Severity::Warning);
    assert_eq!(s.log_info.fname, "b.log");
    assert_eq!(s.log_info.sev, Severity::Warning);
}

#[test]
fn the_child_is_told_the_size_and_kind_of_its_terminal() {
    let vars = GameSetting::new("rogue").child_env();
    assert_eq!(vars, vec![pair("LINES", "24"), pair("COLUMNS", "80"), pair("TERM", "vt100")]);
}

#[test]
fn the_setting_s_variables_come_last() {
    let vars = GameSetting::new("rogue")
        .lines(7)
        .columns(1000)
        .env("ROGUEUSER", "EmptyAI")
        .env("TERM", "xterm")
        .child_env();
    assert_eq!(
        vars,
        vec![
            pair("LINES", "7"),
            pair("COLUMNS", "1000"),
            pair("TERM", "vt100"),
            pair("ROGUEUSER", "EmptyAI"),
            pair("TERM", "xterm"),
        ]
    );
}

#[test]
fn sizes_are_written_in_decimal() {
    let vars = GameSetting::new("game").lines(0).columns(usize::MAX).child_env();
    assert_eq!(vars[0], pair("LINES", "0"));
    assert_eq!(vars[1], pair("COLUMNS", &format!("{}", usize::MAX)));
    let vars = GameSetting::new("game").lines(10).columns(109).child_env();
    assert_eq!(vars[0], pair("LINES", "10"));
    assert_eq!(vars[1], pair("COLUMNS", "109"));
}
