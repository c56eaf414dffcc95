use terman_tmux::hints::{
    default_runtime_hint, is_tmux_attach_without_target, is_tmux_detached_without_new_session,
    is_tmux_detached_without_tmux_command, is_tmux_list_sessions_command, is_tmux_new_session_command,
    tmux_failure_message, tmux_launch_failure_hint, tmux_runtime_hints,
};

#[test]
fn detects_tmux_detached_and_attach_flags() {
    let args = vec!["-d".to_string()];
    assert!(is_tmux_detached_without_tmux_command(&args));
    assert!(is_tmux_detached_without_new_session(&args));
    assert!(!is_tmux_detached_without_new_session(&[
        "-d".to_string(),
        "new".to_string()
    ]));
}

#[test]
fn detects_tmux_session_detection() {
    let args = vec!["attach".to_string(), "-t".to_string(), "demo".to_string()];
    assert!(!is_tmux_attach_without_target(&args));
    assert!(is_tmux_attach_without_target(&["attach".to_string()]));
    assert!(is_tmux_list_sessions_command(&["list-sessions".to_string()]));
    assert!(is_tmux_list_sessions_command(&["ls".to_string()]));
    assert!(is_tmux_new_session_command(&["new".to_string()]));
}

#[test]
fn tmux_launch_failure_hint_mentions_native_tool() {
    let hint = tmux_launch_failure_hint();
    assert!(hint.contains("tmux"));
}

#[test]
fn tmux_failure_message_formats_error() {
    let msg = tmux_failure_message("tmux", 1, "命令返回失败");
    assert_eq!(msg, "tmux 失败（退出码 1）：命令返回失败");
}

#[test]
fn failure_message_spells_negative_codes() {
    assert_eq!(tmux_failure_message("attach", -2, "x"), "attach 失败（退出码 -2）：x");
}

#[test]
fn runtime_hints_fall_back_to_the_exit_code() {
    assert_eq!(tmux_runtime_hints(&["ls".to_string()], 127), default_runtime_hint(127));
    assert!(default_runtime_hint(127).contains("未检测到本机 tmux"));
    let both = tmux_runtime_hints(&["-d".to_string()], 0);
    assert_eq!(both.lines().count(), 2);
    let attach = tmux_runtime_hints(&["attach".to_string()], 1);
    assert!(attach.contains("-t"));
}
