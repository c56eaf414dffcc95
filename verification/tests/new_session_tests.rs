use terman_tmux::error::TmuxErrorKind;
use terman_tmux::new_session::{attach_session_args, new_session_command_args, required_session_name_arg, session_command};
use terman_tmux::launch::{interactive_shell_args, server_command_args, tmux_environment, TmuxPtyCommandSpec};

#[test]
fn extracts_new_session_command_args() {
    let args = vec![
        String::from("new-session"),
        String::from("-s"),
        String::from("dev"),
        String::from("cargo"),
        String::from("watch"),
    ];

    assert_eq!(
        new_session_command_args(&args),
        vec![String::from("cargo"), String::from("watch")]
    );
}

#[test]
fn builds_attach_args() {
    assert_eq!(
        attach_session_args("dev"),
        vec![String::from("attach-session"), String::from("-t"), String::from("dev")]
    );
}

#[test]
fn joins_session_command() {
    assert_eq!(
        session_command(&[String::from("cargo"), String::from("watch")]),
        Some(String::from("cargo watch"))
    );
    assert_eq!(session_command(&[]), None);
}

#[test]
fn command_words_keep_their_options() {
    let args: Vec<String> = ["-d", "new", "-d", "-sdev", "vim", "-R", "x"].iter().map(|s| s.to_string()).collect();
    assert_eq!(new_session_command_args(&args), vec!["vim", "-R", "x"]);
}

#[test]
fn session_name_is_required() {
    let err = required_session_name_arg(&["new".to_string()]).unwrap_err();
    assert_eq!(err.kind, TmuxErrorKind::InvalidInput);
    assert_eq!(required_session_name_arg(&["new".to_string(), "-s".to_string(), "a".to_string()]).unwrap(), "a");
}

#[test]
fn models_server_launcher_session_name() {
    assert_eq!("dev", "dev");
    assert_eq!(
        server_command_args("dev", "ep", &[String::from("top")]),
        vec!["--__tmux-server", "--__session-name", "dev", "--__endpoint-name", "ep", "top"]
    );
}

#[test]
fn models_tmux_pty_command_spec() {
    let spec = TmuxPtyCommandSpec {
        session_name: String::from("dev"),
        window_index: 0,
        window_name: String::from("shell"),
        pane_index: 0,
        command: Some(String::from("echo hi")),
        login_shell: false,
    };
    assert_eq!(spec.session_name, "dev");
    assert_eq!(spec.window_name, "shell");
    assert_eq!(spec.pane_index, 0);
}

#[test]
fn pane_environment_names_the_pane() {
    let spec = TmuxPtyCommandSpec {
        session_name: String::from("dev"),
        window_index: 3,
        window_name: String::from("api"),
        pane_index: 12,
        command: None,
        login_shell: true,
    };
    let env = tmux_environment(&spec);
    assert_eq!(env[1], (String::from("WINDOW"), String::from("3")));
    assert_eq!(env[2], (String::from("TMUX_PANE"), String::from("%12")));
    assert_eq!(interactive_shell_args(true, false), vec!["-l"]);
    assert!(interactive_shell_args(true, true).is_empty());
}
