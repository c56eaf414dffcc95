use terman_tmux::args::{
    display_message_arg, new_window_command_arg, new_window_name_arg, rename_session_name_arg,
    rename_window_name_arg, resize_pane_height_arg, resize_pane_width_arg, send_keys_args,
    session_name_arg, target_pane_index_arg, target_session_arg, target_session_name_arg,
    target_window_index_arg,
};

#[test]
fn parses_session_name_arg() {
    assert_eq!(session_name_arg(&["new".into(), "-s".into(), "dev".into()]), Some(String::from("dev")));
    assert_eq!(session_name_arg(&["new".into(), "-sdev".into()]), Some(String::from("dev")));
    assert_eq!(session_name_arg(&["new".into(), "--session-name=dev".into()]), Some(String::from("dev")));
}

#[test]
fn parses_target_session_arg() {
    assert_eq!(target_session_arg(&["kill-session".into(), "-t".into(), "dev".into()]), Some(String::from("dev")));
    assert_eq!(target_session_arg(&["kill-session".into(), "-tdev".into()]), Some(String::from("dev")));
    assert_eq!(target_session_arg(&["kill-session".into(), "--target-session=dev".into()]), Some(String::from("dev")));
}

#[test]
fn parses_target_window_parts() {
    let args: [String; 3] = ["rename-window".into(), "-t".into(), "dev:2".into()];
    assert_eq!(target_session_name_arg(&args), Some(String::from("dev")));
    assert_eq!(target_window_index_arg(&args), Some(2));
}

#[test]
fn parses_target_pane_parts() {
    let args: [String; 3] = ["kill-pane".into(), "-t".into(), "dev:2.0".into()];
    assert_eq!(target_session_name_arg(&args), Some(String::from("dev")));
    assert_eq!(target_window_index_arg(&args), Some(2));
    assert_eq!(target_pane_index_arg(&args), Some(0));
}

#[test]
fn parses_rename_names() {
    assert_eq!(rename_session_name_arg(&["rename-session".into(), "-told".into(), "new".into()]), Some(String::from("new")));
    assert_eq!(rename_window_name_arg(&["renamew".into(), "--target-session=dev:0".into(), "api".into()]), Some(String::from("api")));
}

#[test]
fn parses_display_message_payload() {
    assert_eq!(
        display_message_arg(&["display".into(), "-tdev".into(), "hello".into(), "world".into()]),
        Some(String::from("hello world"))
    );
}

#[test]
fn parses_new_window_args() {
    let args: [String; 6] = ["neww".into(), "-tdev".into(), "-n".into(), "api".into(), "cargo".into(), "run".into()];
    assert_eq!(new_window_name_arg(&args), Some(String::from("api")));
    assert_eq!(new_window_command_arg(&args), Some(String::from("cargo run")));
}

#[test]
fn parses_resize_pane_size() {
    let args: [String; 5] = ["resizep".into(), "-tdev:1.0".into(), "-x".into(), "120".into(), "-y40".into()];
    assert_eq!(resize_pane_width_arg(&args), Some(120));
    assert_eq!(resize_pane_height_arg(&args), Some(40));
}

#[test]
fn parses_send_keys_payload() {
    assert_eq!(
        send_keys_args(&["send".into(), "-tdev".into(), "echo hi".into(), "Enter".into()]),
        vec![String::from("echo hi"), String::from("Enter")]
    );
}

#[test]
fn missing_values_give_none() {
    assert_eq!(session_name_arg(&["new".into(), "-s".into()]), None);
    assert_eq!(target_session_arg(&["ls".into()]), None);
    assert_eq!(target_window_index_arg(&["selectw".into(), "-t".into(), "dev:x".into()]), None);
    assert_eq!(resize_pane_width_arg(&["resizep".into(), "-x".into(), "70000".into()]), None);
}
