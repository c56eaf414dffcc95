use terman_tmux::client_commands::{
    buffer_preview, display_panes_request, pane_entries, PaneInfo,
    attached_kill_pane_plan, attached_next_pane_request, buffer_output, buffer_request, capture_pane_request,
    expect_accepted, expect_captured, expect_panes, kill_pane_plan, reply_failure, required_target_session_name_arg,
    resize_pane_request, send_keys_plan, KillPanePlan, ReplyError,
};
use terman_tmux::command::TmuxCommand;
use terman_tmux::copy_mode::{copy_status_text, replay_lines, TmuxCopyMode};
use terman_tmux::error::TmuxErrorKind;
use terman_tmux::ipc::{TmuxIpcRequest, TmuxIpcResponse};
use terman_tmux::server::window_failure_message;

fn args(items: &[&str]) -> Vec<String> {
    items.iter().map(|s| s.to_string()).collect()
}

#[test]
fn accepted_replies_and_refusals() {
    assert!(expect_accepted(TmuxIpcResponse::Accepted).is_ok());
    match expect_accepted(TmuxIpcResponse::Rejected { reason: "no".into() }) {
        Err(ReplyError::Rejected(reason)) => assert_eq!(reason, "no"),
        _ => panic!("expected a refusal"),
    }
    assert!(matches!(expect_accepted(TmuxIpcResponse::Detached), Err(ReplyError::Unexpected)));
}

#[test]
fn pane_and_capture_replies() {
    let info = match expect_panes(TmuxIpcResponse::Panes {
        window_index: 2,
        window_name: "api".into(),
        active_pane: 1,
        pane_indexes: vec![0, 1],
    }) {
        Ok(info) => info,
        Err(_) => panic!("expected panes"),
    };
    assert_eq!(info.window_index, 2);
    assert_eq!(info.window_name, "api");
    assert_eq!(info.pane_indexes, vec![0, 1]);
    assert!(matches!(expect_panes(TmuxIpcResponse::Accepted), Err(ReplyError::Unexpected)));
    match expect_captured(TmuxIpcResponse::Captured { bytes: b"out".to_vec() }) {
        Ok(bytes) => assert_eq!(bytes, b"out".to_vec()),
        Err(_) => panic!("expected captured output"),
    }
}

#[test]
fn reply_failures_keep_the_reason() {
    let e = reply_failure(ReplyError::Rejected("busy".into()), TmuxErrorKind::Unsupported, "x");
    assert_eq!(e.kind, TmuxErrorKind::Unsupported);
    assert_eq!(e.message, "busy");
    let e = reply_failure(ReplyError::Unexpected, TmuxErrorKind::Unsupported, "Detached");
    assert_eq!(e.kind, TmuxErrorKind::InvalidData);
    assert_eq!(e.message, "tmux 会话服务返回了意外的响应：Detached");
}

#[test]
fn target_session_is_required() {
    assert_eq!(required_target_session_name_arg(&args(&["capturep", "-t", "dev:1.0"])).unwrap(), "dev");
    let e = required_target_session_name_arg(&args(&["capturep"])).unwrap_err();
    assert_eq!(e.kind, TmuxErrorKind::InvalidInput);
}

#[test]
fn capture_request_reads_window_and_pane() {
    assert_eq!(
        capture_pane_request(&args(&["capturep", "-t", "dev:1.2"])),
        TmuxIpcRequest::CapturePane { window: Some(1), pane: Some(2) }
    );
    assert_eq!(
        capture_pane_request(&args(&["capturep", "-t", "dev"])),
        TmuxIpcRequest::CapturePane { window: None, pane: None }
    );
}

#[test]
fn send_keys_needs_a_target_and_keys() {
    let (target, request) = send_keys_plan(&args(&["send", "-t", "dev", "echo hi", "Enter"])).unwrap();
    assert_eq!(target, "dev");
    assert_eq!(request, TmuxIpcRequest::Input { bytes: b"echo hi\r".to_vec() });
    assert_eq!(send_keys_plan(&args(&["send", "-t", "dev"])).unwrap_err().message, "需要提供要发送的按键。");
    assert_eq!(send_keys_plan(&args(&["send", "x"])).unwrap_err().kind, TmuxErrorKind::InvalidInput);
}

#[test]
fn buffer_commands_become_requests() {
    assert_eq!(
        buffer_request(TmuxCommand::SetBuffer, &args(&["set-buffer", "-t", "dev", "hello", "world"])).unwrap(),
        Some(TmuxIpcRequest::SetBuffer { name: None, bytes: b"hello world".to_vec() })
    );
    assert!(buffer_request(TmuxCommand::SetBuffer, &args(&["set-buffer", "-t", "dev"])).is_err());
    assert_eq!(
        buffer_request(TmuxCommand::ListBuffers, &args(&["list-buffers"])).unwrap(),
        Some(TmuxIpcRequest::ListBuffers)
    );
    assert_eq!(
        buffer_request(TmuxCommand::ShowBuffer, &args(&["show-buffer", "-b", "top"])).unwrap(),
        Some(TmuxIpcRequest::GetBuffer { name: Some("top".into()) })
    );
    assert_eq!(buffer_request(TmuxCommand::KillServer, &args(&[])).unwrap(), None);
}

#[test]
fn shown_buffers_end_with_a_newline() {
    assert_eq!(buffer_output(b"abc"), b"abc\n".to_vec());
    assert_eq!(buffer_output(b"abc\n"), b"abc\n".to_vec());
    assert_eq!(buffer_output(b""), b"\n".to_vec());
}

#[test]
fn resize_pane_requests() {
    assert_eq!(
        resize_pane_request(&args(&["resizep", "-t", "dev:1.0", "-x", "80"]), 1, 0, &[0, 1]).unwrap(),
        TmuxIpcRequest::ResizePane { window: Some(1), pane: Some(0), cols: Some(80), rows: None }
    );
    assert_eq!(
        resize_pane_request(&args(&["resizep", "-Z"]), 1, 1, &[0, 1]).unwrap(),
        TmuxIpcRequest::TogglePaneZoom { window: Some(1), pane: Some(1) }
    );
    assert_eq!(
        resize_pane_request(&args(&["resizep"]), 1, 1, &[0, 1]).unwrap_err().kind,
        TmuxErrorKind::InvalidInput
    );
    assert_eq!(
        resize_pane_request(&args(&["resizep", "-t", "dev:1.7", "-y", "5"]), 1, 0, &[0, 1]).unwrap_err().kind,
        TmuxErrorKind::NotFound
    );
}

#[test]
fn killing_the_last_pane_kills_the_window() {
    assert!(matches!(kill_pane_plan(&args(&["killp"]), 0, 0, &[0]).unwrap(), KillPanePlan::KillWindow));
    match kill_pane_plan(&args(&["killp", "-t", "dev:0.1"]), 0, 0, &[0, 1]).unwrap() {
        KillPanePlan::Send(request) => {
            assert_eq!(request, TmuxIpcRequest::KillPane { window: Some(0), pane: Some(1) })
        },
        KillPanePlan::KillWindow => panic!("expected a pane to be killed"),
    }
    assert!(kill_pane_plan(&args(&["killp", "-t", "dev:0.4"]), 0, 0, &[0, 1]).is_err());
    assert!(matches!(attached_kill_pane_plan(3, 0, &[0]), KillPanePlan::KillWindow));
    assert_eq!(
        attached_next_pane_request(3, 1, &[0, 1]),
        Some(TmuxIpcRequest::SelectPane { window: Some(3), pane: Some(0) })
    );
    assert_eq!(attached_next_pane_request(3, 1, &[]), None);
}

#[test]
fn window_failures_are_shown_on_their_own_line() {
    assert_eq!(window_failure_message("boom"), b"\r\ntmux window failed: boom\r\n".to_vec());
}

#[test]
fn copy_mode_draws_lines_cursor_and_status() {
    let lines = vec!["ab".chars().collect::<Vec<char>>(), "c".chars().collect::<Vec<char>>()];
    let mode = TmuxCopyMode::from_lines(lines, 10, 3);
    let frame = String::from_utf8(mode.render_frame()).unwrap();
    let expected = String::from("\x1b[?25l\x1b[0m\x1b[2J\x1b[H")
        + "\x1b[1;1Hab\x1b[0m"
        + "\x1b[2;1H\x1b[7mc\x1b[0m"
        + "\x1b[3;1H\x1b[30;46mtmux copy \x1b[K\x1b[0m";
    assert_eq!(frame, expected);
    assert_eq!(copy_status_text(2, 5, true), "tmux copy | 2/5 | 选择中");
}

#[test]
fn copy_mode_lines_split_at_newlines() {
    let lines = replay_lines("ab\r\ncd\n");
    assert_eq!(lines, vec![vec!['a', 'b'], vec!['c', 'd'], vec![]]);
    assert_eq!(replay_lines(""), vec![Vec::<char>::new()]);
}

#[test]
fn buffer_previews_are_tidy() {
    assert_eq!(buffer_preview("  hello\tworld\n"), "hello world");
    let long = "x".repeat(60);
    assert_eq!(buffer_preview(&long), "x".repeat(48));
}

#[test]
fn pane_entries_mark_the_active_pane() {
    let info = PaneInfo { window_index: 1, window_name: "api".into(), active_pane: 2, pane_indexes: vec![0, 2] };
    assert_eq!(pane_entries("dev", &info), vec!["dev:1.0 api".to_string(), "dev:1.2 api (active)".to_string()]);
    assert_eq!(
        display_panes_request("dev", &info),
        TmuxIpcRequest::DisplayMessage { message: "dev:1.0 api | dev:1.2 api (active)".into() }
    );
}
