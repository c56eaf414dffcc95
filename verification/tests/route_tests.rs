use terman_tmux::attach_command_exec::prompt_run_plan;
use terman_tmux::attach_input::AttachInputResult;
use terman_tmux::attach_keys::{KeyCode, KeyEventKind, KeyInput, KeyModifiers};
use terman_tmux::attach_route::{AttachRouter, KeyTarget, MouseTarget};
use terman_tmux::builtin::{rename_outcome, rename_session_plan, BuiltinAction};
use terman_tmux::command::TmuxCommand;
use terman_tmux::copy_mode::{TmuxCopyMode, TmuxCopyResult};
use terman_tmux::error::TmuxErrorKind;
use terman_tmux::session_registry::RenameBuiltinTmuxSession;

fn args(items: &[&str]) -> Vec<String> {
    items.iter().map(|s| s.to_string()).collect()
}

fn press(code: KeyCode) -> KeyInput {
    KeyInput { code, modifiers: KeyModifiers { shift: false, control: false, alt: false }, kind: KeyEventKind::Press }
}

#[test]
fn prompt_commands_run_detached_and_bound_to_the_session() {
    let (action, bound) = prompt_run_plan(TmuxCommand::NewSession, args(&["new", "-s", "x"]), "dev").unwrap();
    assert_eq!(action, BuiltinAction::NewSession { attach: false });
    assert_eq!(bound, args(&["new", "-s", "x"]));
    let (action, bound) = prompt_run_plan(TmuxCommand::KillWindow, args(&["killw"]), "dev").unwrap();
    assert_eq!(action, BuiltinAction::KillWindow);
    assert_eq!(bound, args(&["killw", "-t", "dev"]));
    let e = prompt_run_plan(TmuxCommand::Other, args(&["frobnicate"]), "dev").unwrap_err();
    assert_eq!(e.kind, TmuxErrorKind::Unsupported);
    assert_eq!(e.message, "暂不支持的 tmux 命令：frobnicate");
}

#[test]
fn rename_session_needs_a_target_and_a_name() {
    assert_eq!(
        rename_session_plan(&args(&["rename-session", "-t", "old", "new"])).unwrap(),
        ("old".to_string(), "new".to_string())
    );
    assert_eq!(rename_session_plan(&args(&["rename-session", "-t", "old"])).unwrap_err().kind, TmuxErrorKind::InvalidInput);
    assert_eq!(rename_session_plan(&args(&["rename-session", "new"])).unwrap_err().kind, TmuxErrorKind::InvalidInput);
    assert!(rename_outcome(RenameBuiltinTmuxSession::Renamed, "a", "b").is_ok());
    assert_eq!(rename_outcome(RenameBuiltinTmuxSession::SourceMissing, "a", "b").unwrap_err().kind, TmuxErrorKind::NotFound);
    assert_eq!(
        rename_outcome(RenameBuiltinTmuxSession::DestinationExists, "a", "b").unwrap_err().message,
        "会话已存在：b"
    );
}

#[test]
fn events_go_to_copy_mode_while_it_is_open() {
    let mut router = AttachRouter::new();
    assert_eq!(router.key_target(false), KeyTarget::Keyboard);
    assert_eq!(router.key_target(true), KeyTarget::CommandPrompt);
    assert_eq!(router.mouse_target(true), MouseTarget::Ignore);
    router.after_keyboard(AttachInputResult::EnterCopyMode);
    assert!(!router.shows_output());
    assert_eq!(router.key_target(true), KeyTarget::CopyMode);
    assert_eq!(router.mouse_target(true), MouseTarget::CopyMode);
    router.after_copy_key(&TmuxCopyResult::Continue);
    assert!(router.copy_open);
    router.after_copy_key(&TmuxCopyResult::Cancel);
    assert!(router.shows_output());
}

#[test]
fn copy_mode_copies_the_selection_with_both_ends() {
    let lines = vec!["hello".chars().collect::<Vec<char>>(), "world".chars().collect::<Vec<char>>()];
    let mut mode = TmuxCopyMode::from_lines(lines, 20, 5);
    assert!(matches!(mode.handle_key(&press(KeyCode::Char('g'))), TmuxCopyResult::Continue));
    assert_eq!((mode.cursor_line, mode.cursor_col), (0, 0));
    assert!(matches!(mode.handle_key(&press(KeyCode::Char('l'))), TmuxCopyResult::Continue));
    assert!(matches!(mode.handle_key(&press(KeyCode::Enter)), TmuxCopyResult::Continue));
    assert!(matches!(mode.handle_key(&press(KeyCode::Char('j'))), TmuxCopyResult::Continue));
    assert_eq!((mode.cursor_line, mode.cursor_col), (1, 1));
    match mode.handle_key(&press(KeyCode::Char(' '))) {
        TmuxCopyResult::Copy(bytes) => assert_eq!(bytes, b"ello\nwo".to_vec()),
        _ => panic!("expected a copy"),
    }
    assert!(matches!(mode.handle_key(&press(KeyCode::Char('k'))), TmuxCopyResult::Continue));
    assert!(matches!(mode.handle_key(&press(KeyCode::Char('q'))), TmuxCopyResult::Cancel));
    assert!(matches!(mode.handle_key(&press(KeyCode::Esc)), TmuxCopyResult::Cancel));
}
