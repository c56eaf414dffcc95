use terman_tmux::session_registry::{
    add_window, find_session, kill_window, register_session, remove_session, rename_session, AddBuiltinTmuxWindow,
    BuiltinTmuxSession, KillBuiltinTmuxWindow, RenameBuiltinTmuxSession,
};

fn registry() -> Vec<BuiltinTmuxSession> {
    let mut sessions = Vec::new();
    assert!(register_session(&mut sessions, "dev".into(), Some("terman-tmux-dev".into())));
    assert!(register_session(&mut sessions, "ops".into(), None));
    sessions
}

#[test]
fn sessions_are_registered_once() {
    let mut sessions = registry();
    assert!(!register_session(&mut sessions, "dev".into(), None));
    assert_eq!(sessions.len(), 2);
    assert_eq!(find_session(&sessions, "ops"), Some(1));
    assert_eq!(find_session(&sessions, "x"), None);
    assert_eq!(sessions[0].windows, vec![(0, "0".to_string())]);
}

#[test]
fn renaming_checks_both_names() {
    let mut sessions = registry();
    assert_eq!(rename_session(&mut sessions, "nope", "x"), RenameBuiltinTmuxSession::SourceMissing);
    assert_eq!(rename_session(&mut sessions, "dev", "ops"), RenameBuiltinTmuxSession::DestinationExists);
    assert_eq!(rename_session(&mut sessions, "dev", "web"), RenameBuiltinTmuxSession::Renamed);
    assert_eq!(sessions[0].name, "web");
    assert_eq!(sessions[0].ipc_endpoint.as_deref(), Some("terman-tmux-dev"));
}

#[test]
fn windows_are_numbered_after_the_largest() {
    let mut sessions = registry();
    match add_window(&mut sessions, "dev") {
        AddBuiltinTmuxWindow::Added { index, name } => {
            assert_eq!(index, 1);
            assert_eq!(name, "1");
        },
        _ => panic!("expected a window"),
    }
    assert!(matches!(add_window(&mut sessions, "nope"), AddBuiltinTmuxWindow::SessionMissing));
    assert_eq!(kill_window(&mut sessions, "dev", 0), KillBuiltinTmuxWindow::Killed { index: 0, remaining: 1 });
    match add_window(&mut sessions, "dev") {
        AddBuiltinTmuxWindow::Added { index, .. } => assert_eq!(index, 2),
        _ => panic!("expected a window"),
    }
}

#[test]
fn killing_the_last_window_ends_the_session() {
    let mut sessions = registry();
    assert_eq!(kill_window(&mut sessions, "ops", 5), KillBuiltinTmuxWindow::WindowMissing);
    assert_eq!(kill_window(&mut sessions, "ops", 0), KillBuiltinTmuxWindow::SessionKilled);
    assert_eq!(find_session(&sessions, "ops"), None);
    assert_eq!(kill_window(&mut sessions, "ops", 0), KillBuiltinTmuxWindow::SessionMissing);
    assert!(remove_session(&mut sessions, "dev"));
    assert!(!remove_session(&mut sessions, "dev"));
    assert!(sessions.is_empty());
}
