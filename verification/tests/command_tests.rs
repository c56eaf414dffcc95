use terman_tmux::command::TmuxCommand;

#[test]
fn parses_tmux_command_aliases() {
    assert_eq!(TmuxCommand::parse(&["new".into()]), TmuxCommand::NewSession);
    assert_eq!(TmuxCommand::parse(&["new-session".into()]), TmuxCommand::NewSession);
    assert_eq!(TmuxCommand::parse(&["attach-session".into()]), TmuxCommand::AttachSession);
    assert_eq!(TmuxCommand::parse(&["ls".into()]), TmuxCommand::ListSessions);
    assert_eq!(TmuxCommand::parse(&["lsc".into()]), TmuxCommand::ListClients);
    assert_eq!(TmuxCommand::parse(&["kill-session".into()]), TmuxCommand::KillSession);
    assert_eq!(TmuxCommand::parse(&["kill-server".into()]), TmuxCommand::KillServer);
    assert_eq!(TmuxCommand::parse(&["has-session".into()]), TmuxCommand::HasSession);
    assert_eq!(TmuxCommand::parse(&["rename-session".into()]), TmuxCommand::RenameSession);
    assert_eq!(TmuxCommand::parse(&["display".into()]), TmuxCommand::DisplayMessage);
    assert_eq!(TmuxCommand::parse(&["capturep".into()]), TmuxCommand::CapturePane);
    assert_eq!(TmuxCommand::parse(&["detach".into()]), TmuxCommand::DetachClient);
    assert_eq!(TmuxCommand::parse(&["send".into()]), TmuxCommand::SendKeys);
    assert_eq!(TmuxCommand::parse(&["neww".into()]), TmuxCommand::NewWindow);
    assert_eq!(TmuxCommand::parse(&["lsw".into()]), TmuxCommand::ListWindows);
    assert_eq!(TmuxCommand::parse(&["selectw".into()]), TmuxCommand::SelectWindow);
    assert_eq!(TmuxCommand::parse(&["next".into()]), TmuxCommand::NextWindow);
    assert_eq!(TmuxCommand::parse(&["prev".into()]), TmuxCommand::PreviousWindow);
    assert_eq!(TmuxCommand::parse(&["killw".into()]), TmuxCommand::KillWindow);
    assert_eq!(TmuxCommand::parse(&["renamew".into()]), TmuxCommand::RenameWindow);
}

#[test]
fn skips_detached_global_flag() {
    assert_eq!(TmuxCommand::parse(&["-d".into(), "new".into()]), TmuxCommand::NewSession);
    assert_eq!(TmuxCommand::parse(&["--detached".into()]), TmuxCommand::Other);
}
