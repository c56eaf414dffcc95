use terman_tmux::ipc::{TmuxIpcRequest, TmuxIpcResponse};
use terman_tmux::pane_layout::{PaneLayout, SplitDirection};
use terman_tmux::server::{ControlAction, ServerLoop};
use terman_tmux::service_handlers::handle_request;
use terman_tmux::session_core::{TmuxRecvError, TmuxSessionBus};
use terman_tmux::session_model::{TmuxControlEvent, TmuxSessionEvent};

#[test]
fn swapping_twice_restores_the_panes() {
    let mut layout = PaneLayout::new(0);
    assert!(layout.split(0, 1, SplitDirection::Vertical));
    assert!(layout.split(1, 2, SplitDirection::Horizontal));
    assert!(layout.swap_panes(0, 2));
    assert!(layout.swap_panes(0, 2));
    assert_eq!(layout.pane_indexes(), vec![0, 1, 2]);
}

#[test]
fn input_goes_to_the_active_window_or_ends_the_session() {
    let mut state = ServerLoop::new();
    match state.control_action(&[0], TmuxControlEvent::Input(b"ls".to_vec())) {
        ControlAction::WriteInput { window, bytes } => {
            assert_eq!(window, 0);
            assert_eq!(bytes, b"ls".to_vec());
        },
        _ => panic!("expected input for window 0"),
    }
    assert!(matches!(state.control_action(&[3], TmuxControlEvent::Input(b"x".to_vec())), ControlAction::Exit(-1)));
    assert!(matches!(state.control_action(&[0], TmuxControlEvent::Terminate), ControlAction::KillAll));
    assert!(matches!(state.control_action(&[0], TmuxControlEvent::Terminate), ControlAction::Nothing));
}

#[test]
fn an_exited_window_hands_over_to_its_neighbour() {
    let mut bus = TmuxSessionBus::new(3);
    let mut state = ServerLoop::new();
    let mut running = vec![0, 1, 2];
    assert_eq!(state.window_exited(&mut bus, &mut running, 2, 0), None);
    assert_eq!(running, vec![0, 1]);
    assert_eq!(state.active_window, 1);
    assert_eq!(state.window_exited(&mut bus, &mut running, 0, 0), None);
    assert_eq!(state.active_window, 1);
    assert_eq!(state.window_exited(&mut bus, &mut running, 0, 7), Some(7));
    assert!(running.is_empty());
}

#[test]
fn requests_are_answered_by_the_session_state() {
    let mut bus = TmuxSessionBus::new(1);
    let mut name = String::from("dev");
    let outcome = handle_request(&mut bus, &mut name, "/tmp", TmuxIpcRequest::Info);
    match outcome.response {
        TmuxIpcResponse::Info { session_name, windows, cwd, window_indexes, .. } => {
            assert_eq!(session_name, "dev");
            assert_eq!(windows, 1);
            assert_eq!(cwd, "/tmp");
            assert_eq!(window_indexes, vec![0]);
        },
        _ => panic!("expected session information"),
    }
    let outcome = handle_request(&mut bus, &mut name, "/tmp", TmuxIpcRequest::SelectWindow { index: 9 });
    assert!(matches!(outcome.response, TmuxIpcResponse::Rejected { .. }));
    let outcome = handle_request(&mut bus, &mut name, "/tmp", TmuxIpcRequest::Quit);
    assert_eq!(outcome.response, TmuxIpcResponse::Accepted);
    assert_eq!(outcome.control, Some(TmuxControlEvent::Terminate));
    let outcome = handle_request(&mut bus, &mut name, "/tmp", TmuxIpcRequest::RenameSession { name: "ops".into() });
    assert_eq!(outcome.response, TmuxIpcResponse::Accepted);
    assert_eq!(name, "ops");
}

#[test]
fn terminate_kills_once_and_size_changes_only_on_resize() {
    let mut state = ServerLoop::new();
    assert!(matches!(state.control_action(&[0], TmuxControlEvent::Terminate), ControlAction::KillAll));
    for _ in 0..2 {
        assert!(matches!(state.control_action(&[0], TmuxControlEvent::Terminate), ControlAction::Nothing));
        assert!(state.terminate_requested);
    }
    assert_eq!((state.cols, state.rows), (120, 32));
    let _ = state.control_action(&[0], TmuxControlEvent::Resize { cols: 90, rows: 20 });
    assert_eq!((state.cols, state.rows), (90, 20));
}

#[test]
fn an_exited_window_leaves_the_session_and_the_last_one_ends_it() {
    let mut bus = TmuxSessionBus::new(2);
    let (_, sub) = bus.subscribe_with_replay(None);
    let mut state = ServerLoop::new();
    let mut running = vec![0, 1];
    assert_eq!(state.window_exited(&mut bus, &mut running, 0, 0), None);
    assert!(!bus.state.has_window(0));
    assert!(bus.state.has_window(1));
    assert_eq!(bus.state.active_window, 1);
    assert_eq!(state.active_window, 1);
    assert_eq!(bus.try_recv(&sub), Ok(TmuxSessionEvent::Output(vec![27, 99])));
    assert_eq!(bus.try_recv(&sub), Err(TmuxRecvError::Empty));
    assert_eq!(state.window_exited(&mut bus, &mut running, 0, 3), Some(3));
    assert_eq!(bus.try_recv(&sub), Ok(TmuxSessionEvent::Exit(3)));
}

#[test]
fn selecting_windows_keeps_terminate_and_size() {
    let mut bus = TmuxSessionBus::new(3);
    let mut state = ServerLoop::new();
    assert!(matches!(state.control_action(&[0, 1, 2], TmuxControlEvent::Terminate), ControlAction::KillAll));
    state.select_new_window(&mut bus, &[0, 1, 2], 2);
    assert_eq!(state.active_window, 2);
    assert_eq!(bus.state.active_window, 2);
    state.pane_selected(&mut bus, 1);
    assert_eq!(state.active_window, 1);
    assert_eq!(bus.state.active_window, 1);
    assert!(state.terminate_requested);
    assert_eq!((state.cols, state.rows), (120, 32));
    assert!(matches!(state.control_action(&[0, 1, 2], TmuxControlEvent::Terminate), ControlAction::Nothing));
}
