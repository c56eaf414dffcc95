use terman_tmux::session_core::{TmuxRecvError, TmuxSessionBus};
use terman_tmux::session_model::TmuxSessionEvent;
use terman_tmux::session_state::{trim_replay, TmuxSessionState, MAX_REPLAY_BYTES};

#[test]
fn replays_recent_output_to_attach_clients() {
    let mut bus = TmuxSessionBus::new(1);
    bus.publish_output(b"hello");
    assert_eq!(bus.replay_snapshot(), b"hello".to_vec());
}

#[test]
fn subscribes_with_replay_without_losing_snapshot() {
    let mut bus = TmuxSessionBus::new(1);
    bus.publish_output(b"hello");
    let (replay, subscription) = bus.subscribe_with_replay(None);
    bus.publish_output(b"!");
    assert_eq!(replay, b"hello".to_vec());
    assert_eq!(bus.try_recv(&subscription), Ok(TmuxSessionEvent::Output(b"!".to_vec())));
}

#[test]
fn events_arrive_in_order_then_the_queue_is_empty() {
    let mut bus = TmuxSessionBus::new(2);
    let (_, sub) = bus.subscribe_with_replay(Some(String::from("c1")));
    bus.publish_output(b"a");
    bus.publish_resize(80, 24);
    assert_eq!(bus.try_recv(&sub), Ok(TmuxSessionEvent::Output(b"a".to_vec())));
    assert_eq!(bus.try_recv(&sub), Ok(TmuxSessionEvent::Resize { cols: 80, rows: 24 }));
    assert_eq!(bus.try_recv(&sub), Err(TmuxRecvError::Empty));
    bus.detach_client("c1");
    assert_eq!(bus.try_recv(&sub), Err(TmuxRecvError::Disconnected));
}

#[test]
fn counts_attached_clients() {
    let mut bus = TmuxSessionBus::new(1);
    let (_, a) = bus.subscribe_with_replay(None);
    let (_, b) = bus.subscribe_with_replay(None);
    assert_eq!(bus.status_snapshot().attached_clients, 2);
    bus.unsubscribe(a);
    assert_eq!(bus.status_snapshot().attached_clients, 1);
    bus.unsubscribe(b);
    assert_eq!(bus.status_snapshot().attached_clients, 0);
}

#[test]
fn selecting_a_window_resets_and_replays() {
    let mut bus = TmuxSessionBus::new(2);
    bus.publish_window_output(1, b"one");
    let (_, sub) = bus.subscribe_with_replay(None);
    assert!(bus.select_window(1));
    assert_eq!(bus.try_recv(&sub), Ok(TmuxSessionEvent::Output(vec![0x1b, b'c'])));
    assert_eq!(bus.try_recv(&sub), Ok(TmuxSessionEvent::Output(b"one".to_vec())));
    assert_eq!(bus.state.active_window, 1);
    assert_eq!(bus.state.last_window, Some(0));
    assert!(!bus.select_window(7));
    assert_eq!(bus.select_last_window(), Some(0));
}

#[test]
fn output_of_other_windows_is_kept_not_sent() {
    let mut bus = TmuxSessionBus::new(2);
    let (_, sub) = bus.subscribe_with_replay(None);
    bus.publish_window_output(1, b"bg");
    assert_eq!(bus.try_recv(&sub), Err(TmuxRecvError::Empty));
    assert_eq!(bus.window_replay_snapshot(Some(1)), Some(b"bg".to_vec()));
}

#[test]
fn removing_the_last_window_creates_window_zero() {
    let mut state = TmuxSessionState::new(1);
    state.remove_window(0);
    assert_eq!(state.windows.len(), 1);
    assert_eq!(state.windows[0].index, 0);
    assert_eq!(state.active_window, 0);
}

#[test]
fn window_count_is_kept_exactly() {
    let mut bus = TmuxSessionBus::new(3);
    bus.set_windows(1);
    let status = bus.status_snapshot();
    assert_eq!(status.window_indexes, vec![0]);
    assert_eq!(status.windows, 1);
    bus.set_windows(0);
    assert_eq!(bus.status_snapshot().window_indexes, vec![0]);
}

#[test]
fn replay_keeps_only_the_last_bytes() {
    let mut bytes = vec![1u8; MAX_REPLAY_BYTES + 10];
    bytes[MAX_REPLAY_BYTES + 9] = 2;
    trim_replay(&mut bytes);
    assert_eq!(bytes.len(), MAX_REPLAY_BYTES);
    assert_eq!(bytes[MAX_REPLAY_BYTES - 1], 2);
}

#[test]
fn frames_sort_panes_and_add_the_active_one() {
    let mut state = TmuxSessionState::new(1);
    state.replace_window_output(0, b"frame".to_vec(), 4, vec![(3, b"c".to_vec()), (1, b"a".to_vec())]);
    let (name, active, panes) = state.pane_status(0).unwrap();
    assert_eq!(name, "0");
    assert_eq!(active, 4);
    assert_eq!(panes, vec![1, 3, 4]);
    assert_eq!(state.window_capture(0, Some(3)), Some(&b"c"[..]));
    assert!(state.clear_window_capture(0, Some(3)));
    assert_eq!(state.window_capture(0, Some(3)), Some(&b""[..]));
}

#[test]
fn buffer_round_trip() {
    let mut bus = TmuxSessionBus::new(1);
    bus.set_buffer(b"copy".to_vec());
    assert_eq!(bus.buffer_snapshot(), b"copy".to_vec());
}
