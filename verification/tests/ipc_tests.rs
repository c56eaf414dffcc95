use terman_tmux::ipc::{sanitize_ipc_component, session_endpoint, TmuxIpcEndpoint, TmuxIpcRequest, TmuxIpcResponse};

#[test]
fn creates_stable_endpoint_name_for_session() {
    let left = TmuxIpcEndpoint::for_session("dev/session");
    let right = TmuxIpcEndpoint::for_session("dev/session");

    assert_eq!(left.raw_name(), right.raw_name());
    assert!(left.raw_name().starts_with("terman-tmux-dev_session-"));
}

#[test]
fn creates_unique_endpoint_name_for_new_session() {
    let endpoint = TmuxIpcEndpoint::for_new_session("dev/session", 0x1f, 0xabc);

    assert!(endpoint.raw_name().starts_with("terman-tmux-dev_session-"));
    assert_eq!(endpoint.raw_name(), "terman-tmux-dev_session-1f-abc");
}

#[test]
fn preserves_raw_endpoint_name() {
    let endpoint = TmuxIpcEndpoint::from_raw_name("terman-tmux-dev");

    assert_eq!(endpoint.raw_name(), "terman-tmux-dev");
}

#[test]
fn models_tmux_ipc_protocol() {
    assert_eq!(TmuxIpcRequest::Ping, TmuxIpcRequest::Ping);
    assert_eq!(
        TmuxIpcResponse::Info {
            session_name: String::from("dev"),
            windows: 1,
            attached_clients: 0,
            active_window: 0,
            window_indexes: vec![0],
            window_names: vec![String::from("0")],
            cwd: String::from("/tmp"),
        },
        TmuxIpcResponse::Info {
            session_name: String::from("dev"),
            windows: 1,
            attached_clients: 0,
            active_window: 0,
            window_indexes: vec![0],
            window_names: vec![String::from("0")],
            cwd: String::from("/tmp"),
        }
    );
}

#[test]
fn models_client_request_payload() {
    assert_eq!(TmuxIpcRequest::Ping, TmuxIpcRequest::Ping);
}

#[test]
fn endpoint_suffix_is_sixteen_hex_digits_of_the_name_hash() {
    let endpoint = TmuxIpcEndpoint::for_session("dev");
    let name = endpoint.raw_name();
    let suffix = name.strip_prefix("terman-tmux-dev-").unwrap();
    assert_eq!(suffix.len(), 16);
    assert!(suffix.chars().all(|c| c.is_ascii_hexdigit()));
    assert_ne!(TmuxIpcEndpoint::for_session("dev").raw_name(), TmuxIpcEndpoint::for_session("ops").raw_name());
}

#[test]
fn sanitizes_endpoint_components() {
    assert_eq!(sanitize_ipc_component("a b/c.d-e_f"), "a_b_c.d-e_f");
    assert_eq!(sanitize_ipc_component(""), "session");
    assert_eq!(sanitize_ipc_component("服务"), "__");
}

#[test]
fn recorded_endpoint_wins_over_the_name() {
    assert_eq!(session_endpoint("dev", Some("custom")).raw_name(), "custom");
    assert_eq!(session_endpoint("dev", None), TmuxIpcEndpoint::for_session("dev"));
}
