use terman_tmux::attach_command_exec::{has_explicit_target, split_command_line};
use terman_tmux::attach_find::matching_window;
use terman_tmux::attach_keys::{
    is_detach_key, is_tmux_prefix_key, key_event_bytes, tmux_prefix_command, KeyCode, KeyEventKind, KeyInput,
    KeyModifiers, TmuxPrefixCommand,
};
use terman_tmux::attach_mouse::status_window_at;
use terman_tmux::attach_prompt::{edit_prompt, PromptAction};
use terman_tmux::attach_repeat::PaneResizeRepeat;
use terman_tmux::attach_status::{status_line_text, window_label};
use terman_tmux::attach_window::neighbor_window_index;
use terman_tmux::builtin::new_session_is_detached;
use terman_tmux::display_width::{fit_to_width, text_width};
use terman_tmux::pane_layout::PaneDirection;
use terman_tmux::send_keys::encode_send_keys;
use terman_tmux::unsupported_command_name;

fn key(code: KeyCode, control: bool) -> KeyInput {
    KeyInput {
        code,
        modifiers: KeyModifiers { shift: false, control, alt: false },
        kind: KeyEventKind::Press,
    }
}

#[test]
fn wraps_after_the_active_window() {
    let indexes = [0, 1, 2];
    let names = ["editor", "logs", "build"].map(String::from);
    assert_eq!(matching_window(1, &indexes, &names, "EDIT"), Some(0));
}

#[test]
fn matches_a_window_index() {
    let indexes = [2, 7];
    let names = ["editor", "logs"].map(String::from);
    assert_eq!(matching_window(2, &indexes, &names, "7"), Some(7));
}

#[test]
fn finds_nothing_for_an_unknown_query() {
    let indexes = [0, 1];
    let names = ["editor", "logs"].map(String::from);
    assert_eq!(matching_window(0, &indexes, &names, "zzz"), None);
    assert_eq!(matching_window(0, &[], &[], "x"), None);
}

#[test]
fn maps_window_status_columns() {
    let indexes = vec![0, 1];
    let names = vec![String::from("zsh"), String::from("api")];
    assert_eq!(status_window_at(11, "dev", 0, &indexes, &names, None), Some(0));
    assert_eq!(status_window_at(19, "dev", 0, &indexes, &names, None), Some(1));
}

#[test]
fn maps_unicode_window_status_columns() {
    let indexes = vec![0, 1];
    let names = vec![String::from("服务"), String::from("api")];
    assert_eq!(status_window_at(11, "dev", 0, &indexes, &names, None), Some(0));
    assert_eq!(status_window_at(20, "dev", 0, &indexes, &names, None), Some(1));
}

#[test]
fn clamps_window_status_columns_to_visible_width() {
    let indexes = vec![0, 1];
    let names = vec![String::from("服务服务服务"), String::from("api")];
    assert_eq!(status_window_at(18, "dev", 0, &indexes, &names, Some(18)), None);
    assert_eq!(status_window_at(17, "dev", 0, &indexes, &names, Some(18)), Some(0));
}

#[test]
fn status_columns_outside_labels_hit_nothing() {
    let indexes = vec![0, 1];
    let names = vec![String::from("zsh"), String::from("api")];
    assert_eq!(status_window_at(3, "dev", 0, &indexes, &names, None), None);
    assert_eq!(status_window_at(18, "dev", 0, &indexes, &names, None), None);
    assert_eq!(status_window_at(40, "dev", 0, &indexes, &names, None), None);
}

#[test]
fn accepts_control_arrow_only_while_armed() {
    let left = key(KeyCode::Left, true);
    let mut repeat = PaneResizeRepeat::new();
    assert!(repeat.take_command(&left, 0).is_none());
    repeat.arm(0);
    assert_eq!(
        repeat.take_command(&left, 10),
        Some(TmuxPrefixCommand::ResizePane(PaneDirection::Left))
    );
}

#[test]
fn resize_repeat_expires_and_is_disarmed_by_other_keys() {
    let left = key(KeyCode::Left, true);
    let mut repeat = PaneResizeRepeat::new();
    repeat.arm(100);
    assert!(repeat.take_command(&left, 601).is_none());
    repeat.arm(100);
    assert!(repeat.take_command(&key(KeyCode::Char('n'), false), 200).is_none());
    assert!(repeat.take_command(&left, 210).is_none());
    repeat.arm(100);
    assert!(repeat.take_command(&left, 600).is_some());
    assert_eq!(repeat.deadline, Some(1100));
}

#[test]
fn detects_detached_new_session() {
    assert!(new_session_is_detached(&["new".into(), "-d".into()], false));
    assert!(new_session_is_detached(&["new".into()], true));
    assert!(!new_session_is_detached(&["new".into()], false));
}

#[test]
fn detects_unsupported_command_name() {
    assert_eq!(unsupported_command_name(&["-d".into(), "attach".into()]), "attach");
    assert_eq!(unsupported_command_name(&["--detached".into()]), "unknown");
}

#[test]
fn encodes_literals_and_common_keys() {
    assert_eq!(
        encode_send_keys(&["echo hi".into(), "Enter".into(), "C-c".into()]),
        b"echo hi\r\x03".to_vec()
    );
}

#[test]
fn prefix_keys_map_to_commands() {
    assert!(is_tmux_prefix_key(&key(KeyCode::Char('b'), true)));
    assert!(!is_tmux_prefix_key(&key(KeyCode::Char('b'), false)));
    assert!(is_detach_key(&key(KeyCode::Char('d'), false)));
    assert_eq!(tmux_prefix_command(&key(KeyCode::Char('n'), false)), Some(TmuxPrefixCommand::NextWindow));
    assert_eq!(tmux_prefix_command(&key(KeyCode::Char('3'), false)), Some(TmuxPrefixCommand::SelectWindow(3)));
    assert_eq!(
        tmux_prefix_command(&key(KeyCode::Up, false)),
        Some(TmuxPrefixCommand::SelectPane(PaneDirection::Up))
    );
    assert_eq!(
        tmux_prefix_command(&key(KeyCode::Right, true)),
        Some(TmuxPrefixCommand::ResizePane(PaneDirection::Right))
    );
    assert_eq!(tmux_prefix_command(&key(KeyCode::Char('Q'), false)), None);
    let mut released = key(KeyCode::Char('n'), false);
    released.kind = KeyEventKind::Release;
    assert_eq!(tmux_prefix_command(&released), None);
}

#[test]
fn keys_become_terminal_bytes() {
    assert_eq!(key_event_bytes(&key(KeyCode::Char('a'), false)), Some(b"a".to_vec()));
    assert_eq!(key_event_bytes(&key(KeyCode::Char('c'), true)), Some(vec![3]));
    assert_eq!(key_event_bytes(&key(KeyCode::Enter, false)), Some(b"\r".to_vec()));
    assert_eq!(key_event_bytes(&key(KeyCode::Up, false)), Some(b"\x1b[A".to_vec()));
    assert_eq!(key_event_bytes(&key(KeyCode::Char('é'), false)), Some("é".as_bytes().to_vec()));
}

#[test]
fn prompt_edits_and_submits() {
    let mut input = String::new();
    assert!(matches!(edit_prompt(&key(KeyCode::Char('a'), false), &mut input), PromptAction::Editing));
    assert!(matches!(edit_prompt(&key(KeyCode::Char('b'), false), &mut input), PromptAction::Editing));
    assert_eq!(input, "ab");
    assert!(matches!(edit_prompt(&key(KeyCode::Backspace, false), &mut input), PromptAction::Editing));
    assert_eq!(input, "a");
    match edit_prompt(&key(KeyCode::Enter, false), &mut input) {
        PromptAction::Execute(text) => assert_eq!(text, "a"),
        _ => panic!("expected the prompt to submit"),
    }
    assert_eq!(input, "");
    assert!(matches!(edit_prompt(&key(KeyCode::Esc, false), &mut input), PromptAction::Cancel));
}

#[test]
fn status_line_lists_windows() {
    assert_eq!(window_label(1, 1, "api"), "[1:api]");
    assert_eq!(window_label(2, 1, "db"), "2:db");
    let names = vec![String::from("zsh"), String::from("api")];
    let line = status_line_text("dev", 0, &[0, 1], &names);
    assert!(line.starts_with("tmux dev | [0:zsh] 1:api"));
}

#[test]
fn neighbor_windows_wrap() {
    assert_eq!(neighbor_window_index(2, &[0, 2, 5], true), Some(5));
    assert_eq!(neighbor_window_index(5, &[0, 2, 5], true), Some(0));
    assert_eq!(neighbor_window_index(0, &[0, 2, 5], false), Some(5));
    assert_eq!(neighbor_window_index(0, &[], true), None);
}

#[test]
fn command_lines_split_on_quotes() {
    assert_eq!(
        split_command_line("rename-window 'my window'"),
        Some(vec![String::from("rename-window"), String::from("my window")])
    );
    assert_eq!(split_command_line("display \"a b\" c"), Some(vec!["display".into(), "a b".into(), "c".into()]));
    assert_eq!(split_command_line("send 'open"), None);
    assert!(has_explicit_target(&["-t".into(), "dev".into()]));
    assert!(!has_explicit_target(&["dev".into()]));
}

#[test]
fn widths_count_wide_characters() {
    assert_eq!(text_width("abc"), 3);
    assert_eq!(text_width("服务"), 4);
    assert_eq!(fit_to_width("abcdef", 3), "abc");
    assert_eq!(fit_to_width("ab", 4), "ab  ");
}
