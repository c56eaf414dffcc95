//! The command-line client's side of the built-in commands: which request
//! an invocation sends to its session server, and what it makes of the
//! reply. Finding the session and talking to it is left to the caller.
use vstd::prelude::*;

use crate::args::{
    named_arg_spec, pane_index_spec, resize_pane_height_arg, resize_pane_width_arg, send_keys_args,
    session_part, target_pane_index_arg, target_session_name_arg, target_window_index_arg, window_selector_spec,
    has_flag,
};
use crate::args::positional_args_spec;
use crate::builtin::target_required_error;
use crate::error::{TmuxError, TmuxErrorKind};
use crate::ipc::{TmuxBufferInfo, TmuxIpcRequest, TmuxIpcResponse};
use crate::messages::{keys_required_hint, unexpected_response_hint};
use crate::send_keys::{encode_send_keys, keys_bytes};
use crate::text::{extend_bytes, views};
use crate::buffer_args::{buffer_data_arg, buffer_data_scan, buffer_name_arg, buffer_name_from};
use crate::command::TmuxCommand;
use crate::messages::{buffer_data_required_hint, pane_size_required_hint};
use crate::pane_args::{next_pane, next_pane_spec, require_pane};
use crate::text::join_with;

verus! {

/// Why a reply does not carry what the request asked for.
pub enum ReplyError {
    /// The server refused, and said why.
    Rejected(String),
    /// The server answered something the request does not expect.
    Unexpected,
}

/// `e` is the error that the reply `response` stands for: its reason when
/// the server refused, else an unexpected reply.
pub open spec fn reply_error_of(e: ReplyError, response: TmuxIpcResponse) -> bool {
    match response {
        TmuxIpcResponse::Rejected { reason } => (e matches ReplyError::Rejected(s) && s@ == reason@),
        _ => e is Unexpected,
    }
}

/// The reason of a refusal, or the error of an unexpected reply.
fn reply_error(response: TmuxIpcResponse) -> (r: ReplyError)
    ensures
        reply_error_of(r, response),
{
    match response {
        TmuxIpcResponse::Rejected { reason } => ReplyError::Rejected(reason),
        _ => ReplyError::Unexpected,
    }
}

/// A reply that only acknowledges.
pub fn expect_accepted(response: TmuxIpcResponse) -> (r: Result<(), ReplyError>)
    ensures
        response is Accepted ==> r is Ok,
        !(response is Accepted) ==> (r matches Err(e) && reply_error_of(e, response)),
{
    match response {
        TmuxIpcResponse::Accepted => Ok(()),
        other => Err(reply_error(other)),
    }
}

/// The panes of a window, as the server reports them.
pub struct PaneInfo {
    pub window_index: u32,
    pub window_name: String,
    pub active_pane: u32,
    pub pane_indexes: Vec<u32>,
}

/// A reply that reports the panes of a window.
pub fn expect_panes(response: TmuxIpcResponse) -> (r: Result<PaneInfo, ReplyError>)
    ensures
        match response {
            TmuxIpcResponse::Panes { window_index, window_name, active_pane, pane_indexes } => (r matches Ok(
                info,
            ) && info.window_index == window_index && info.window_name@ == window_name@ && info.active_pane
                == active_pane && info.pane_indexes@ == pane_indexes@),
            _ => (r matches Err(e) && reply_error_of(e, response)),
        },
{
    match response {
        TmuxIpcResponse::Panes { window_index, window_name, active_pane, pane_indexes } => Ok(
            PaneInfo { window_index, window_name, active_pane, pane_indexes },
        ),
        other => Err(reply_error(other)),
    }
}

/// A reply that carries the recent output of a pane.
pub fn expect_captured(response: TmuxIpcResponse) -> (r: Result<Vec<u8>, ReplyError>)
    ensures
        match response {
            TmuxIpcResponse::Captured { bytes } => (r matches Ok(b) && b@ == bytes@),
            _ => (r matches Err(e) && reply_error_of(e, response)),
        },
{
    match response {
        TmuxIpcResponse::Captured { bytes } => Ok(bytes),
        other => Err(reply_error(other)),
    }
}

/// A reply that carries one paste buffer.
pub fn expect_buffer(response: TmuxIpcResponse) -> (r: Result<Vec<u8>, ReplyError>)
    ensures
        match response {
            TmuxIpcResponse::Buffer { name, bytes } => (r matches Ok(b) && b@ == bytes@),
            _ => (r matches Err(e) && reply_error_of(e, response)),
        },
{
    match response {
        TmuxIpcResponse::Buffer { name, bytes } => Ok(bytes),
        other => Err(reply_error(other)),
    }
}

/// A reply that lists the paste buffers.
pub fn expect_buffers(response: TmuxIpcResponse) -> (r: Result<Vec<TmuxBufferInfo>, ReplyError>)
    ensures
        match response {
            TmuxIpcResponse::Buffers { buffers } => (r matches Ok(b) && b@ == buffers@),
            _ => (r matches Err(e) && reply_error_of(e, response)),
        },
{
    match response {
        TmuxIpcResponse::Buffers { buffers } => Ok(buffers),
        other => Err(reply_error(other)),
    }
}

/// A reply that describes the session: its name and how many clients are
/// attached.
pub fn expect_client_status(response: TmuxIpcResponse) -> (r: Result<(String, u32), ReplyError>)
    ensures
        match response {
            TmuxIpcResponse::Info { session_name, attached_clients, .. } => (r matches Ok(s) && s.0@
                == session_name@ && s.1 == attached_clients),
            _ => (r matches Err(e) && reply_error_of(e, response)),
        },
{
    match response {
        TmuxIpcResponse::Info { session_name, attached_clients, .. } => Ok((session_name, attached_clients)),
        other => Err(reply_error(other)),
    }
}

/// The error a command reports for a reply it cannot use: a refusal keeps
/// the server's reason under `rejected_kind`; an unexpected reply is
/// reported as invalid data, described by `detail`.
pub fn reply_failure(e: ReplyError, rejected_kind: TmuxErrorKind, detail: &str) -> (r: TmuxError)
    ensures
        match e {
            ReplyError::Rejected(reason) => r.kind == rejected_kind && r.message@ == reason@,
            ReplyError::Unexpected => r.kind == TmuxErrorKind::InvalidData && r.message@
                == "tmux 会话服务返回了意外的响应："@ + detail@,
        },
{
    match e {
        ReplyError::Rejected(reason) => TmuxError::new(rejected_kind, reason),
        ReplyError::Unexpected => TmuxError::new(TmuxErrorKind::InvalidData, unexpected_response_hint(detail)),
    }
}

/// The session named by `-t`, which the command requires.
pub open spec fn target_name_spec(args: Seq<Seq<char>>) -> Option<Seq<char>> {
    match named_arg_spec(args, "-t"@, "--target-session"@) {
        Some(t) => Some(session_part(t)),
        None => None,
    }
}

/// The session named by `-t`, or the error that none was given.
pub fn required_target_session_name_arg(args: &[String]) -> (r: Result<String, TmuxError>)
    ensures
        match target_name_spec(views(args@)) {
            Some(t) => (r matches Ok(v) && v@ == t),
            None => (r matches Err(e) && e.kind == TmuxErrorKind::InvalidInput && e.message@
                == "需要通过 -t <session> 指定目标会话。"@),
        },
{
    match target_session_name_arg(args) {
        Some(t) => Ok(t),
        None => Err(target_required_error()),
    }
}

/// The window number of the `-t` target as the pane commands send it.
pub open spec fn target_window_spec(args: Seq<Seq<char>>) -> Option<u32> {
    match window_selector_spec(args) {
        Some(sel) => match crate::text::parse_unsigned(sel, usize::MAX as nat) {
            Some(v) => Some((v as usize) as u32),
            None => None,
        },
        None => None,
    }
}

fn target_window(args: &[String]) -> (r: Option<u32>)
    ensures
        r == target_window_spec(views(args@)),
{
    match target_window_index_arg(args) {
        Some(w) => Some(w as u32),
        None => None,
    }
}

/// The pane number of the `-t` target as the pane commands send it.
pub open spec fn target_pane_num_spec(args: Seq<Seq<char>>) -> Option<u32> {
    match pane_index_spec(args) {
        Some(p) => Some((p as usize) as u32),
        None => None,
    }
}

fn target_pane_num(args: &[String]) -> (r: Option<u32>)
    ensures
        r == target_pane_num_spec(views(args@)),
{
    match target_pane_index_arg(args) {
        Some(p) => Some(p as u32),
        None => None,
    }
}

/// `capture-pane`: the request for the recent output of the `-t` pane.
pub fn capture_pane_request(args: &[String]) -> (r: TmuxIpcRequest)
    ensures
        r == (TmuxIpcRequest::CapturePane {
            window: target_window_spec(views(args@)),
            pane: target_pane_num_spec(views(args@)),
        }),
{
    TmuxIpcRequest::CapturePane { window: target_window(args), pane: target_pane_num(args) }
}

/// `send-keys`: the target session and the input request with the encoded
/// keys; an error when there is no target, then when there are no keys.
pub fn send_keys_plan(args: &[String]) -> (r: Result<(String, TmuxIpcRequest), TmuxError>)
    ensures
        match target_name_spec(views(args@)) {
            None => (r matches Err(e) && e.kind == TmuxErrorKind::InvalidInput && e.message@
                == "需要通过 -t <session> 指定目标会话。"@),
            Some(t) => {
                let keys = positional_args_spec(views(args@), seq!["send-keys"@, "send"@]);
                if keys.len() == 0 {
                    r matches Err(e) && e.kind == TmuxErrorKind::InvalidInput && e.message@
                        == "需要提供要发送的按键。"@
                } else {
                    r matches Ok(p) && p.0@ == t && (p.1 matches TmuxIpcRequest::Input { bytes } && bytes@
                        == keys_bytes(keys))
                }
            },
        },
{
    let target = match required_target_session_name_arg(args) {
        Ok(t) => t,
        Err(e) => return Err(e),
    };
    let keys = send_keys_args(args);
    if keys.len() == 0 {
        return Err(TmuxError::new(TmuxErrorKind::InvalidInput, keys_required_hint()));
    }
    let bytes = encode_send_keys(&keys);
    Ok((target, TmuxIpcRequest::Input { bytes }))
}

/// The buffer named by a buffer command, as a plain value.
pub open spec fn buffer_name_spec(args: Seq<Seq<char>>) -> Option<Seq<char>> {
    buffer_name_from(args, 0)
}

/// Whether a request names the buffer `name`.
pub open spec fn names_buffer(name: Option<String>, spec: Option<Seq<char>>) -> bool {
    match name {
        Some(n) => spec == Some(n@),
        None => spec is None,
    }
}

/// The request of a buffer command: `set-buffer` with its data (an error
/// without data), `show-buffer`, `list-buffers`, `paste-buffer` and
/// `delete-buffer`; `None` for any other command.
pub fn buffer_request(command: TmuxCommand, args: &[String]) -> (r: Result<Option<TmuxIpcRequest>, TmuxError>)
    ensures
        match command {
            TmuxCommand::SetBuffer => if buffer_data_scan(views(args@)).payload.len() == 0 {
                r matches Err(e) && e.kind == TmuxErrorKind::InvalidInput && e.message@
                    == "需要提供缓冲区内容。"@
            } else {
                r matches Ok(Some(TmuxIpcRequest::SetBuffer { name, bytes })) && names_buffer(
                    name,
                    buffer_name_spec(views(args@)),
                ) && bytes@ == vstd::utf8::encode_utf8(
                    join_with(buffer_data_scan(views(args@)).payload, " "@),
                )
            },
            TmuxCommand::ShowBuffer => (r matches Ok(Some(TmuxIpcRequest::GetBuffer { name })) && names_buffer(
                name,
                buffer_name_spec(views(args@)),
            )),
            TmuxCommand::ListBuffers => (r matches Ok(Some(TmuxIpcRequest::ListBuffers))),
            TmuxCommand::PasteBuffer => (r matches Ok(Some(TmuxIpcRequest::PasteBuffer { name }))
                && names_buffer(name, buffer_name_spec(views(args@)))),
            TmuxCommand::DeleteBuffer => (r matches Ok(Some(TmuxIpcRequest::DeleteBuffer { name }))
                && names_buffer(name, buffer_name_spec(views(args@)))),
            _ => r matches Ok(None),
        },
{
    let name = buffer_name_arg(args);
    match command {
        TmuxCommand::SetBuffer => match buffer_data_arg(args) {
            Some(data) => {
                let mut bytes: Vec<u8> = Vec::new();
                extend_bytes(&mut bytes, data.as_str().as_bytes());
                Ok(Some(TmuxIpcRequest::SetBuffer { name, bytes }))
            },
            None => Err(TmuxError::new(TmuxErrorKind::InvalidInput, buffer_data_required_hint())),
        },
        TmuxCommand::ShowBuffer => Ok(Some(TmuxIpcRequest::GetBuffer { name })),
        TmuxCommand::ListBuffers => Ok(Some(TmuxIpcRequest::ListBuffers)),
        TmuxCommand::PasteBuffer => Ok(Some(TmuxIpcRequest::PasteBuffer { name })),
        TmuxCommand::DeleteBuffer => Ok(Some(TmuxIpcRequest::DeleteBuffer { name })),
        _ => Ok(None),
    }
}

/// What `show-buffer` prints: the buffer, ending in a newline.
pub open spec fn buffer_output_spec(bytes: Seq<u8>) -> Seq<u8> {
    if bytes.len() > 0 && bytes.last() == 10u8 {
        bytes
    } else {
        bytes.push(10u8)
    }
}

/// The bytes `show-buffer` prints for a buffer.
pub fn buffer_output(bytes: &[u8]) -> (r: Vec<u8>)
    ensures
        r@ == buffer_output_spec(bytes@),
{
    let mut out: Vec<u8> = Vec::new();
    extend_bytes(&mut out, bytes);
    let n = bytes.len();
    if n == 0 || bytes[n - 1] != 10u8 {
        out.push(10u8);
    }
    out
}

/// What `resize-pane` asks for: zoom with `-Z`, else a width and/or a
/// height.
pub open spec fn resize_size_spec(args: Seq<Seq<char>>) -> (bool, Option<u16>, Option<u16>) {
    (
        exists|i: int| 0 <= i < args.len() && args[i] == "-Z"@,
        crate::args::size_arg_spec(args, "-x"@, "--width"@),
        crate::args::size_arg_spec(args, "-y"@, "--height"@),
    )
}

/// The request of `resize-pane` for a window with these panes: the target
/// pane (the active one by default) must exist; `-Z` toggles its zoom,
/// otherwise it gets the requested size; asking for nothing is an error.
pub fn resize_pane_request(args: &[String], window_index: u32, active_pane: u32, pane_indexes: &[u32]) -> (r: Result<
    TmuxIpcRequest,
    TmuxError,
>)
    ensures
        ({
            let (zoom, cols, rows) = resize_size_spec(views(args@));
            let pane = match target_pane_num_spec(views(args@)) {
                Some(p) => p,
                None => active_pane,
            };
            if !zoom && cols is None && rows is None {
                r matches Err(e) && e.kind == TmuxErrorKind::InvalidInput && e.message@
                    == "需要通过 -x/-y 指定窗格大小，或使用 -Z 缩放。"@
            } else if !pane_indexes@.contains(pane) {
                r matches Err(e) && e.kind == TmuxErrorKind::NotFound
            } else if zoom {
                r == Ok::<TmuxIpcRequest, TmuxError>(
                    TmuxIpcRequest::TogglePaneZoom { window: Some(window_index), pane: Some(pane) },
                )
            } else {
                r == Ok::<TmuxIpcRequest, TmuxError>(
                    TmuxIpcRequest::ResizePane { window: Some(window_index), pane: Some(pane), cols, rows },
                )
            }
        }),
{
    let zoom = has_flag(args, "-Z");
    let cols = resize_pane_width_arg(args);
    let rows = resize_pane_height_arg(args);
    proof {
        crate::args::lemma_size_arg(views(args@), "-x"@, "--width"@, cols);
        crate::args::lemma_size_arg(views(args@), "-y"@, "--height"@, rows);
        assert(zoom == (exists|i: int| 0 <= i < views(args@).len() && views(args@)[i] == "-Z"@)) by {
            if zoom {
                let i = choose|i: int| 0 <= i < args.len() && args@[i]@ == "-Z"@;
                assert(views(args@)[i] == "-Z"@);
            }
            if exists|i: int| 0 <= i < views(args@).len() && views(args@)[i] == "-Z"@ {
                let i = choose|i: int| 0 <= i < views(args@).len() && views(args@)[i] == "-Z"@;
                assert(args@[i]@ == "-Z"@);
            }
        }
    }
    if !zoom && cols.is_none() && rows.is_none() {
        return Err(TmuxError::new(TmuxErrorKind::InvalidInput, pane_size_required_hint()));
    }
    let pane = match target_pane_num(args) {
        Some(p) => p,
        None => active_pane,
    };
    match require_pane(window_index, pane_indexes, pane) {
        Ok(()) => {},
        Err(e) => return Err(e),
    }
    if zoom {
        Ok(TmuxIpcRequest::TogglePaneZoom { window: Some(window_index), pane: Some(pane) })
    } else {
        Ok(TmuxIpcRequest::ResizePane { window: Some(window_index), pane: Some(pane), cols, rows })
    }
}

/// What killing a pane comes to: the last pane of a window takes the
/// window with it.
pub enum KillPanePlan {
    KillWindow,
    Send(TmuxIpcRequest),
}

/// `kill-pane` for a window with these panes: the target pane (the active
/// one by default) must exist; when it is the only pane the window is
/// killed instead.
pub fn kill_pane_plan(args: &[String], window_index: u32, active_pane: u32, pane_indexes: &[u32]) -> (r: Result<
    KillPanePlan,
    TmuxError,
>)
    ensures
        ({
            let pane = match target_pane_num_spec(views(args@)) {
                Some(p) => p,
                None => active_pane,
            };
            if !pane_indexes@.contains(pane) {
                r matches Err(e) && e.kind == TmuxErrorKind::NotFound
            } else if pane_indexes@.len() == 1 {
                r matches Ok(KillPanePlan::KillWindow)
            } else {
                r matches Ok(KillPanePlan::Send(q)) && q == (TmuxIpcRequest::KillPane {
                    window: Some(window_index),
                    pane: Some(pane),
                })
            }
        }),
{
    let pane = match target_pane_num(args) {
        Some(p) => p,
        None => active_pane,
    };
    match require_pane(window_index, pane_indexes, pane) {
        Ok(()) => {},
        Err(e) => return Err(e),
    }
    if pane_indexes.len() == 1 {
        Ok(KillPanePlan::KillWindow)
    } else {
        Ok(KillPanePlan::Send(TmuxIpcRequest::KillPane { window: Some(window_index), pane: Some(pane) }))
    }
}

/// An attached client kills its active pane, or the window when the pane
/// is its last.
pub fn attached_kill_pane_plan(window_index: u32, active_pane: u32, pane_indexes: &[u32]) -> (r: KillPanePlan)
    ensures
        pane_indexes@.len() <= 1 ==> r is KillWindow,
        pane_indexes@.len() > 1 ==> (r matches KillPanePlan::Send(q) && q == (TmuxIpcRequest::KillPane {
            window: Some(window_index),
            pane: Some(active_pane),
        })),
{
    if pane_indexes.len() <= 1 {
        KillPanePlan::KillWindow
    } else {
        KillPanePlan::Send(TmuxIpcRequest::KillPane { window: Some(window_index), pane: Some(active_pane) })
    }
}

/// An attached client selects the pane after its active one; nothing when
/// the window reports no panes.
pub fn attached_next_pane_request(window_index: u32, active_pane: u32, pane_indexes: &[u32]) -> (r: Option<
    TmuxIpcRequest,
>)
    ensures
        match next_pane_spec(active_pane, pane_indexes@) {
            Some(p) => r == Some(TmuxIpcRequest::SelectPane { window: Some(window_index), pane: Some(p) }),
            None => r is None,
        },
{
    match next_pane(active_pane, pane_indexes) {
        Some(p) => Some(TmuxIpcRequest::SelectPane { window: Some(window_index), pane: Some(p) }),
        None => None,
    }
}


/// The pane entries of a window, as `list-panes` prints them and
/// `display-panes` shows them.
pub open spec fn pane_entries_spec(target: Seq<char>, window: u32, name: Seq<char>, active: u32, panes: Seq<u32>) -> Seq<
    Seq<char>,
> {
    Seq::new(panes.len(), |k: int| crate::messages::pane_entry_spec(target, window, panes[k], name, panes[k] == active))
}

pub fn pane_entries(target: &str, info: &PaneInfo) -> (r: Vec<String>)
    ensures
        views(r@) == pane_entries_spec(target@, info.window_index, info.window_name@, info.active_pane, info.pane_indexes@),
{
    let ghost want = pane_entries_spec(target@, info.window_index, info.window_name@, info.active_pane, info.pane_indexes@);
    let mut out: Vec<String> = Vec::new();
    let mut k: usize = 0;
    while k < info.pane_indexes.len()
        invariant
            k <= info.pane_indexes@.len(),
            want == pane_entries_spec(target@, info.window_index, info.window_name@, info.active_pane, info.pane_indexes@),
            views(out@) == want.take(k as int),
        decreases info.pane_indexes@.len() - k,
    {
        let p = info.pane_indexes[k];
        let e = crate::messages::pane_list_entry(target, info.window_index, p, info.window_name.as_str(), p == info.active_pane);
        let ghost before = out@;
        out.push(e);
        assert(views(out@) =~= views(before).push(e@));
        assert(want.take(k + 1) =~= want.take(k as int).push(want[k as int]));
        k += 1;
    }
    assert(want.take(info.pane_indexes@.len() as int) =~= want);
    out
}

/// `display-panes`: the request that shows the pane entries, joined by
/// ` | `, to the attached clients.
pub fn display_panes_request(target: &str, info: &PaneInfo) -> (r: TmuxIpcRequest)
    ensures
        r matches TmuxIpcRequest::DisplayMessage { message } && message@ == join_with(
            pane_entries_spec(target@, info.window_index, info.window_name@, info.active_pane, info.pane_indexes@),
            " | "@,
        ),
{
    let entries = pane_entries(target, info);
    let message = crate::text::join_strings(&entries, " | ");
    TmuxIpcRequest::DisplayMessage { message }
}


/// `char::is_control`: the C0 and C1 control characters.
pub open spec fn is_control(c: char) -> bool {
    c <= '\u{1f}' || ('\u{7f}' <= c && c <= '\u{9f}')
}

/// The text with each control character replaced by a space.
pub open spec fn without_controls(s: Seq<char>) -> Seq<char> {
    s.map_values(|c: char| if is_control(c) { ' ' } else { c })
}

/// How many columns a buffer preview may take.
pub const PREVIEW_COLUMNS: usize = 48;

/// The preview of a buffer's text in `list-buffers`: control characters
/// shown as spaces, trimmed, and cut to `PREVIEW_COLUMNS` columns.
pub open spec fn preview_spec(text: Seq<char>) -> Seq<char> {
    let t = crate::text::trim(without_controls(text));
    t.take(crate::display_width::fit_prefix(t, PREVIEW_COLUMNS as nat).0 as int)
}

pub fn buffer_preview(text: &str) -> (r: String)
    ensures
        r@ == preview_spec(text@),
{
    let cs = crate::text::chars_of(text);
    let mut plain: Vec<char> = Vec::new();
    let mut k: usize = 0;
    while k < cs.len()
        invariant
            k <= cs@.len(),
            cs@ == text@,
            plain@ == without_controls(cs@.take(k as int)),
        decreases cs@.len() - k,
    {
        let c = cs[k];
        let shown = if c <= '\u{1f}' || ('\u{7f}' <= c && c <= '\u{9f}') {
            ' '
        } else {
            c
        };
        plain.push(shown);
        assert(without_controls(cs@.take(k + 1)) =~= without_controls(cs@.take(k as int)).push(shown));
        k += 1;
    }
    assert(cs@.take(cs@.len() as int) =~= cs@);
    let trimmed = crate::text::trim_chars(&plain);
    let n = crate::display_width::fit_count(&trimmed, PREVIEW_COLUMNS);
    let mut out = String::new();
    let mut i: usize = 0;
    while i < n
        invariant
            i <= n,
            n <= trimmed@.len(),
            out@ == trimmed@.take(i as int),
        decreases n - i,
    {
        crate::text::push_char(&mut out, trimmed[i]);
        assert(trimmed@.take(i + 1) =~= trimmed@.take(i as int).push(trimmed@[i as int]));
        i += 1;
    }
    out
}


/// The window a window command is about: the `-t` window, else the
/// active one.
pub open spec fn window_or_active_spec(args: Seq<Seq<char>>, active: u32) -> u32 {
    match target_window_spec(args) {
        Some(w) => w,
        None => active,
    }
}

pub fn window_or_active(args: &[String], active: u32) -> (r: u32)
    ensures
        r == window_or_active_spec(views(args@), active),
{
    match target_window(args) {
        Some(w) => w,
        None => active,
    }
}

/// `split-window`: split the window's active pane, side by side with
/// `-h`, running the words after the command when there are any.
pub fn split_window_request(args: &[String], window_index: u32) -> (r: TmuxIpcRequest)
    ensures
        r matches TmuxIpcRequest::SplitPane { window, horizontal, command } && window == Some(window_index)
            && horizontal == (exists|i: int| 0 <= i < args@.len() && args@[i]@ == "-h"@) && match command {
            Some(c) => crate::args::positional_payload_spec(views(args@), seq!["split-window"@, "splitw"@]) == Some(c@),
            None => crate::args::positional_payload_spec(views(args@), seq!["split-window"@, "splitw"@]) is None,
        },
{
    let horizontal = has_flag(args, "-h");
    let commands = ["split-window", "splitw"];
    assert(commands@.map_values(|n: &str| n@) =~= seq!["split-window"@, "splitw"@]);
    let command = crate::args::positional_payload_after_command(args, &commands);
    TmuxIpcRequest::SplitPane { window: Some(window_index), horizontal, command }
}

/// `clear-history`: the request for the `-t` pane.
pub fn clear_history_request(args: &[String]) -> (r: TmuxIpcRequest)
    ensures
        r == (TmuxIpcRequest::ClearHistory {
            window: target_window_spec(views(args@)),
            pane: target_pane_num_spec(views(args@)),
        }),
{
    TmuxIpcRequest::ClearHistory { window: target_window(args), pane: target_pane_num(args) }
}

/// `display-message`: show the message words (nothing when there are
/// none) to the attached clients.
pub fn display_message_request(args: &[String]) -> (r: TmuxIpcRequest)
    ensures
        r matches TmuxIpcRequest::DisplayMessage { message } && match crate::args::positional_payload_spec(
            views(args@),
            seq!["display-message"@, "display"@],
        ) {
            Some(m) => message@ == m,
            None => message@ == Seq::<char>::empty(),
        },
{
    match crate::args::display_message_arg(args) {
        Some(message) => TmuxIpcRequest::DisplayMessage { message },
        None => TmuxIpcRequest::DisplayMessage { message: String::new() },
    }
}

/// `new-window`: start window `index`, named by `-n` or else `name`,
/// running the command words when there are any.
pub fn new_window_request(args: &[String], index: u32, name: String) -> (r: TmuxIpcRequest)
    ensures
        r matches TmuxIpcRequest::NewWindow { index: i, name: n, command } && i == index && match named_arg_spec(
            views(args@),
            "-n"@,
            "--window-name"@,
        ) {
            Some(given) => n@ == given,
            None => n@ == name@,
        } && match command {
            Some(c) => c@ == join_with(crate::args::new_window_scan(views(args@)).payload, " "@),
            None => crate::text::all_ws(join_with(crate::args::new_window_scan(views(args@)).payload, " "@)),
        },
{
    let window_name = match crate::args::new_window_name_arg(args) {
        Some(n) => n,
        None => name,
    };
    let command = crate::args::new_window_command_arg(args);
    TmuxIpcRequest::NewWindow { index, name: window_name, command }
}

/// `rename-window`: rename window `index` to the name given after the
/// command; an error when there is none.
pub fn rename_window_request(args: &[String], index: u32) -> (r: Result<TmuxIpcRequest, TmuxError>)
    ensures
        match crate::args::positional_after_spec(views(args@), seq!["rename-window"@, "renamew"@]) {
            Some(n) => (r matches Ok(TmuxIpcRequest::RenameWindow { index: i, name }) && i == index && name@ == n),
            None => (r matches Err(e) && e.kind == TmuxErrorKind::InvalidInput && e.message@
                == "需要提供新的窗口名。"@),
        },
{
    match crate::args::rename_window_name_arg(args) {
        Some(name) => Ok(TmuxIpcRequest::RenameWindow { index, name }),
        None => Err(TmuxError::new(TmuxErrorKind::InvalidInput, crate::messages::window_name_required_hint())),
    }
}


/// The windows `kill-window` ends: with `-a` every window but `index`,
/// otherwise `index` alone.
pub open spec fn other_than(index: u32) -> spec_fn(u32) -> bool {
    |w: u32| w != index
}

pub open spec fn windows_to_kill_spec(args: Seq<Seq<char>>, index: u32, indexes: Seq<u32>) -> Seq<u32> {
    if exists|i: int| 0 <= i < args.len() && args[i] == "-a"@ {
        indexes.filter(other_than(index))
    } else {
        seq![index]
    }
}

pub fn windows_to_kill(args: &[String], index: u32, indexes: &[u32]) -> (r: Vec<u32>)
    ensures
        r@ == windows_to_kill_spec(views(args@), index, indexes@),
{
    let all_others = crate::args::kill_other_windows_arg(args);
    proof {
        if all_others {
            let i = choose|i: int| 0 <= i < args@.len() && args@[i]@ == "-a"@;
            assert(views(args@)[i] == "-a"@);
        }
        if exists|i: int| 0 <= i < views(args@).len() && views(args@)[i] == "-a"@ {
            let i = choose|i: int| 0 <= i < views(args@).len() && views(args@)[i] == "-a"@;
            assert(args@[i]@ == "-a"@);
        }
    }
    let mut out: Vec<u32> = Vec::new();
    if !all_others {
        out.push(index);
        assert(out@ =~= seq![index]);
        return out;
    }
    let mut k: usize = 0;
    while k < indexes.len()
        invariant
            k <= indexes@.len(),
            out@ == indexes@.take(k as int).filter(other_than(index)),
        decreases indexes@.len() - k,
    {
        let w = indexes[k];
        proof {
            reveal_with_fuel(Seq::filter, 1);
            assert(indexes@.take(k + 1).drop_last() =~= indexes@.take(k as int));
        }
        if w != index {
            out.push(w);
        }
        k += 1;
    }
    assert(indexes@.take(indexes@.len() as int) =~= indexes@);
    assert(out@ == indexes@.filter(other_than(index)));
    assert(exists|i: int| 0 <= i < views(args@).len() && views(args@)[i] == "-a"@) by {
        let i = choose|i: int| 0 <= i < args@.len() && args@[i]@ == "-a"@;
        assert(views(args@)[i] == "-a"@);
    }
    out
}


/// `list-panes --json`: print the panes as JSON.
pub fn list_panes_json_requested(args: &[String]) -> (r: bool)
    ensures
        r == (exists|i: int| 0 <= i < args@.len() && args@[i]@ == "--json"@),
{
    has_flag(args, "--json")
}

} // verus!
