//! The attach stream: the replies a session server streams to an attached
//! client, and what the client shows for each.
use vstd::prelude::*;

use crate::ipc::TmuxIpcResponse;
use crate::session_model::{event_view, EventView, TmuxSessionEvent};
use crate::text::{hex, push_char, push_hex, push_hex_wide};

verus! {

/// The reply that carries a session event to an attached client, and
/// whether the stream ends after it.
pub fn attach_event_response(event: TmuxSessionEvent) -> (r: (TmuxIpcResponse, bool))
    ensures
        match event_view(event) {
            EventView::Output(b) => (r.0 matches TmuxIpcResponse::Output { bytes } && bytes@ == b) && !r.1,
            EventView::Resize { cols, rows } => r.0 == TmuxIpcResponse::Resize { cols, rows } && !r.1,
            EventView::Detach => r.0 == TmuxIpcResponse::Detached && r.1,
            EventView::Exit(code) => r.0 == TmuxIpcResponse::Exit { code } && r.1,
        },
{
    match event {
        TmuxSessionEvent::Output(bytes) => (TmuxIpcResponse::Output { bytes }, false),
        TmuxSessionEvent::Resize { cols, rows } => (TmuxIpcResponse::Resize { cols, rows }, false),
        TmuxSessionEvent::Detach => (TmuxIpcResponse::Detached, true),
        TmuxSessionEvent::Exit(code) => (TmuxIpcResponse::Exit { code }, true),
    }
}

/// What the attached client does with a reply.
pub enum AttachDisplay {
    /// Nothing.
    Nothing,
    /// Write these bytes; then fetch the status line again when
    /// `refresh_status`, and show it.
    Write { bytes: Vec<u8>, refresh_status: bool },
    /// Fetch the status line again and show it.
    RefreshStatus,
    /// The session detached or ended this client.
    End,
    /// The server refused the client with this reason.
    Fail(String),
}

/// The output begins with the terminal reset `ESC c`.
pub open spec fn starts_with_reset(b: Seq<u8>) -> bool {
    b.len() >= 2 && b[0] == 27u8 && b[1] == 99u8
}

/// What the client does with `response`; output is shown only when
/// `display_output` (copy mode hides it).
pub fn attach_response_step(response: TmuxIpcResponse, display_output: bool) -> (r: AttachDisplay)
    ensures
        match response {
            TmuxIpcResponse::Attached { replay } => if display_output {
                r matches AttachDisplay::Write { bytes, refresh_status } && bytes@ == replay@ && refresh_status
            } else {
                r is Nothing
            },
            TmuxIpcResponse::Output { bytes: b } => if display_output {
                r matches AttachDisplay::Write { bytes, refresh_status } && bytes@ == b@ && refresh_status
                    == starts_with_reset(b@)
            } else {
                r is Nothing
            },
            TmuxIpcResponse::Resize { .. } => if display_output {
                r is RefreshStatus
            } else {
                r is Nothing
            },
            TmuxIpcResponse::Detached | TmuxIpcResponse::Exit { .. } => r is End,
            TmuxIpcResponse::Rejected { reason } => r matches AttachDisplay::Fail(m) && m@ == reason@,
            _ => r is Nothing,
        },
{
    match response {
        TmuxIpcResponse::Attached { replay } => if display_output {
            AttachDisplay::Write { bytes: replay, refresh_status: true }
        } else {
            AttachDisplay::Nothing
        },
        TmuxIpcResponse::Output { bytes } => if display_output {
            let refresh = bytes.len() >= 2 && bytes[0] == 27u8 && bytes[1] == 99u8;
            AttachDisplay::Write { bytes, refresh_status: refresh }
        } else {
            AttachDisplay::Nothing
        },
        TmuxIpcResponse::Resize { .. } => if display_output {
            AttachDisplay::RefreshStatus
        } else {
            AttachDisplay::Nothing
        },
        TmuxIpcResponse::Detached | TmuxIpcResponse::Exit { .. } => AttachDisplay::End,
        TmuxIpcResponse::Rejected { reason } => AttachDisplay::Fail(reason),
        _ => AttachDisplay::Nothing,
    }
}

/// The id of an attached client: the process id and a clock reading, in
/// hex, `<pid>-<entropy>`.
pub fn attach_client_id(pid: u32, entropy: u128) -> (r: String)
    ensures
        r@ == hex(pid as nat) + seq!['-'] + hex(entropy as nat),
{
    let mut s = String::new();
    push_hex(&mut s, pid as u64);
    push_char(&mut s, '-');
    push_hex_wide(&mut s, entropy);
    proof {
        assert(s@ =~= hex(pid as nat) + seq!['-'] + hex(entropy as nat));
    }
    s
}

} // verus!
