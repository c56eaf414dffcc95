//! The local-socket protocol between tmux clients and a session server:
//! endpoint names, requests and responses.
use vstd::prelude::*;

use std::collections::hash_map::DefaultHasher;
use std::hash::Hasher;
use vstd::std_specs::hash::DefaultHasherAdditionalSpecFns;
use vstd::string::StringSliceAdditionalSpecFns;
use crate::pane_layout::PaneDirection;
use crate::text::{chars_of, hex, hex_fixed, owned, push_char, push_decimal, push_hex, push_hex_fixed, push_hex_wide, push_str, string_of};

verus! {

/// The start of every endpoint name.
pub open spec fn ipc_prefix() -> Seq<char> {
    "terman-tmux"@
}

/// Characters kept as they are in an endpoint name.
pub open spec fn is_name_char(c: char) -> bool {
    ('a' <= c && c <= 'z') || ('A' <= c && c <= 'Z') || ('0' <= c && c <= '9') || c == '-' || c
        == '_' || c == '.'
}

/// `value` with every other character replaced by `_`; `session` when empty.
pub open spec fn sanitize_spec(value: Seq<char>) -> Seq<char> {
    if value.len() == 0 {
        "session"@
    } else {
        value.map_values(|c: char| if is_name_char(c) { c } else { '_' })
    }
}

/// The hash of a session name, as `DefaultHasher` gives it for a `str`:
/// its UTF-8 bytes followed by the byte 0xff.
pub open spec fn session_name_hash(name: Seq<char>) -> u64 {
    DefaultHasher::spec_finish(seq![vstd::utf8::encode_utf8(name), seq![255u8]])
}

/// The endpoint name a session gets from its name alone.
pub open spec fn session_endpoint_name(name: Seq<char>) -> Seq<char> {
    ipc_prefix() + "-"@ + sanitize_spec(name) + "-"@ + hex_fixed(session_name_hash(name) as nat, 16)
}

/// The name of the socket of a session server.
#[derive(Clone, Debug, PartialEq, Eq)]
pub struct TmuxIpcEndpoint {
    pub raw_name: String,
}

/// `value` made fit for an endpoint name.
pub fn sanitize_ipc_component(value: &str) -> (r: String)
    ensures
        r@ == sanitize_spec(value@),
{
    let cs = chars_of(value);
    if cs.len() == 0 {
        return owned("session");
    }
    let mut out = String::new();
    let mut i: usize = 0;
    while i < cs.len()
        invariant
            i <= cs@.len(),
            cs@ == value@,
            out@ == cs@.take(i as int).map_values(|c: char| if is_name_char(c) { c } else { '_' }),
        decreases cs@.len() - i,
    {
        let c = cs[i];
        let keep = ('a' <= c && c <= 'z') || ('A' <= c && c <= 'Z') || ('0' <= c && c <= '9') || c
            == '-' || c == '_' || c == '.';
        push_char(&mut out, if keep { c } else { '_' });
        assert(cs@.take(i + 1).map_values(|c: char| if is_name_char(c) { c } else { '_' }) =~= cs@.take(
            i as int,
        ).map_values(|c: char| if is_name_char(c) { c } else { '_' }).push(if keep { c } else { '_' }));
        i += 1;
    }
    assert(cs@.take(cs@.len() as int) =~= cs@);
    out
}

/// The hash of a session name.
pub fn hash_session_name(name: &str) -> (r: u64)
    ensures
        r == session_name_hash(name@),
{
    let mut hasher = DefaultHasher::new();
    hasher.write(name.as_bytes());
    let end: [u8; 1] = [255u8];
    hasher.write(&end);
    assert(end@ =~= seq![255u8]);
    assert(hasher@ =~= seq![vstd::utf8::encode_utf8(name@), seq![255u8]]);
    hasher.finish()
}

impl TmuxIpcEndpoint {
    /// An endpoint with exactly this name.
    pub fn from_raw_name(raw_name: &str) -> (r: TmuxIpcEndpoint)
        ensures
            r.raw_name@ == raw_name@,
    {
        TmuxIpcEndpoint { raw_name: owned(raw_name) }
    }

    /// The endpoint of a session, the same on every call:
    /// `terman-tmux-<sanitized name>-<hash as 16 hex digits>`.
    pub fn for_session(session_name: &str) -> (r: TmuxIpcEndpoint)
        ensures
            r.raw_name@ == session_endpoint_name(session_name@),
    {
        let suffix = hash_session_name(session_name);
        let sanitized = sanitize_ipc_component(session_name);
        let mut raw = owned("terman-tmux-");
        push_str(&mut raw, sanitized.as_str());
        push_char(&mut raw, '-');
        push_hex_fixed(&mut raw, suffix, 16);
        proof {
            assert("terman-tmux-"@ =~= ipc_prefix() + "-"@) by {
                reveal_strlit("terman-tmux-");
                reveal_strlit("terman-tmux");
                reveal_strlit("-");
            }
            assert(seq!['-'] =~= "-"@) by {
                reveal_strlit("-");
            }
        }
        TmuxIpcEndpoint { raw_name: raw }
    }

    /// A fresh endpoint for a new session, made unique by the process id
    /// `pid` and the clock reading `entropy`:
    /// `terman-tmux-<sanitized name>-<pid in hex>-<entropy in hex>`.
    pub fn for_new_session(session_name: &str, pid: u32, entropy: u128) -> (r: TmuxIpcEndpoint)
        ensures
            r.raw_name@ == ipc_prefix() + "-"@ + sanitize_spec(session_name@) + "-"@ + hex(pid as nat)
                + "-"@ + hex(entropy as nat),
    {
        let sanitized = sanitize_ipc_component(session_name);
        let mut raw = owned("terman-tmux-");
        push_str(&mut raw, sanitized.as_str());
        push_char(&mut raw, '-');
        push_hex(&mut raw, pid as u64);
        push_char(&mut raw, '-');
        push_hex_wide(&mut raw, entropy);
        proof {
            assert("terman-tmux-"@ =~= ipc_prefix() + "-"@) by {
                reveal_strlit("terman-tmux-");
                reveal_strlit("terman-tmux");
                reveal_strlit("-");
            }
            assert(seq!['-'] =~= "-"@) by {
                reveal_strlit("-");
            }
        }
        TmuxIpcEndpoint { raw_name: raw }
    }

    /// The endpoint's name.
    pub fn raw_name(&self) -> (r: &str)
        ensures
            r@ == self.raw_name@,
    {
        self.raw_name.as_str()
    }
}

/// The endpoint of a session: the one it recorded, or else the one its
/// name gives.
pub fn session_endpoint(session_name: &str, recorded: Option<&str>) -> (r: TmuxIpcEndpoint)
    ensures
        match recorded {
            Some(raw) => r.raw_name@ == raw@,
            None => r.raw_name@ == session_endpoint_name(session_name@),
        },
{
    match recorded {
        Some(raw) => TmuxIpcEndpoint::from_raw_name(raw),
        None => TmuxIpcEndpoint::for_session(session_name),
    }
}

/// A paste buffer: its name and contents.
#[derive(Clone, Debug, PartialEq, Eq)]
pub struct TmuxBufferInfo {
    pub name: String,
    pub bytes: Vec<u8>,
}

/// What a client asks a session server.
#[allow(inconsistent_fields)]
#[derive(Clone, Debug, PartialEq, Eq)]
pub enum TmuxIpcRequest {
    Attach { client_id: Option<String> },
    Detach,
    DetachClient { client_id: String },
    DetachAll,
    CapturePane { window: Option<u32>, pane: Option<u32> },
    ClearHistory { window: Option<u32>, pane: Option<u32> },
    DeleteBuffer { name: Option<String> },
    GetBuffer { name: Option<String> },
    ListBuffers,
    PasteBuffer { name: Option<String> },
    SetBuffer { name: Option<String>, bytes: Vec<u8> },
    RefreshClient,
    DisplayMessage { message: String },
    Info,
    Input { bytes: Vec<u8> },
    Ping,
    Quit,
    RenameSession { name: String },
    RenameWindow { index: u32, name: String },
    UpdateWindows { windows: u32 },
    NewWindow { index: u32, name: String, command: Option<String> },
    KillWindow { index: u32 },
    SelectWindow { index: u32 },
    LastWindow,
    PaneInfo { window: Option<u32> },
    SplitPane { window: Option<u32>, horizontal: bool, command: Option<String> },
    SelectPane { window: Option<u32>, pane: Option<u32> },
    SelectPaneDirection { window: Option<u32>, direction: PaneDirection },
    SwapPane { window: Option<u32>, source: Option<u32>, target: Option<u32>, forward: bool },
    KillPane { window: Option<u32>, pane: Option<u32> },
    TogglePaneZoom { window: Option<u32>, pane: Option<u32> },
    SetSynchronizePanes { window: Option<u32>, enabled: bool },
    ResizePane { window: Option<u32>, pane: Option<u32>, cols: Option<u16>, rows: Option<u16> },
    Resize { cols: u16, rows: u16 },
}

/// What a session server answers.
#[allow(inconsistent_fields)]
#[derive(Clone, Debug, PartialEq, Eq)]
pub enum TmuxIpcResponse {
    Accepted,
    Attached { replay: Vec<u8> },
    Detached,
    Captured { bytes: Vec<u8> },
    Info {
        session_name: String,
        windows: u32,
        attached_clients: u32,
        active_window: u32,
        window_indexes: Vec<u32>,
        window_names: Vec<String>,
        cwd: String,
    },
    Output { bytes: Vec<u8> },
    Rejected { reason: String },
    Resize { cols: u16, rows: u16 },
    Exit { code: i32 },
    Panes { window_index: u32, window_name: String, active_pane: u32, pane_indexes: Vec<u32> },
    Buffer { name: String, bytes: Vec<u8> },
    Buffers { buffers: Vec<TmuxBufferInfo> },
}

} // verus!
