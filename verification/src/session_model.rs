//! Values exchanged between the session server, its windows and its clients.
use vstd::prelude::*;

use crate::pane_layout::PaneDirection;

verus! {

/// What the session sends to attached clients.
#[derive(Clone, Debug, PartialEq, Eq)]
pub enum TmuxSessionEvent {
    Output(Vec<u8>),
    Resize { cols: u16, rows: u16 },
    Detach,
    Exit(i32),
}

/// What the request handlers ask the server's control loop to do.
#[allow(inconsistent_fields)]
#[derive(Clone, Debug, PartialEq, Eq)]
pub enum TmuxControlEvent {
    Input(Vec<u8>),
    Resize { cols: u16, rows: u16 },
    NewWindow { index: u32, name: String, command: Option<String> },
    RenameWindow { index: u32, name: String },
    KillWindow { index: u32 },
    SelectWindow { index: u32 },
    SplitPane { window: u32, horizontal: bool, command: Option<String> },
    SelectPane { window: u32, pane: u32 },
    SwapPane { window: u32, source: u32, target: u32 },
    KillPane { window: u32, pane: u32 },
    TogglePaneZoom { window: u32, pane: u32 },
    SetSynchronizePanes { window: u32, enabled: bool },
    SelectPaneDirection { window: u32, direction: PaneDirection },
    ResizePane { window: u32, pane: u32, cols: Option<u16>, rows: Option<u16> },
    Terminate,
}

/// A summary of the session for `Info` replies.
#[derive(Clone, Debug, PartialEq, Eq)]
pub struct TmuxSessionStatus {
    pub replay_bytes: usize,
    pub attached_clients: u32,
    pub windows: u32,
    pub active_window: u32,
    pub window_indexes: Vec<u32>,
    pub window_names: Vec<String>,
    pub cols: Option<u16>,
    pub rows: Option<u16>,
}

/// The panes of one window.
#[derive(Clone, Debug, PartialEq, Eq)]
pub struct TmuxPaneStatus {
    pub window_index: u32,
    pub window_name: String,
    pub active_pane: u32,
    pub pane_indexes: Vec<u32>,
}

/// A session event as plain values.
pub enum EventView {
    Output(Seq<u8>),
    Resize { cols: u16, rows: u16 },
    Detach,
    Exit(i32),
}

pub open spec fn event_view(e: TmuxSessionEvent) -> EventView {
    match e {
        TmuxSessionEvent::Output(b) => EventView::Output(b@),
        TmuxSessionEvent::Resize { cols, rows } => EventView::Resize { cols, rows },
        TmuxSessionEvent::Detach => EventView::Detach,
        TmuxSessionEvent::Exit(code) => EventView::Exit(code),
    }
}

/// A copy of `e` for one more recipient.
pub fn copy_event(e: &TmuxSessionEvent) -> (r: TmuxSessionEvent)
    ensures
        event_view(r) == event_view(*e),
{
    match e {
        TmuxSessionEvent::Output(b) => {
            let mut c: Vec<u8> = Vec::new();
            let mut i: usize = 0;
            while i < b.len()
                invariant
                    i <= b@.len(),
                    c@ == b@.take(i as int),
                decreases b@.len() - i,
            {
                c.push(b[i]);
                assert(b@.take(i as int).push(b@[i as int]) =~= b@.take(i + 1));
                i += 1;
            }
            assert(b@.take(b@.len() as int) =~= b@);
            TmuxSessionEvent::Output(c)
        },
        TmuxSessionEvent::Resize { cols, rows } => TmuxSessionEvent::Resize { cols: *cols, rows: *rows },
        TmuxSessionEvent::Detach => TmuxSessionEvent::Detach,
        TmuxSessionEvent::Exit(code) => TmuxSessionEvent::Exit(*code),
    }
}

} // verus!
