//! The session server: its configuration and the decisions of its control
//! loop.
use vstd::prelude::*;

use crate::cli::TmuxArgs;
use crate::error::{TmuxError, TmuxErrorKind};
use crate::ipc::{session_endpoint_name, TmuxIpcEndpoint};
use crate::messages::internal_server_session_required_hint;
use crate::session_core::{bus_selected, delivered, subs, TmuxSessionBus};
use crate::session_state::{window_removed, TmuxSessionState};
use crate::session_state::window_indexes;
use crate::session_model::{EventView, TmuxControlEvent};
use crate::pane_layout::PaneDirection;
use crate::text::{join_strings, join_with, views};

verus! {

/// How a session server runs.
pub struct TmuxServerConfig {
    pub session_name: String,
    pub endpoint: TmuxIpcEndpoint,
    pub cwd: String,
    pub command: Option<String>,
    pub windows: u32,
    pub cols: u16,
    pub rows: u16,
    pub login_shell: bool,
}

/// The command words joined by spaces, or `None` when there are none.
pub fn command_from_args(args: Vec<String>) -> (r: Option<String>)
    ensures
        match r {
            Some(c) => args@.len() > 0 && c@ == join_with(views(args@), " "@),
            None => args@.len() == 0,
        },
{
    if args.len() == 0 {
        None
    } else {
        Some(join_strings(&args, " "))
    }
}

impl TmuxServerConfig {
    /// The configuration given by the hidden server options, in the
    /// directory `cwd`: one window of 120 x 32 running the given command.
    pub fn from_args(args: TmuxArgs, cwd: String) -> (r: Result<TmuxServerConfig, TmuxError>)
        ensures
            match args.internal_session_name {
                None => r matches Err(e) && e.kind == TmuxErrorKind::InvalidInput && e.message@
                    == "会话服务需要 --__session-name 指定会话名。"@,
                Some(name) => r matches Ok(c) && c.session_name@ == name@ && c.endpoint.raw_name@
                    == match args.internal_endpoint_name {
                    Some(raw) => raw@,
                    None => session_endpoint_name(name@),
                } && c.cwd@ == cwd@ && c.windows == 1 && c.cols == 120 && c.rows == 32 && !c.login_shell
                    && match c.command {
                    Some(cmd) => args.args@.len() > 0 && cmd@ == join_with(views(args.args@), " "@),
                    None => args.args@.len() == 0,
                },
            },
    {
        let session_name = match args.internal_session_name {
            Some(n) => n,
            None => {
                return Err(TmuxError::new(TmuxErrorKind::InvalidInput, internal_server_session_required_hint()))
            },
        };
        let endpoint = match &args.internal_endpoint_name {
            Some(raw) => TmuxIpcEndpoint::from_raw_name(raw.as_str()),
            None => TmuxIpcEndpoint::for_session(session_name.as_str()),
        };
        Ok(TmuxServerConfig {
            session_name,
            endpoint,
            cwd,
            command: command_from_args(args.args),
            windows: 1,
            cols: 120,
            rows: 32,
            login_shell: false,
        })
    }
}

/// The state of the server's control loop.
pub struct ServerLoop {
    pub active_window: u32,
    pub cols: u16,
    pub rows: u16,
    pub terminate_requested: bool,
}

/// What the control loop does with the window runtimes for one event.
pub enum ControlAction {
    /// Nothing.
    Nothing,
    /// The session ends with this code.
    Exit(i32),
    /// Write input to the window's shell.
    WriteInput { window: u32, bytes: Vec<u8> },
    /// Resize every window and tell the clients.
    ResizeAll { cols: u16, rows: u16 },
    /// Start a window, then call `select_new_window`.
    Spawn { index: u32, name: String, command: Option<String>, cols: u16, rows: u16 },
    /// The window runs already: call `select_new_window`.
    SelectNew { index: u32 },
    Rename { index: u32, name: String },
    Kill { index: u32 },
    Split { window: u32, horizontal: bool, command: Option<String> },
    /// Select the pane; when it was selected, call `pane_selected`.
    SelectPane { window: u32, pane: u32 },
    SelectPaneDirection { window: u32, direction: PaneDirection },
    SwapPanes { window: u32, source: u32, target: u32 },
    KillPane { window: u32, pane: u32 },
    ToggleZoom { window: u32, pane: u32 },
    SetSynchronize { window: u32, enabled: bool },
    ResizePane { window: u32, pane: u32, cols: Option<u16>, rows: Option<u16> },
    /// Kill every window: the session is ending.
    KillAll,
}

fn running_contains(running: &[u32], index: u32) -> (r: bool)
    ensures
        r == running@.contains(index),
{
    let mut k: usize = 0;
    while k < running.len()
        invariant
            k <= running@.len(),
            forall|j: int| 0 <= j < k ==> running@[j] != index,
        decreases running@.len() - k,
    {
        if running[k] == index {
            assert(running@[k as int] == index);
            return true;
        }
        k += 1;
    }
    false
}

impl ServerLoop {
    /// A loop whose first window, 0, is active, in a 120 x 32 terminal.
    pub fn new() -> (r: ServerLoop)
        ensures
            r.active_window == 0,
            r.cols == 120,
            r.rows == 32,
            !r.terminate_requested,
    {
        ServerLoop { active_window: 0, cols: 120, rows: 32, terminate_requested: false }
    }

    /// The action for one control event; `running` lists the windows whose
    /// runtimes are alive. Events about windows that do not run do nothing.
    pub fn control_action(&mut self, running: &[u32], event: TmuxControlEvent) -> (r: ControlAction)
        ensures
            match event {
                TmuxControlEvent::Input(bytes) => if running@.contains(old(self).active_window) {
                    r matches ControlAction::WriteInput { window, bytes: b } && window == old(self).active_window
                        && b == bytes
                } else {
                    r matches ControlAction::Exit(code) && code == -1
                },
                TmuxControlEvent::Resize { cols, rows } => (r matches ControlAction::ResizeAll { cols: c, rows: w }
                    && c == cols && w == rows) && final(self).cols == cols && final(self).rows == rows,
                TmuxControlEvent::NewWindow { index, name, command } => if running@.contains(index) {
                    r matches ControlAction::SelectNew { index: i } && i == index
                } else {
                    r matches ControlAction::Spawn { index: i, name: n, command: c, cols, rows } && i == index
                        && n == name && c == command && cols == old(self).cols && rows == old(self).rows
                },
                TmuxControlEvent::SelectWindow { index } => r is Nothing && final(self).active_window == if running@.contains(
                    index,
                ) {
                    index
                } else {
                    old(self).active_window
                },
                TmuxControlEvent::Terminate => if old(self).terminate_requested {
                    r is Nothing
                } else {
                    r is KillAll && final(self).terminate_requested
                },
                TmuxControlEvent::KillWindow { index } => if running@.contains(index) {
                    r matches ControlAction::Kill { index: i } && i == index
                } else {
                    r is Nothing
                },
                TmuxControlEvent::RenameWindow { index, name } => if running@.contains(index) {
                    r == (ControlAction::Rename { index, name })
                } else {
                    r is Nothing
                },
                TmuxControlEvent::SplitPane { window, horizontal, command } => if running@.contains(window) {
                    r == (ControlAction::Split { window, horizontal, command })
                } else {
                    r is Nothing
                },
                TmuxControlEvent::SelectPane { window, pane } => if running@.contains(window) {
                    r == (ControlAction::SelectPane { window, pane })
                } else {
                    r is Nothing
                },
                TmuxControlEvent::SelectPaneDirection { window, direction } => if running@.contains(window) {
                    r == (ControlAction::SelectPaneDirection { window, direction })
                } else {
                    r is Nothing
                },
                TmuxControlEvent::SwapPane { window, source, target } => if running@.contains(window) {
                    r == (ControlAction::SwapPanes { window, source, target })
                } else {
                    r is Nothing
                },
                TmuxControlEvent::KillPane { window, pane } => if running@.contains(window) {
                    r == (ControlAction::KillPane { window, pane })
                } else {
                    r is Nothing
                },
                TmuxControlEvent::TogglePaneZoom { window, pane } => if running@.contains(window) {
                    r == (ControlAction::ToggleZoom { window, pane })
                } else {
                    r is Nothing
                },
                TmuxControlEvent::SetSynchronizePanes { window, enabled } => if running@.contains(window) {
                    r == (ControlAction::SetSynchronize { window, enabled })
                } else {
                    r is Nothing
                },
                TmuxControlEvent::ResizePane { window, pane, cols, rows } => if running@.contains(window) {
                    r == (ControlAction::ResizePane { window, pane, cols, rows })
                } else {
                    r is Nothing
                },
            },
            !(event is SelectWindow) ==> final(self).active_window == old(self).active_window,
            !(event is Terminate) ==> final(self).terminate_requested == old(self).terminate_requested,
            event is Terminate ==> final(self).terminate_requested,
            !(event is Resize) ==> final(self).cols == old(self).cols && final(self).rows == old(self).rows,
    {
        match event {
            TmuxControlEvent::Input(bytes) => {
                if running_contains(running, self.active_window) {
                    ControlAction::WriteInput { window: self.active_window, bytes }
                } else {
                    ControlAction::Exit(-1)
                }
            },
            TmuxControlEvent::Resize { cols, rows } => {
                self.cols = cols;
                self.rows = rows;
                ControlAction::ResizeAll { cols, rows }
            },
            TmuxControlEvent::NewWindow { index, name, command } => {
                if running_contains(running, index) {
                    ControlAction::SelectNew { index }
                } else {
                    ControlAction::Spawn { index, name, command, cols: self.cols, rows: self.rows }
                }
            },
            TmuxControlEvent::RenameWindow { index, name } => if running_contains(running, index) {
                ControlAction::Rename { index, name }
            } else {
                ControlAction::Nothing
            },
            TmuxControlEvent::KillWindow { index } => if running_contains(running, index) {
                ControlAction::Kill { index }
            } else {
                ControlAction::Nothing
            },
            TmuxControlEvent::SelectWindow { index } => {
                if running_contains(running, index) {
                    self.active_window = index;
                }
                ControlAction::Nothing
            },
            TmuxControlEvent::SplitPane { window, horizontal, command } => if running_contains(running, window) {
                ControlAction::Split { window, horizontal, command }
            } else {
                ControlAction::Nothing
            },
            TmuxControlEvent::SelectPane { window, pane } => if running_contains(running, window) {
                ControlAction::SelectPane { window, pane }
            } else {
                ControlAction::Nothing
            },
            TmuxControlEvent::SelectPaneDirection { window, direction } => if running_contains(running, window) {
                ControlAction::SelectPaneDirection { window, direction }
            } else {
                ControlAction::Nothing
            },
            TmuxControlEvent::SwapPane { window, source, target } => if running_contains(running, window) {
                ControlAction::SwapPanes { window, source, target }
            } else {
                ControlAction::Nothing
            },
            TmuxControlEvent::KillPane { window, pane } => if running_contains(running, window) {
                ControlAction::KillPane { window, pane }
            } else {
                ControlAction::Nothing
            },
            TmuxControlEvent::TogglePaneZoom { window, pane } => if running_contains(running, window) {
                ControlAction::ToggleZoom { window, pane }
            } else {
                ControlAction::Nothing
            },
            TmuxControlEvent::SetSynchronizePanes { window, enabled } => if running_contains(running, window) {
                ControlAction::SetSynchronize { window, enabled }
            } else {
                ControlAction::Nothing
            },
            TmuxControlEvent::ResizePane { window, pane, cols, rows } => if running_contains(running, window) {
                ControlAction::ResizePane { window, pane, cols, rows }
            } else {
                ControlAction::Nothing
            },
            TmuxControlEvent::Terminate => {
                if self.terminate_requested {
                    ControlAction::Nothing
                } else {
                    self.terminate_requested = true;
                    ControlAction::KillAll
                }
            },
        }
    }

    /// What the server does when the window at `position` of its running
    /// windows (`running`, by window number) exits with `code`: the window
    /// is removed from the session; the session ends with `code` when no
    /// window is left, otherwise the window now at that position (or the
    /// last one) becomes active.
    pub fn window_exited(&mut self, bus: &mut TmuxSessionBus, running: &mut Vec<u32>, position: usize, code: i32) -> (r:
        Option<i32>)
        requires
            old(bus).wf(),
            position < old(running)@.len(),
        ensures
            final(bus).wf(),
            final(running)@ == old(running)@.remove(position as int),
            final(running)@.len() == 0 ==> r == Some(code),
            final(running)@.len() > 0 ==> r is None && final(self).active_window == final(running)@[if position
                < final(running)@.len() {
                position as int
            } else {
                final(running)@.len() - 1
            }],
            final(self).cols == old(self).cols,
            final(self).rows == old(self).rows,
            final(self).terminate_requested == old(self).terminate_requested,
            exists|removed: TmuxSessionState|
                {
                    &&& #[trigger] window_removed(old(bus).state, removed, old(running)@[position as int])
                    &&& if final(running)@.len() == 0 {
                        final(bus).state == removed && subs(final(bus)) == delivered(
                            subs(old(bus)),
                            EventView::Exit(code),
                        )
                    } else {
                        bus_selected(removed, subs(old(bus)), *final(bus), final(self).active_window)
                    }
                },
    {
        let index = running.remove(position);
        bus.remove_window(index);
        let ghost removed = bus.state;
        if running.len() == 0 {
            bus.publish_exit(code);
            assert(window_removed(old(bus).state, removed, old(running)@[position as int]));
            return Some(code);
        }
        let next = if position < running.len() {
            position
        } else {
            running.len() - 1
        };
        let active = running[next];
        let _ = bus.select_window(active);
        self.active_window = active;
        assert(window_removed(old(bus).state, removed, old(running)@[position as int]));
        None
    }

    /// After a window was started (or found running): it becomes active
    /// when it runs and the session could select it.
    pub fn select_new_window(&mut self, bus: &mut TmuxSessionBus, running: &[u32], index: u32)
        requires
            old(bus).wf(),
        ensures
            final(bus).wf(),
            running@.contains(index) && old(bus).state.has_window_spec(index) ==> final(self).active_window == index,
            !(running@.contains(index) && old(bus).state.has_window_spec(index)) ==> final(self).active_window
                == old(self).active_window,
            !running@.contains(index) ==> *final(bus) == *old(bus),
            running@.contains(index) ==> bus_selected(old(bus).state, subs(old(bus)), *final(bus), index),
            final(self).cols == old(self).cols,
            final(self).rows == old(self).rows,
            final(self).terminate_requested == old(self).terminate_requested,
    {
        if running_contains(running, index) && bus.select_window(index) {
            self.active_window = index;
        }
    }

    /// After a pane of `window` was selected: that window becomes active
    /// and the session shows it, unless it already was the active one.
    pub fn pane_selected(&mut self, bus: &mut TmuxSessionBus, window: u32)
        requires
            old(bus).wf(),
        ensures
            final(bus).wf(),
            final(self).active_window == window,
            old(self).active_window == window ==> *final(bus) == *old(bus),
            old(self).active_window != window ==> bus_selected(old(bus).state, subs(old(bus)), *final(bus), window),
            final(self).cols == old(self).cols,
            final(self).rows == old(self).rows,
            final(self).terminate_requested == old(self).terminate_requested,
    {
        if self.active_window != window {
            self.active_window = window;
            let _ = bus.select_window(window);
        }
    }
}


/// What the clients are shown when a window cannot be started or split:
/// `tmux window failed: <error>` on a line of its own.
pub open spec fn window_failure_spec(error: Seq<char>) -> Seq<char> {
    "\r\ntmux window failed: "@ + error + "\r\n"@
}

pub fn window_failure_message(error: &str) -> (r: Vec<u8>)
    ensures
        r@ == vstd::utf8::encode_utf8(window_failure_spec(error@)),
{
    let mut s = crate::text::owned("\r\ntmux window failed: ");
    crate::text::push_str(&mut s, error);
    crate::text::push_str(&mut s, "\r\n");
    let mut out: Vec<u8> = Vec::new();
    crate::text::extend_bytes(&mut out, s.as_str().as_bytes());
    out
}

} // verus!
