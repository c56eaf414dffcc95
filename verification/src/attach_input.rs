//! What each key of an attached client does: sent to the session, or a
//! tmux command after the prefix key, or input to a prompt.
use vstd::prelude::*;

use crate::attach_keys::{
    is_detach_key, is_detach_spec, is_key_press, is_prefix_spec, is_press, is_tmux_prefix_key,
    key_event_bytes, key_event_spec, prefix_command_spec, tmux_prefix_bytes, tmux_prefix_command,
    KeyCode, KeyInput, TmuxPrefixCommand,
};
use crate::attach_rename::{handle_rename_input, rename_prompt, rename_prompt_spec, RenameStep, RenameTarget};
use crate::attach_status::{attach_help, kill_pane_confirm_status, kill_window_confirm_status, prefix_status_hint};
use crate::attach_window::{active_changing_command, active_changing_spec};

verus! {

/// What a kill confirmation is about.
#[derive(Clone, Copy, Debug, PartialEq, Eq, Structural)]
pub enum KillTarget {
    Pane,
    Window,
}

/// How the client goes on after a key.
#[derive(Clone, Copy, Debug, PartialEq, Eq, Structural)]
pub enum AttachInputResult {
    Continue,
    Stop,
    EnterCopyMode,
}

/// What the client does for a key.
pub enum AttachStep {
    /// Nothing.
    Ignore,
    /// Send these bytes to the session.
    SendInput(Vec<u8>),
    /// The rename prompt took the key.
    Rename(RenameStep, RenameTarget),
    /// `y` to a kill question: close the pane or window, then show the
    /// current status.
    KillConfirmed(KillTarget),
    /// `n` or Esc to a kill question: show the current status.
    KillCancelled,
    /// Another key while a kill question waits: nothing.
    KillWaiting,
    /// The prefix key: show this status and wait for the command key.
    PrefixArmed(String),
    /// `d` after the prefix: detach this client and stop.
    Detach,
    /// `[` after the prefix: enter copy mode.
    CopyMode,
    /// `]` after the prefix: paste the buffer, then show the current status.
    PasteBuffer,
    /// An unbound key after the prefix: send the prefix byte itself, then
    /// show the current status.
    PrefixPassthrough(Vec<u8>),
    /// A kill command: ask this question.
    ConfirmKill(String),
    /// A rename command: show this prompt.
    OpenPrompt(String),
    /// `:` after the prefix: open the command prompt.
    CommandPrompt,
    /// A pane command: carry it out, then show the current status.
    Pane(TmuxPrefixCommand),
    /// `w` after the prefix: show the window list.
    ListWindows,
    /// `?` after the prefix: show this help.
    Help(String),
    /// `l` after the prefix: select this window, then remember the window
    /// that was active before.
    LastWindow(u32),
    /// `l` with no window to go back to: show the current status.
    LastWindowUnknown,
    /// A window command; when `track_last`, first remember the active window.
    Window { command: TmuxPrefixCommand, track_last: bool },
}

/// The keyboard state of an attached client.
pub struct AttachInputMode {
    pub prefix_pending: bool,
    pub kill_pending: Option<KillTarget>,
    pub rename: Option<(RenameTarget, String)>,
    pub last_window: Option<u32>,
}

/// Commands carried out on panes.
pub open spec fn is_pane_command(command: TmuxPrefixCommand) -> bool {
    ||| command == TmuxPrefixCommand::SplitHorizontal
    ||| command == TmuxPrefixCommand::SplitVertical
    ||| command == TmuxPrefixCommand::TogglePaneZoom
    ||| command == TmuxPrefixCommand::NextPane
    ||| command is SelectPane
    ||| command is ResizePane
    ||| command == TmuxPrefixCommand::SwapPaneUp
    ||| command == TmuxPrefixCommand::SwapPaneDown
}

/// Commands that act on windows.
pub open spec fn is_window_command(command: TmuxPrefixCommand) -> bool {
    ||| command == TmuxPrefixCommand::NextWindow
    ||| command == TmuxPrefixCommand::PreviousWindow
    ||| command == TmuxPrefixCommand::CreateWindow
    ||| command is SelectWindow
}

/// What a bound key after the prefix does: the state after it and the
/// step the client carries out.
pub open spec fn prefix_outcome(
    before: AttachInputMode,
    after: AttachInputMode,
    command: TmuxPrefixCommand,
    r: AttachStep,
) -> bool {
    &&& after.last_window == before.last_window
    &&& !after.prefix_pending
    &&& command == TmuxPrefixCommand::KillPane ==> after.kill_pending == Some(KillTarget::Pane)
        && (r matches AttachStep::ConfirmKill(s) && s@ == "确认关闭当前窗格？(y/n)"@)
    &&& command == TmuxPrefixCommand::KillWindow ==> after.kill_pending == Some(KillTarget::Window)
        && (r matches AttachStep::ConfirmKill(s) && s@ == "确认关闭当前窗口？(y/n)"@)
    &&& command != TmuxPrefixCommand::KillPane && command != TmuxPrefixCommand::KillWindow
        ==> after.kill_pending is None
    &&& command == TmuxPrefixCommand::RenameWindow ==> (after.rename matches Some((t, i)) && t
        == RenameTarget::Window && i@.len() == 0) && (r matches AttachStep::OpenPrompt(s) && s@
        == rename_prompt_spec(RenameTarget::Window, Seq::empty()))
    &&& command == TmuxPrefixCommand::RenameSession ==> (after.rename matches Some((t, i)) && t
        == RenameTarget::Session && i@.len() == 0) && (r matches AttachStep::OpenPrompt(s) && s@
        == rename_prompt_spec(RenameTarget::Session, Seq::empty()))
    &&& command != TmuxPrefixCommand::RenameWindow && command != TmuxPrefixCommand::RenameSession
        ==> after.rename is None
    &&& command == TmuxPrefixCommand::CommandPrompt ==> r is CommandPrompt
    &&& is_pane_command(command) ==> (r matches AttachStep::Pane(c) && c == command)
    &&& command == TmuxPrefixCommand::ListWindows ==> r is ListWindows
    &&& command == TmuxPrefixCommand::Help ==> (r matches AttachStep::Help(s) && s@
        == crate::attach_status::attach_help_spec())
    &&& command == TmuxPrefixCommand::LastWindow ==> match before.last_window {
        Some(i) => (r matches AttachStep::LastWindow(x) && x == i),
        None => r is LastWindowUnknown,
    }
    &&& is_window_command(command) ==> (r matches AttachStep::Window { command: c, track_last } && c
        == command && track_last == active_changing_spec(command))
}

impl AttachInputMode {
    pub fn new() -> (r: AttachInputMode)
        ensures
            !r.prefix_pending,
            r.kill_pending is None,
            r.rename is None,
            r.last_window is None,
    {
        AttachInputMode { prefix_pending: false, kill_pending: None, rename: None, last_window: None }
    }

    /// Remembers `index` as the window to go back to.
    pub fn remember_window(&mut self, index: u32)
        ensures
            final(self).last_window == Some(index),
            final(self).prefix_pending == old(self).prefix_pending,
            final(self).kill_pending == old(self).kill_pending,
            final(self).rename == old(self).rename,
    {
        self.last_window = Some(index);
    }

    /// Whether mouse events wait for a prompt or question to end.
    pub fn blocks_mouse(&self) -> (r: bool)
        ensures
            r == (self.rename is Some || self.kill_pending is Some),
    {
        self.rename.is_some() || self.kill_pending.is_some()
    }

    /// The status line the keyboard state wants shown, if any.
    pub fn status_override(&self) -> (r: Option<String>)
        ensures
            match self.rename {
                Some((t, i)) => r matches Some(s) && s@ == rename_prompt_spec(t, i@),
                None => match self.kill_pending {
                    Some(KillTarget::Pane) => r matches Some(s) && s@ == "确认关闭当前窗格？(y/n)"@,
                    Some(KillTarget::Window) => r matches Some(s) && s@ == "确认关闭当前窗口？(y/n)"@,
                    None => r is None,
                },
            },
    {
        match &self.rename {
            Some((t, i)) => Some(rename_prompt(*t, i.as_str())),
            None => match self.kill_pending {
                Some(KillTarget::Pane) => Some(kill_pane_confirm_status()),
                Some(KillTarget::Window) => Some(kill_window_confirm_status()),
                None => None,
            },
        }
    }

    /// A key after the prefix.
    fn handle_prefix_command(&mut self, command: TmuxPrefixCommand) -> (r: AttachStep)
        requires
            command != TmuxPrefixCommand::CopyMode,
            command != TmuxPrefixCommand::PasteBuffer,
            old(self).rename is None,
            old(self).kill_pending is None,
            !old(self).prefix_pending,
        ensures
            prefix_outcome(*old(self), *final(self), command, r),
    {
        match command {
            TmuxPrefixCommand::KillPane => {
                self.kill_pending = Some(KillTarget::Pane);
                AttachStep::ConfirmKill(kill_pane_confirm_status())
            },
            TmuxPrefixCommand::KillWindow => {
                self.kill_pending = Some(KillTarget::Window);
                AttachStep::ConfirmKill(kill_window_confirm_status())
            },
            TmuxPrefixCommand::RenameWindow => {
                let empty = String::new();
                let p = rename_prompt(RenameTarget::Window, empty.as_str());
                self.rename = Some((RenameTarget::Window, empty));
                AttachStep::OpenPrompt(p)
            },
            TmuxPrefixCommand::RenameSession => {
                let empty = String::new();
                let p = rename_prompt(RenameTarget::Session, empty.as_str());
                self.rename = Some((RenameTarget::Session, empty));
                AttachStep::OpenPrompt(p)
            },
            TmuxPrefixCommand::CommandPrompt => AttachStep::CommandPrompt,
            TmuxPrefixCommand::SplitHorizontal | TmuxPrefixCommand::SplitVertical
            | TmuxPrefixCommand::TogglePaneZoom | TmuxPrefixCommand::NextPane
            | TmuxPrefixCommand::SelectPane(_) | TmuxPrefixCommand::ResizePane(_)
            | TmuxPrefixCommand::SwapPaneUp | TmuxPrefixCommand::SwapPaneDown => AttachStep::Pane(command),
            TmuxPrefixCommand::ListWindows => AttachStep::ListWindows,
            TmuxPrefixCommand::Help => AttachStep::Help(attach_help()),
            TmuxPrefixCommand::LastWindow => match self.last_window {
                Some(i) => AttachStep::LastWindow(i),
                None => AttachStep::LastWindowUnknown,
            },
            TmuxPrefixCommand::CopyMode | TmuxPrefixCommand::PasteBuffer => AttachStep::Ignore,
            _ => AttachStep::Window { command, track_last: active_changing_command(command) },
        }
    }

    /// Handles one key.
    pub fn handle_key(&mut self, key: &KeyInput) -> (r: AttachStep)
        ensures
            final(self).last_window == old(self).last_window,
            !is_press(*key) ==> r is Ignore && *final(self) == *old(self),
            is_press(*key) && old(self).rename is Some ==> r is Rename && final(self).kill_pending
                == old(self).kill_pending && final(self).prefix_pending == old(self).prefix_pending && ((
            key.code == KeyCode::Enter || key.code == KeyCode::Esc) <==> final(self).rename is None),
            is_press(*key) && old(self).rename is None && old(self).kill_pending is Some ==> {
                let t = old(self).kill_pending.unwrap();
                if key.code == KeyCode::Char('y') || key.code == KeyCode::Char('Y') {
                    r matches AttachStep::KillConfirmed(x) && x == t && final(self).kill_pending is None
                } else if key.code == KeyCode::Char('n') || key.code == KeyCode::Char('N') || key.code
                    == KeyCode::Esc {
                    r is KillCancelled && final(self).kill_pending is None
                } else {
                    r is KillWaiting && final(self).kill_pending == old(self).kill_pending
                }
            },
            is_press(*key) && old(self).rename is None && old(self).kill_pending is None
                && old(self).prefix_pending ==> !final(self).prefix_pending && (if is_detach_spec(*key) {
                r is Detach
            } else {
                match prefix_command_spec(*key) {
                    Some(TmuxPrefixCommand::CopyMode) => r is CopyMode,
                    Some(TmuxPrefixCommand::PasteBuffer) => r is PasteBuffer,
                    Some(c) => prefix_outcome(*old(self), *final(self), c, r),
                    None => r matches AttachStep::PrefixPassthrough(b) && b@ == seq![2u8],
                }
            }),
            is_press(*key) && old(self).rename is None && old(self).kill_pending is None
                && !old(self).prefix_pending ==> if is_prefix_spec(*key) {
                final(self).prefix_pending && r is PrefixArmed
            } else {
                *final(self) == *old(self) && match key_event_spec(*key) {
                    Some(b) => r matches AttachStep::SendInput(v) && v@ == b,
                    None => r is Ignore,
                }
            },
    {
        if !is_key_press(key) {
            return AttachStep::Ignore;
        }
        match self.rename.take() {
            Some((target, mut input)) => {
                let step = handle_rename_input(key, target, &mut input);
                let closes = match key.code {
                    KeyCode::Enter | KeyCode::Esc => true,
                    _ => false,
                };
                if !closes {
                    self.rename = Some((target, input));
                }
                return AttachStep::Rename(step, target);
            },
            None => {},
        }
        match self.kill_pending {
            Some(t) => {
                return match key.code {
                    KeyCode::Char('y') | KeyCode::Char('Y') => {
                        self.kill_pending = None;
                        AttachStep::KillConfirmed(t)
                    },
                    KeyCode::Char('n') | KeyCode::Char('N') | KeyCode::Esc => {
                        self.kill_pending = None;
                        AttachStep::KillCancelled
                    },
                    _ => AttachStep::KillWaiting,
                };
            },
            None => {},
        }
        if self.prefix_pending {
            self.prefix_pending = false;
            if is_detach_key(key) {
                return AttachStep::Detach;
            }
            return match tmux_prefix_command(key) {
                Some(TmuxPrefixCommand::CopyMode) => AttachStep::CopyMode,
                Some(TmuxPrefixCommand::PasteBuffer) => AttachStep::PasteBuffer,
                Some(command) => self.handle_prefix_command(command),
                None => AttachStep::PrefixPassthrough(tmux_prefix_bytes()),
            };
        }
        if is_tmux_prefix_key(key) {
            self.prefix_pending = true;
            return AttachStep::PrefixArmed(prefix_status_hint());
        }
        match key_event_bytes(key) {
            Some(bytes) => AttachStep::SendInput(bytes),
            None => AttachStep::Ignore,
        }
    }
}

/// How the client goes on after a step.
pub fn step_result(step: &AttachStep) -> (r: AttachInputResult)
    ensures
        r == match step {
            AttachStep::Detach => AttachInputResult::Stop,
            AttachStep::CopyMode => AttachInputResult::EnterCopyMode,
            _ => AttachInputResult::Continue,
        },
{
    match step {
        AttachStep::Detach => AttachInputResult::Stop,
        AttachStep::CopyMode => AttachInputResult::EnterCopyMode,
        _ => AttachInputResult::Continue,
    }
}

} // verus!
