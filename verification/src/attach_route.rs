//! Where an attached client's terminal events go: to copy mode while it is
//! open, else to the command prompt while it is open, else to the keyboard
//! state; and when copy mode opens and closes. While copy mode is open
//! the session's output is not shown.
use vstd::prelude::*;

use crate::attach_input::AttachInputResult;
use crate::copy_mode::TmuxCopyResult;

verus! {

/// The handler of a key.
#[derive(Clone, Copy, Debug, PartialEq, Eq, Structural)]
pub enum KeyTarget {
    CopyMode,
    CommandPrompt,
    Keyboard,
}

/// The handler of a mouse event.
#[derive(Clone, Copy, Debug, PartialEq, Eq, Structural)]
pub enum MouseTarget {
    CopyMode,
    /// A prompt or question waits for keys: the event is dropped.
    Ignore,
    Status,
}

/// Whether copy mode is open.
pub struct AttachRouter {
    pub copy_open: bool,
}

impl AttachRouter {
    /// Copy mode closed.
    pub fn new() -> (r: AttachRouter)
        ensures
            !r.copy_open,
    {
        AttachRouter { copy_open: false }
    }

    /// Who handles a key.
    pub fn key_target(&self, prompt_active: bool) -> (r: KeyTarget)
        ensures
            r == if self.copy_open {
                KeyTarget::CopyMode
            } else if prompt_active {
                KeyTarget::CommandPrompt
            } else {
                KeyTarget::Keyboard
            },
    {
        if self.copy_open {
            KeyTarget::CopyMode
        } else if prompt_active {
            KeyTarget::CommandPrompt
        } else {
            KeyTarget::Keyboard
        }
    }

    /// Who handles a mouse event; `blocks_mouse` as the keyboard state
    /// says.
    pub fn mouse_target(&self, blocks_mouse: bool) -> (r: MouseTarget)
        ensures
            r == if self.copy_open {
                MouseTarget::CopyMode
            } else if blocks_mouse {
                MouseTarget::Ignore
            } else {
                MouseTarget::Status
            },
    {
        if self.copy_open {
            MouseTarget::CopyMode
        } else if blocks_mouse {
            MouseTarget::Ignore
        } else {
            MouseTarget::Status
        }
    }

    /// Whether the session's output is shown.
    pub fn shows_output(&self) -> (r: bool)
        ensures
            r == !self.copy_open,
    {
        !self.copy_open
    }

    /// After a key of the keyboard state: copy mode opens when it asks
    /// for it.
    pub fn after_keyboard(&mut self, result: AttachInputResult)
        ensures
            final(self).copy_open == (old(self).copy_open || result == AttachInputResult::EnterCopyMode),
    {
        if result == AttachInputResult::EnterCopyMode {
            self.copy_open = true;
        }
    }

    /// After a key in copy mode: it stays open unless the key cancelled
    /// or copied.
    pub fn after_copy_key(&mut self, result: &TmuxCopyResult)
        ensures
            final(self).copy_open == (old(self).copy_open && result is Continue),
    {
        match result {
            TmuxCopyResult::Continue => {},
            _ => self.copy_open = false,
        }
    }

    /// Copy mode could not be opened.
    pub fn copy_failed(&mut self)
        ensures
            !final(self).copy_open,
    {
        self.copy_open = false;
    }
}

} // verus!
