//! Repeating a pane resize: after `prefix Ctrl+arrow`, further
//! `Ctrl+arrow` keys resize again without the prefix for a short while.
//!
//! Time is read by the caller and handed in as milliseconds on one
//! monotonic clock.
use vstd::prelude::*;

use crate::attach_keys::{prefix_command_spec, tmux_prefix_command, KeyInput, TmuxPrefixCommand};

verus! {

/// How long, in milliseconds, a resize stays repeatable.
pub const REPEAT_TIME_MS: u64 = 500;

/// The moment until which a resize key is accepted without the prefix.
#[derive(Clone, Copy, Debug)]
pub struct PaneResizeRepeat {
    pub deadline: Option<u64>,
}

/// The deadline set at `now`.
pub open spec fn deadline_after(now: u64) -> u64 {
    if now + REPEAT_TIME_MS > u64::MAX {
        u64::MAX
    } else {
        (now + REPEAT_TIME_MS) as u64
    }
}

/// Whether a deadline is still running at `now`.
pub open spec fn armed_at(deadline: Option<u64>, now: u64) -> bool {
    match deadline {
        Some(d) => now <= d,
        None => false,
    }
}

/// The command a key repeats at `now`: a resize, while armed.
pub open spec fn repeated_command(deadline: Option<u64>, key: KeyInput, now: u64) -> Option<TmuxPrefixCommand> {
    if armed_at(deadline, now) {
        match prefix_command_spec(key) {
            Some(TmuxPrefixCommand::ResizePane(d)) => Some(TmuxPrefixCommand::ResizePane(d)),
            _ => None,
        }
    } else {
        None
    }
}

impl PaneResizeRepeat {
    /// Not armed.
    pub fn new() -> (r: PaneResizeRepeat)
        ensures
            r.deadline is None,
    {
        PaneResizeRepeat { deadline: None }
    }

    /// Accept resize keys until `REPEAT_TIME_MS` after `now`.
    pub fn arm(&mut self, now: u64)
        ensures
            final(self).deadline == Some(deadline_after(now)),
    {
        self.deadline = Some(now.saturating_add(REPEAT_TIME_MS));
    }

    /// The resize that `key` repeats at `now`, if the repeat is still
    /// armed; a repeated resize arms it again, anything else disarms it.
    pub fn take_command(&mut self, key: &KeyInput, now: u64) -> (r: Option<TmuxPrefixCommand>)
        ensures
            r == repeated_command(old(self).deadline, *key, now),
            final(self).deadline == (if r is Some {
                Some(deadline_after(now))
            } else {
                None::<u64>
            }),
    {
        let active = match self.deadline {
            Some(d) => now <= d,
            None => false,
        };
        self.deadline = None;
        if !active {
            return None;
        }
        match tmux_prefix_command(key) {
            Some(TmuxPrefixCommand::ResizePane(d)) => {
                self.arm(now);
                Some(TmuxPrefixCommand::ResizePane(d))
            },
            _ => None,
        }
    }
}

} // verus!
