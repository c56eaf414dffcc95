//! Window switching keys of an attached client.
use vstd::prelude::*;

use crate::attach_keys::TmuxPrefixCommand;

verus! {

/// The window after (or before) the active one, going round; counting from
/// the first window when the active one is not listed.
pub open spec fn neighbor_spec(active: u32, indexes: Seq<u32>, forward: bool) -> Option<u32> {
    if indexes.len() == 0 {
        None
    } else {
        let n = indexes.len() as int;
        let position: int = if exists|k: int| 0 <= k < n && indexes[k] == active {
            choose|k: int| 0 <= k < n && indexes[k] == active && forall|j: int| 0 <= j < k ==> indexes[j] != active
        } else {
            0
        };
        let next: int = if forward {
            if position + 1 == n { 0 } else { position + 1 }
        } else if position == 0 {
            n - 1
        } else {
            position - 1
        };
        Some(indexes[next])
    }
}

pub fn neighbor_window_index(active_window: u32, indexes: &[u32], forward: bool) -> (r: Option<u32>)
    ensures
        r == neighbor_spec(active_window, indexes@, forward),
{
    let n = indexes.len();
    if n == 0 {
        return None;
    }
    let mut k: usize = 0;
    while k < n && indexes[k] != active_window
        invariant
            k <= n,
            n == indexes@.len(),
            forall|j: int| 0 <= j < k ==> indexes@[j] != active_window,
        decreases n - k,
    {
        k += 1;
    }
    let position: usize = if k < n {
        k
    } else {
        0
    };
    proof {
        if k < n {
            let c = choose|c: int| 0 <= c < n && indexes@[c] == active_window && forall|j: int| 0 <= j < c ==> indexes@[j] != active_window;
            assert(0 <= k < n && indexes@[k as int] == active_window && forall|j: int| 0 <= j < k ==> indexes@[j] != active_window);
            if c < k {
                assert(indexes@[c] != active_window);
            } else if c > k {
                assert(indexes@[k as int] != active_window);
            }
        } else {
            assert forall|c: int| 0 <= c < n implies indexes@[c] != active_window by {}
        }
    }
    let next: usize = if forward {
        if position + 1 == n {
            0
        } else {
            position + 1
        }
    } else if position == 0 {
        n - 1
    } else {
        position - 1
    };
    Some(indexes[next])
}

/// What a window command asks for.
#[derive(Clone, Copy, Debug, PartialEq, Eq, Structural)]
pub enum WindowCommandKind {
    Select(u32),
    Create,
    Kill,
    Neighbor(bool),
    Nothing,
}

pub open spec fn window_command_spec(command: TmuxPrefixCommand) -> WindowCommandKind {
    match command {
        TmuxPrefixCommand::SelectWindow(i) => WindowCommandKind::Select(i),
        TmuxPrefixCommand::CreateWindow => WindowCommandKind::Create,
        TmuxPrefixCommand::KillWindow => WindowCommandKind::Kill,
        TmuxPrefixCommand::NextWindow => WindowCommandKind::Neighbor(true),
        TmuxPrefixCommand::PreviousWindow => WindowCommandKind::Neighbor(false),
        _ => WindowCommandKind::Nothing,
    }
}

/// The window action of a prefix command.
pub fn window_command_kind(command: TmuxPrefixCommand) -> (r: WindowCommandKind)
    ensures
        r == window_command_spec(command),
{
    match command {
        TmuxPrefixCommand::SelectWindow(i) => WindowCommandKind::Select(i),
        TmuxPrefixCommand::CreateWindow => WindowCommandKind::Create,
        TmuxPrefixCommand::KillWindow => WindowCommandKind::Kill,
        TmuxPrefixCommand::NextWindow => WindowCommandKind::Neighbor(true),
        TmuxPrefixCommand::PreviousWindow => WindowCommandKind::Neighbor(false),
        _ => WindowCommandKind::Nothing,
    }
}

/// Commands after which the previously active window is remembered.
pub open spec fn active_changing_spec(command: TmuxPrefixCommand) -> bool {
    command == TmuxPrefixCommand::CreateWindow || command == TmuxPrefixCommand::NextWindow || command
        == TmuxPrefixCommand::PreviousWindow || command is SelectWindow
}

pub fn active_changing_command(command: TmuxPrefixCommand) -> (r: bool)
    ensures
        r == active_changing_spec(command),
{
    match command {
        TmuxPrefixCommand::CreateWindow | TmuxPrefixCommand::NextWindow
        | TmuxPrefixCommand::PreviousWindow | TmuxPrefixCommand::SelectWindow(_) => true,
        _ => false,
    }
}

} // verus!
