//! Recognition of the tmux command name among the arguments.
use vstd::prelude::*;

use crate::text::{str_eq, views};

verus! {

/// The tmux commands this program implements, plus `Other`.
#[derive(Clone, Copy, Debug, PartialEq, Eq, Structural)]
pub enum TmuxCommand {
    NewSession,
    AttachSession,
    ListSessions,
    ListClients,
    KillSession,
    KillServer,
    HasSession,
    RenameSession,
    DisplayMessage,
    CapturePane,
    ClearHistory,
    DetachClient,
    SendKeys,
    SendPrefix,
    NewWindow,
    ListWindows,
    SelectWindow,
    NextWindow,
    PreviousWindow,
    LastWindow,
    KillWindow,
    RenameWindow,
    SplitWindow,
    ListPanes,
    SelectPane,
    SwapPane,
    KillPane,
    DisplayPanes,
    ResizePane,
    SetBuffer,
    ShowBuffer,
    ListBuffers,
    PasteBuffer,
    DeleteBuffer,
    Other,
}

/// The command a name (or alias) stands for.
pub open spec fn command_of(name: Seq<char>) -> TmuxCommand {
    if name == "new"@ || name == "new-session"@ {
        TmuxCommand::NewSession
    } else if name == "attach"@ || name == "attach-session"@ {
        TmuxCommand::AttachSession
    } else if name == "list-sessions"@ || name == "ls"@ {
        TmuxCommand::ListSessions
    } else if name == "list-clients"@ || name == "lsc"@ {
        TmuxCommand::ListClients
    } else if name == "kill-session"@ {
        TmuxCommand::KillSession
    } else if name == "kill-server"@ {
        TmuxCommand::KillServer
    } else if name == "has-session"@ {
        TmuxCommand::HasSession
    } else if name == "rename-session"@ {
        TmuxCommand::RenameSession
    } else if name == "display-message"@ || name == "display"@ {
        TmuxCommand::DisplayMessage
    } else if name == "capture-pane"@ || name == "capturep"@ {
        TmuxCommand::CapturePane
    } else if name == "clear-history"@ || name == "clearhist"@ {
        TmuxCommand::ClearHistory
    } else if name == "detach-client"@ || name == "detach"@ {
        TmuxCommand::DetachClient
    } else if name == "send-keys"@ || name == "send"@ {
        TmuxCommand::SendKeys
    } else if name == "send-prefix"@ {
        TmuxCommand::SendPrefix
    } else if name == "new-window"@ || name == "neww"@ {
        TmuxCommand::NewWindow
    } else if name == "list-windows"@ || name == "lsw"@ {
        TmuxCommand::ListWindows
    } else if name == "select-window"@ || name == "selectw"@ {
        TmuxCommand::SelectWindow
    } else if name == "next-window"@ || name == "next"@ {
        TmuxCommand::NextWindow
    } else if name == "previous-window"@ || name == "previous"@ || name == "prev"@ {
        TmuxCommand::PreviousWindow
    } else if name == "last-window"@ || name == "last"@ {
        TmuxCommand::LastWindow
    } else if name == "kill-window"@ || name == "killw"@ {
        TmuxCommand::KillWindow
    } else if name == "rename-window"@ || name == "renamew"@ {
        TmuxCommand::RenameWindow
    } else if name == "split-window"@ || name == "splitw"@ {
        TmuxCommand::SplitWindow
    } else if name == "list-panes"@ || name == "lsp"@ {
        TmuxCommand::ListPanes
    } else if name == "select-pane"@ || name == "selectp"@ {
        TmuxCommand::SelectPane
    } else if name == "swap-pane"@ || name == "swapp"@ {
        TmuxCommand::SwapPane
    } else if name == "kill-pane"@ || name == "killp"@ {
        TmuxCommand::KillPane
    } else if name == "display-panes"@ || name == "displayp"@ {
        TmuxCommand::DisplayPanes
    } else if name == "resize-pane"@ || name == "resizep"@ {
        TmuxCommand::ResizePane
    } else if name == "set-buffer"@ || name == "setb"@ {
        TmuxCommand::SetBuffer
    } else if name == "show-buffer"@ || name == "showb"@ {
        TmuxCommand::ShowBuffer
    } else if name == "list-buffers"@ || name == "lsb"@ {
        TmuxCommand::ListBuffers
    } else if name == "paste-buffer"@ || name == "pasteb"@ {
        TmuxCommand::PasteBuffer
    } else if name == "delete-buffer"@ || name == "deleteb"@ {
        TmuxCommand::DeleteBuffer
    } else {
        TmuxCommand::Other
    }
}

/// `-d` and `--detached` may precede the command name.
pub open spec fn is_global_option_spec(arg: Seq<char>) -> bool {
    arg == "-d"@ || arg == "--detached"@
}

/// Position of the first argument that is not a global option.
pub open spec fn first_command_position(args: Seq<Seq<char>>) -> Option<int>
    decreases args.len(),
{
    if args.len() == 0 {
        None
    } else if !is_global_option_spec(args[0]) {
        Some(0)
    } else {
        match first_command_position(args.skip(1)) {
            Some(i) => Some(i + 1),
            None => None,
        }
    }
}

/// The command the arguments name.
pub open spec fn parse_spec(args: Seq<Seq<char>>) -> TmuxCommand {
    match first_command_position(args) {
        Some(i) => command_of(args[i]),
        None => TmuxCommand::Other,
    }
}

pub proof fn lemma_first_command_position(args: Seq<Seq<char>>)
    ensures
        match first_command_position(args) {
            Some(i) => 0 <= i < args.len() && !is_global_option_spec(args[i]) && forall|j: int|
                0 <= j < i ==> is_global_option_spec(#[trigger] args[j]),
            None => forall|j: int| 0 <= j < args.len() ==> is_global_option_spec(#[trigger] args[j]),
        },
    decreases args.len(),
{
    if args.len() > 0 && is_global_option_spec(args[0]) {
        lemma_first_command_position(args.skip(1));
        assert forall|j: int| 1 <= j < args.len() implies args[j] == args.skip(1)[j - 1] by {}
    }
}

/// Whether `arg` is a global option rather than the command name.
pub fn is_global_option_or_value(arg: &str) -> (r: bool)
    ensures
        r == is_global_option_spec(arg@),
{
    str_eq(arg, "-d") || str_eq(arg, "--detached")
}

/// Position of the command name among the arguments.
pub fn first_command_token(args: &[String]) -> (r: Option<usize>)
    ensures
        match r {
            Some(i) => i < args.len() && first_command_position(views(args@)) == Some(i as int),
            None => first_command_position(views(args@)) is None,
        },
{
    proof { lemma_first_command_position(views(args@)); }
    let mut i: usize = 0;
    while i < args.len()
        invariant
            i <= args.len(),
            forall|j: int| 0 <= j < i ==> is_global_option_spec(#[trigger] views(args@)[j]),
        decreases args.len() - i,
    {
        if !is_global_option_or_value(args[i].as_str()) {
            proof {
                lemma_first_command_position(views(args@));
                match first_command_position(views(args@)) {
                    Some(k) => {
                        if k < i {
                            assert(is_global_option_spec(views(args@)[k]));
                        } else if k > i {
                            assert(is_global_option_spec(views(args@)[i as int]));
                        }
                    },
                    None => {
                        assert(is_global_option_spec(views(args@)[i as int]));
                    },
                }
            }
            return Some(i);
        }
        i += 1;
    }
    None
}

fn command_of_name(name: &str) -> (r: TmuxCommand)
    ensures
        r == command_of(name@),
{
    if str_eq(name, "new") || str_eq(name, "new-session") {
        TmuxCommand::NewSession
    } else if str_eq(name, "attach") || str_eq(name, "attach-session") {
        TmuxCommand::AttachSession
    } else if str_eq(name, "list-sessions") || str_eq(name, "ls") {
        TmuxCommand::ListSessions
    } else if str_eq(name, "list-clients") || str_eq(name, "lsc") {
        TmuxCommand::ListClients
    } else if str_eq(name, "kill-session") {
        TmuxCommand::KillSession
    } else if str_eq(name, "kill-server") {
        TmuxCommand::KillServer
    } else if str_eq(name, "has-session") {
        TmuxCommand::HasSession
    } else if str_eq(name, "rename-session") {
        TmuxCommand::RenameSession
    } else if str_eq(name, "display-message") || str_eq(name, "display") {
        TmuxCommand::DisplayMessage
    } else if str_eq(name, "capture-pane") || str_eq(name, "capturep") {
        TmuxCommand::CapturePane
    } else if str_eq(name, "clear-history") || str_eq(name, "clearhist") {
        TmuxCommand::ClearHistory
    } else if str_eq(name, "detach-client") || str_eq(name, "detach") {
        TmuxCommand::DetachClient
    } else if str_eq(name, "send-keys") || str_eq(name, "send") {
        TmuxCommand::SendKeys
    } else if str_eq(name, "send-prefix") {
        TmuxCommand::SendPrefix
    } else if str_eq(name, "new-window") || str_eq(name, "neww") {
        TmuxCommand::NewWindow
    } else if str_eq(name, "list-windows") || str_eq(name, "lsw") {
        TmuxCommand::ListWindows
    } else if str_eq(name, "select-window") || str_eq(name, "selectw") {
        TmuxCommand::SelectWindow
    } else if str_eq(name, "next-window") || str_eq(name, "next") {
        TmuxCommand::NextWindow
    } else if str_eq(name, "previous-window") || str_eq(name, "previous") || str_eq(name, "prev") {
        TmuxCommand::PreviousWindow
    } else if str_eq(name, "last-window") || str_eq(name, "last") {
        TmuxCommand::LastWindow
    } else if str_eq(name, "kill-window") || str_eq(name, "killw") {
        TmuxCommand::KillWindow
    } else if str_eq(name, "rename-window") || str_eq(name, "renamew") {
        TmuxCommand::RenameWindow
    } else if str_eq(name, "split-window") || str_eq(name, "splitw") {
        TmuxCommand::SplitWindow
    } else if str_eq(name, "list-panes") || str_eq(name, "lsp") {
        TmuxCommand::ListPanes
    } else if str_eq(name, "select-pane") || str_eq(name, "selectp") {
        TmuxCommand::SelectPane
    } else if str_eq(name, "swap-pane") || str_eq(name, "swapp") {
        TmuxCommand::SwapPane
    } else if str_eq(name, "kill-pane") || str_eq(name, "killp") {
        TmuxCommand::KillPane
    } else if str_eq(name, "display-panes") || str_eq(name, "displayp") {
        TmuxCommand::DisplayPanes
    } else if str_eq(name, "resize-pane") || str_eq(name, "resizep") {
        TmuxCommand::ResizePane
    } else if str_eq(name, "set-buffer") || str_eq(name, "setb") {
        TmuxCommand::SetBuffer
    } else if str_eq(name, "show-buffer") || str_eq(name, "showb") {
        TmuxCommand::ShowBuffer
    } else if str_eq(name, "list-buffers") || str_eq(name, "lsb") {
        TmuxCommand::ListBuffers
    } else if str_eq(name, "paste-buffer") || str_eq(name, "pasteb") {
        TmuxCommand::PasteBuffer
    } else if str_eq(name, "delete-buffer") || str_eq(name, "deleteb") {
        TmuxCommand::DeleteBuffer
    } else {
        TmuxCommand::Other
    }
}

impl TmuxCommand {
    /// The command named by the first argument that is not `-d`/`--detached`.
    pub fn parse(args: &[String]) -> (r: TmuxCommand)
        ensures
            r == parse_spec(views(args@)),
    {
        match first_command_token(args) {
            Some(i) => command_of_name(args[i].as_str()),
            None => TmuxCommand::Other,
        }
    }
}

} // verus!
