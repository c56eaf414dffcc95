//! Which built-in command an invocation runs.
use vstd::prelude::*;

use crate::args::{named_arg_spec, target_session_arg};
use crate::command::TmuxCommand;
use crate::error::{TmuxError, TmuxErrorKind};
use crate::hints::{has_detached_spec, tmux_has_detached_arg};
use crate::messages::{session_not_found_hint, target_required_hint};
use crate::args::has_flag;
use crate::text::views;

verus! {

/// The built-in command to run, with what the dispatcher decides for it.
#[derive(Clone, Copy, Debug, PartialEq, Eq, Structural)]
pub enum BuiltinAction {
    ListSessions { json: bool },
    ListClients,
    KillSession,
    KillServer,
    HasSession,
    RenameSession,
    DisplayMessage,
    CapturePane,
    Buffer,
    ClearHistory,
    DetachClient,
    SendKeys,
    SendPrefix,
    SplitWindow,
    SwapPane,
    NewWindow,
    ListWindows,
    ListPanes,
    SelectPane,
    DisplayPanes,
    ResizePane,
    SelectWindow,
    NextWindow,
    PreviousWindow,
    LastWindow,
    KillWindow,
    KillPane,
    RenameWindow,
    AttachSession,
    NewSession { attach: bool },
}

/// `--json` is among the arguments.
pub fn list_sessions_json_requested(args: &[String]) -> (r: bool)
    ensures
        r == (exists|i: int| 0 <= i < args.len() && args@[i]@ == "--json"@),
{
    has_flag(args, "--json")
}

/// A new session starts detached with `--detached` or with `-d` among its
/// arguments.
pub fn new_session_is_detached(args: &[String], detached: bool) -> (r: bool)
    ensures
        r == (detached || has_detached_spec(views(args@))),
{
    detached || tmux_has_detached_arg(args)
}

/// What the dispatcher runs for `command`: `None` for a command it does
/// not implement.
pub open spec fn builtin_action_spec(command: TmuxCommand, args: Seq<Seq<char>>, detached: bool) -> Option<BuiltinAction> {
    match command {
        TmuxCommand::ListSessions => Some(BuiltinAction::ListSessions {
            json: exists|i: int| 0 <= i < args.len() && args[i] == "--json"@,
        }),
        TmuxCommand::ListClients => Some(BuiltinAction::ListClients),
        TmuxCommand::KillSession => Some(BuiltinAction::KillSession),
        TmuxCommand::KillServer => Some(BuiltinAction::KillServer),
        TmuxCommand::HasSession => Some(BuiltinAction::HasSession),
        TmuxCommand::RenameSession => Some(BuiltinAction::RenameSession),
        TmuxCommand::DisplayMessage => Some(BuiltinAction::DisplayMessage),
        TmuxCommand::CapturePane => Some(BuiltinAction::CapturePane),
        TmuxCommand::DeleteBuffer | TmuxCommand::ListBuffers | TmuxCommand::PasteBuffer
        | TmuxCommand::SetBuffer | TmuxCommand::ShowBuffer => Some(BuiltinAction::Buffer),
        TmuxCommand::ClearHistory => Some(BuiltinAction::ClearHistory),
        TmuxCommand::DetachClient => Some(BuiltinAction::DetachClient),
        TmuxCommand::SendKeys => Some(BuiltinAction::SendKeys),
        TmuxCommand::SendPrefix => Some(BuiltinAction::SendPrefix),
        TmuxCommand::SplitWindow => Some(BuiltinAction::SplitWindow),
        TmuxCommand::SwapPane => Some(BuiltinAction::SwapPane),
        TmuxCommand::NewWindow => Some(BuiltinAction::NewWindow),
        TmuxCommand::ListWindows => Some(BuiltinAction::ListWindows),
        TmuxCommand::ListPanes => Some(BuiltinAction::ListPanes),
        TmuxCommand::SelectPane => Some(BuiltinAction::SelectPane),
        TmuxCommand::DisplayPanes => Some(BuiltinAction::DisplayPanes),
        TmuxCommand::ResizePane => Some(BuiltinAction::ResizePane),
        TmuxCommand::SelectWindow => Some(BuiltinAction::SelectWindow),
        TmuxCommand::NextWindow => Some(BuiltinAction::NextWindow),
        TmuxCommand::PreviousWindow => Some(BuiltinAction::PreviousWindow),
        TmuxCommand::LastWindow => Some(BuiltinAction::LastWindow),
        TmuxCommand::KillWindow => Some(BuiltinAction::KillWindow),
        TmuxCommand::KillPane => Some(BuiltinAction::KillPane),
        TmuxCommand::RenameWindow => Some(BuiltinAction::RenameWindow),
        TmuxCommand::AttachSession => Some(BuiltinAction::AttachSession),
        TmuxCommand::NewSession => Some(BuiltinAction::NewSession {
            attach: !(detached || has_detached_spec(args)),
        }),
        TmuxCommand::Other => None,
    }
}

/// The built-in command for `command`, if this program implements it.
pub fn builtin_action(command: &TmuxCommand, args: &[String], detached: bool) -> (r: Option<BuiltinAction>)
    ensures
        r == builtin_action_spec(*command, views(args@), detached),
{
    match command {
        TmuxCommand::ListSessions => {
            let json = list_sessions_json_requested(args);
            proof {
                if json {
                    let i = choose|i: int| 0 <= i < args.len() && args@[i]@ == "--json"@;
                    assert(views(args@)[i] == "--json"@);
                } else {
                    assert forall|i: int| 0 <= i < args.len() implies views(args@)[i] != "--json"@ by {
                        assert(views(args@)[i] == args@[i]@);
                    }
                }
            }
            Some(BuiltinAction::ListSessions { json })
        },
        TmuxCommand::ListClients => Some(BuiltinAction::ListClients),
        TmuxCommand::KillSession => Some(BuiltinAction::KillSession),
        TmuxCommand::KillServer => Some(BuiltinAction::KillServer),
        TmuxCommand::HasSession => Some(BuiltinAction::HasSession),
        TmuxCommand::RenameSession => Some(BuiltinAction::RenameSession),
        TmuxCommand::DisplayMessage => Some(BuiltinAction::DisplayMessage),
        TmuxCommand::CapturePane => Some(BuiltinAction::CapturePane),
        TmuxCommand::DeleteBuffer | TmuxCommand::ListBuffers | TmuxCommand::PasteBuffer
        | TmuxCommand::SetBuffer | TmuxCommand::ShowBuffer => Some(BuiltinAction::Buffer),
        TmuxCommand::ClearHistory => Some(BuiltinAction::ClearHistory),
        TmuxCommand::DetachClient => Some(BuiltinAction::DetachClient),
        TmuxCommand::SendKeys => Some(BuiltinAction::SendKeys),
        TmuxCommand::SendPrefix => Some(BuiltinAction::SendPrefix),
        TmuxCommand::SplitWindow => Some(BuiltinAction::SplitWindow),
        TmuxCommand::SwapPane => Some(BuiltinAction::SwapPane),
        TmuxCommand::NewWindow => Some(BuiltinAction::NewWindow),
        TmuxCommand::ListWindows => Some(BuiltinAction::ListWindows),
        TmuxCommand::ListPanes => Some(BuiltinAction::ListPanes),
        TmuxCommand::SelectPane => Some(BuiltinAction::SelectPane),
        TmuxCommand::DisplayPanes => Some(BuiltinAction::DisplayPanes),
        TmuxCommand::ResizePane => Some(BuiltinAction::ResizePane),
        TmuxCommand::SelectWindow => Some(BuiltinAction::SelectWindow),
        TmuxCommand::NextWindow => Some(BuiltinAction::NextWindow),
        TmuxCommand::PreviousWindow => Some(BuiltinAction::PreviousWindow),
        TmuxCommand::LastWindow => Some(BuiltinAction::LastWindow),
        TmuxCommand::KillWindow => Some(BuiltinAction::KillWindow),
        TmuxCommand::KillPane => Some(BuiltinAction::KillPane),
        TmuxCommand::RenameWindow => Some(BuiltinAction::RenameWindow),
        TmuxCommand::AttachSession => Some(BuiltinAction::AttachSession),
        TmuxCommand::NewSession => Some(BuiltinAction::NewSession { attach: !new_session_is_detached(args, detached) }),
        TmuxCommand::Other => None,
    }
}

/// The target session, required.
pub fn required_target_session_arg(args: &[String]) -> (r: Result<String, TmuxError>)
    ensures
        match named_arg_spec(views(args@), "-t"@, "--target-session"@) {
            Some(t) => r matches Ok(v) && v@ == t,
            None => r matches Err(e) && e.kind == TmuxErrorKind::InvalidInput && e.message@
                == "需要通过 -t <session> 指定目标会话。"@,
        },
{
    match target_session_arg(args) {
        Some(t) => Ok(t),
        None => Err(target_required_error()),
    }
}

/// No target session was given.
pub fn target_required_error() -> (r: TmuxError)
    ensures
        r.kind == TmuxErrorKind::InvalidInput,
        r.message@ == "需要通过 -t <session> 指定目标会话。"@,
{
    TmuxError::new(TmuxErrorKind::InvalidInput, target_required_hint())
}

/// No session is called `target`.
pub fn session_not_found_error(target: &str) -> (r: TmuxError)
    ensures
        r.kind == TmuxErrorKind::NotFound,
        r.message@ == "未找到会话："@ + target@,
{
    TmuxError::new(TmuxErrorKind::NotFound, session_not_found_hint(target))
}


/// `rename-session`: the session to rename (`-t`, required) and the new
/// name (required).
pub fn rename_session_plan(args: &[String]) -> (r: Result<(String, String), TmuxError>)
    ensures
        match named_arg_spec(views(args@), "-t"@, "--target-session"@) {
            None => (r matches Err(e) && e.kind == TmuxErrorKind::InvalidInput && e.message@
                == "需要通过 -t <session> 指定目标会话。"@),
            Some(t) => match crate::args::positional_after_spec(views(args@), seq!["rename-session"@]) {
                None => (r matches Err(e) && e.kind == TmuxErrorKind::InvalidInput && e.message@
                    == "需要通过 -s <name> 指定会话名。"@),
                Some(n) => (r matches Ok(p) && p.0@ == t && p.1@ == n),
            },
        },
{
    let target = match required_target_session_arg(args) {
        Ok(t) => t,
        Err(e) => return Err(e),
    };
    match crate::args::rename_session_name_arg(args) {
        Some(name) => Ok((target, name)),
        None => Err(TmuxError::new(TmuxErrorKind::InvalidInput, crate::messages::session_name_required_hint())),
    }
}

/// What renaming in the session record means for the command: the
/// missing source is not found, a taken name already exists.
pub fn rename_outcome(outcome: crate::session_registry::RenameBuiltinTmuxSession, from: &str, to: &str) -> (r: Result<
    (),
    TmuxError,
>)
    ensures
        match outcome {
            crate::session_registry::RenameBuiltinTmuxSession::Renamed => r is Ok,
            crate::session_registry::RenameBuiltinTmuxSession::SourceMissing => (r matches Err(e) && e.kind
                == TmuxErrorKind::NotFound && e.message@ == "未找到会话："@ + from@),
            crate::session_registry::RenameBuiltinTmuxSession::DestinationExists => (r matches Err(e) && e.kind
                == TmuxErrorKind::AlreadyExists && e.message@ == "会话已存在："@ + to@),
        },
{
    match outcome {
        crate::session_registry::RenameBuiltinTmuxSession::Renamed => Ok(()),
        crate::session_registry::RenameBuiltinTmuxSession::SourceMissing => Err(session_not_found_error(from)),
        crate::session_registry::RenameBuiltinTmuxSession::DestinationExists => Err(
            TmuxError::new(TmuxErrorKind::AlreadyExists, crate::messages::session_exists_hint(to)),
        ),
    }
}

} // verus!
