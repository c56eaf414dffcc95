//! Commands typed at the `:` prompt of an attached client: splitting the
//! line into arguments and binding them to the attached session.
use vstd::prelude::*;

use crate::command::{parse_spec, TmuxCommand};
use crate::error::{TmuxError, TmuxErrorKind};
use crate::messages::unsupported_command_hint;
use crate::text::{char_is_ws, chars_of, is_ws, owned, str_eq, str_starts_with, string_of, views};

verus! {

/// State of the line splitter.
pub struct SplitState {
    pub args: Seq<Seq<char>>,
    pub token: Seq<char>,
    pub quote: Option<char>,
    pub escaped: bool,
    pub started: bool,
}

/// One character of the line: quotes group, a backslash escapes (outside
/// quotes and inside double quotes), white space separates.
pub open spec fn split_step(st: SplitState, ch: char) -> SplitState {
    if st.escaped {
        SplitState { token: st.token.push(ch), escaped: false, started: true, ..st }
    } else {
        match st.quote {
            Some(q) => if q == '\'' && ch == '\'' {
                SplitState { quote: None, ..st }
            } else if q == '"' && ch == '"' {
                SplitState { quote: None, ..st }
            } else if q == '"' && ch == '\\' {
                SplitState { escaped: true, ..st }
            } else {
                SplitState { token: st.token.push(ch), started: true, ..st }
            },
            None => if ch == '\'' || ch == '"' {
                SplitState { quote: Some(ch), started: true, ..st }
            } else if ch == '\\' {
                SplitState { escaped: true, started: true, ..st }
            } else if is_ws(ch) {
                if st.started {
                    SplitState { args: st.args.push(st.token), token: Seq::empty(), started: false, ..st }
                } else {
                    st
                }
            } else {
                SplitState { token: st.token.push(ch), started: true, ..st }
            },
        }
    }
}

pub open spec fn split_fold(line: Seq<char>) -> SplitState
    decreases line.len(),
{
    if line.len() == 0 {
        SplitState { args: Seq::empty(), token: Seq::empty(), quote: None, escaped: false, started: false }
    } else {
        split_step(split_fold(line.drop_last()), line.last())
    }
}

/// The arguments of a command line, or `None` when a quote or an escape
/// is left open.
pub open spec fn split_spec(line: Seq<char>) -> Option<Seq<Seq<char>>> {
    let st = split_fold(line);
    if st.escaped || st.quote is Some {
        None
    } else if st.started {
        Some(st.args.push(st.token))
    } else {
        Some(st.args)
    }
}

/// Splits a command line into arguments, shell style.
pub fn split_command_line(line: &str) -> (r: Option<Vec<String>>)
    ensures
        match r {
            Some(v) => split_spec(line@) == Some(views(v@)),
            None => split_spec(line@) is None,
        },
{
    let cs = chars_of(line);
    let mut args: Vec<String> = Vec::new();
    let mut token: Vec<char> = Vec::new();
    let mut quote: Option<char> = None;
    let mut escaped = false;
    let mut started = false;
    let mut i: usize = 0;
    assert(cs@.take(0) =~= Seq::<char>::empty());
    assert(views(args@) =~= Seq::<Seq<char>>::empty());
    while i < cs.len()
        invariant
            i <= cs@.len(),
            cs@ == line@,
            split_fold(cs@.take(i as int)) == (SplitState {
                args: views(args@),
                token: token@,
                quote,
                escaped,
                started,
            }),
        decreases cs@.len() - i,
    {
        let ch = cs[i];
        assert(cs@.take(i + 1).drop_last() =~= cs@.take(i as int));
        assert(cs@.take(i + 1).last() == ch);
        if escaped {
            token.push(ch);
            escaped = false;
            started = true;
        } else {
            match quote {
                Some(q) => {
                    if q == '\'' && ch == '\'' {
                        quote = None;
                    } else if q == '"' && ch == '"' {
                        quote = None;
                    } else if q == '"' && ch == '\\' {
                        escaped = true;
                    } else {
                        token.push(ch);
                        started = true;
                    }
                },
                None => {
                    if ch == '\'' || ch == '"' {
                        quote = Some(ch);
                        started = true;
                    } else if ch == '\\' {
                        escaped = true;
                        started = true;
                    } else if char_is_ws(ch) {
                        if started {
                            let ghost before = args@;
                            let t = string_of(&token);
                            args.push(t);
                            assert(views(args@) =~= views(before).push(token@));
                            token = Vec::new();
                            started = false;
                            assert(token@ =~= Seq::<char>::empty());
                        }
                    } else {
                        token.push(ch);
                        started = true;
                    }
                },
            }
        }
        i += 1;
    }
    assert(cs@.take(cs@.len() as int) =~= cs@);
    if escaped || quote.is_some() {
        return None;
    }
    if started {
        let ghost before = args@;
        let t = string_of(&token);
        args.push(t);
        assert(views(args@) =~= views(before).push(token@));
    }
    Some(args)
}

/// `-t` or `-tNAME`.
pub open spec fn is_explicit_target(arg: Seq<char>) -> bool {
    arg == "-t"@ || ("-t"@.is_prefix_of(arg) && arg.len() > 2)
}

pub open spec fn has_explicit_target_spec(args: Seq<Seq<char>>) -> bool {
    exists|i: int| 0 <= i < args.len() && is_explicit_target(#[trigger] args[i])
}

/// Whether the arguments name a target already.
pub fn has_explicit_target(args: &[String]) -> (r: bool)
    ensures
        r == has_explicit_target_spec(views(args@)),
{
    let ghost vs = views(args@);
    let mut i: usize = 0;
    while i < args.len()
        invariant
            i <= args.len(),
            vs == views(args@),
            forall|j: int| 0 <= j < i ==> !is_explicit_target(#[trigger] vs[j]),
        decreases args.len() - i,
    {
        let arg = args[i].as_str();
        if str_eq(arg, "-t") || (str_starts_with(arg, "-t") && chars_of(arg).len() > 2) {
            assert(is_explicit_target(vs[i as int]));
            return true;
        }
        i += 1;
    }
    false
}

/// Commands that are never bound to the attached session.
pub open spec fn unbound_command(command: TmuxCommand) -> bool {
    command == TmuxCommand::NewSession || command == TmuxCommand::AttachSession || command
        == TmuxCommand::ListSessions || command == TmuxCommand::ListClients || command
        == TmuxCommand::KillServer || command == TmuxCommand::Other
}

/// Position of the command name: the first argument other than `-d` and
/// `--detached`, or 0.
pub open spec fn command_position(args: Seq<Seq<char>>) -> int {
    if exists|k: int| 0 <= k < args.len() && args[k] != "-d"@ && args[k] != "--detached"@ {
        choose|k: int| 0 <= k < args.len() && args[k] != "-d"@ && args[k] != "--detached"@ && forall|j: int|
            0 <= j < k ==> (args[j] == "-d"@ || args[j] == "--detached"@)
    } else {
        0
    }
}

/// The arguments with `-t <session>` added after the command name, unless
/// they name a target or the command takes none.
pub open spec fn bind_spec(command: TmuxCommand, args: Seq<Seq<char>>, session: Seq<char>) -> Seq<Seq<char>> {
    if has_explicit_target_spec(args) || unbound_command(command) {
        args
    } else {
        let p = command_position(args) + 1;
        args.insert(p, "-t"@).insert(p + 1, session)
    }
}

/// Adds `-t <session>` after the command name when needed.
pub fn bind_attached_session(command: &TmuxCommand, args: &mut Vec<String>, session: &str)
    requires
        old(args)@.len() > 0,
    ensures
        views(final(args)@) == bind_spec(*command, views(old(args)@), session@),
{
    let ghost vs = views(args@);
    if has_explicit_target(args) {
        return;
    }
    match command {
        TmuxCommand::NewSession | TmuxCommand::AttachSession | TmuxCommand::ListSessions
        | TmuxCommand::ListClients | TmuxCommand::KillServer | TmuxCommand::Other => return,
        _ => {},
    }
    let mut k: usize = 0;
    while k < args.len() && (str_eq(args[k].as_str(), "-d") || str_eq(args[k].as_str(), "--detached"))
        invariant
            k <= args@.len(),
            vs == views(args@),
            forall|j: int| 0 <= j < k ==> (vs[j] == "-d"@ || vs[j] == "--detached"@),
        decreases args@.len() - k,
    {
        k += 1;
    }
    let position: usize = if k < args.len() {
        k
    } else {
        0
    };
    proof {
        if k < args@.len() {
            let c = choose|c: int| 0 <= c < vs.len() && vs[c] != "-d"@ && vs[c] != "--detached"@ && forall|j: int|
                0 <= j < c ==> (vs[j] == "-d"@ || vs[j] == "--detached"@);
            assert(0 <= k < vs.len() && vs[k as int] != "-d"@ && vs[k as int] != "--detached"@);
            if c < k {
                assert(vs[c] == "-d"@ || vs[c] == "--detached"@);
            } else if c > k {
                assert(vs[k as int] == "-d"@ || vs[k as int] == "--detached"@);
            }
        } else {
            assert forall|c: int| 0 <= c < vs.len() implies !(vs[c] != "-d"@ && vs[c] != "--detached"@) by {}
        }
        assert(position as int == command_position(vs));
    }
    let first = position + 1;
    args.insert(first, owned("-t"));
    let n = args.len();
    assert(first < n);
    args.insert(first + 1, owned(session));
    proof {
        assert(views(args@) =~= vs.insert(position + 1, "-t"@).insert(position + 2, session@));
    }
}

/// What a command typed at the prompt leads to.
pub enum AttachedCommand {
    /// An empty line: nothing.
    Nothing,
    /// `detach-client` alone: detach this client.
    Detach,
    /// Run `command` with these arguments, once bound to the session.
    Run { command: TmuxCommand, args: Vec<String> },
}

/// The message for a line that cannot be split.
pub open spec fn parse_error_spec() -> Seq<char> {
    "命令解析失败：引号或转义未闭合。"@
}

/// Reads a command line typed at the prompt.
pub fn plan_attached_command(line: &str) -> (r: Result<AttachedCommand, TmuxError>)
    ensures
        match split_spec(line@) {
            None => r matches Err(e) && e.kind == TmuxErrorKind::InvalidInput && e.message@ == parse_error_spec(),
            Some(args) => if args.len() == 0 {
                r matches Ok(AttachedCommand::Nothing)
            } else if parse_spec(args) == TmuxCommand::AttachSession {
                r matches Err(e) && e.kind == TmuxErrorKind::Unsupported && e.message@
                    == "暂不支持的 tmux 命令："@ + args[0]
            } else if parse_spec(args) == TmuxCommand::DetachClient && args.len() == 1 {
                r matches Ok(AttachedCommand::Detach)
            } else {
                r matches Ok(AttachedCommand::Run { command, args: a }) && command == parse_spec(args) && views(
                    a@,
                ) == args
            },
        },
{
    let args = match split_command_line(line) {
        Some(a) => a,
        None => return Err(TmuxError::new(TmuxErrorKind::InvalidInput, owned("命令解析失败：引号或转义未闭合。"))),
    };
    if args.len() == 0 {
        return Ok(AttachedCommand::Nothing);
    }
    let command = TmuxCommand::parse(&args);
    if command == TmuxCommand::AttachSession {
        return Err(TmuxError::new(TmuxErrorKind::Unsupported, unsupported_command_hint(args[0].as_str())));
    }
    if command == TmuxCommand::DetachClient && args.len() == 1 {
        return Ok(AttachedCommand::Detach);
    }
    Ok(AttachedCommand::Run { command, args })
}


/// A command typed at the prompt, bound to the attached session, is run as
/// the built-in command `builtin_action` chooses with the detached flag
/// set; one that is not built in is refused as unsupported.
pub fn prompt_run_plan(command: TmuxCommand, args: Vec<String>, session: &str) -> (r: Result<
    (crate::builtin::BuiltinAction, Vec<String>),
    TmuxError,
>)
    requires
        args@.len() > 0,
    ensures
        ({
            let bound = bind_spec(command, views(args@), session@);
            match crate::builtin::builtin_action_spec(command, bound, true) {
                Some(a) => (r matches Ok(p) && p.0 == a && views(p.1@) == bound),
                None => (r matches Err(e) && e.kind == TmuxErrorKind::Unsupported && e.message@
                    == "暂不支持的 tmux 命令："@ + views(args@)[0]),
            }
        }),
{
    let first = args[0].clone();
    let mut bound = args;
    bind_attached_session(&command, &mut bound, session);
    match crate::builtin::builtin_action(&command, &bound, true) {
        Some(action) => Ok((action, bound)),
        None => Err(TmuxError::new(TmuxErrorKind::Unsupported, unsupported_command_hint(first.as_str()))),
    }
}

} // verus!
