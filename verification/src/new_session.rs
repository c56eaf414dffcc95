//! The pieces of `new-session`: its name, the command it starts and how a
//! client attaches to it.
use vstd::prelude::*;

use crate::args::session_name_arg;
use crate::args::named_arg_spec;
use crate::error::{TmuxError, TmuxErrorKind};
use crate::messages::session_name_required_hint;
use crate::text::{join_strings, join_with, owned, str_eq, str_starts_with, views};

verus! {

/// Scanning state for the command words of `new-session`.
pub struct NewSessionScan {
    pub seen_command: bool,
    pub started: bool,
    pub skip_next: bool,
    pub command: Seq<Seq<char>>,
}

/// One step: arguments before `new`/`new-session` are ignored, then
/// options (and the value of `-s`) are dropped until the first other
/// argument, which starts the command; everything from there on is kept.
pub open spec fn new_session_step(st: NewSessionScan, arg: Seq<char>) -> NewSessionScan {
    if st.started {
        NewSessionScan { command: st.command.push(arg), ..st }
    } else if st.skip_next {
        NewSessionScan { skip_next: false, ..st }
    } else if !st.seen_command {
        NewSessionScan { seen_command: arg == "new"@ || arg == "new-session"@, ..st }
    } else if arg == "-d"@ || arg == "--detached"@ {
        st
    } else if arg == "-s"@ || arg == "--session-name"@ {
        NewSessionScan { skip_next: true, ..st }
    } else if "-s"@.is_prefix_of(arg) || "--session-name="@.is_prefix_of(arg) || "-"@.is_prefix_of(arg) {
        st
    } else {
        NewSessionScan { started: true, command: st.command.push(arg), ..st }
    }
}

pub open spec fn new_session_scan(args: Seq<Seq<char>>) -> NewSessionScan
    decreases args.len(),
{
    if args.len() == 0 {
        NewSessionScan { seen_command: false, started: false, skip_next: false, command: Seq::empty() }
    } else {
        new_session_step(new_session_scan(args.drop_last()), args.last())
    }
}

/// The command that `new-session` starts in its first window.
pub fn new_session_command_args(args: &[String]) -> (r: Vec<String>)
    ensures
        views(r@) == new_session_scan(views(args@)).command,
{
    let ghost vs = views(args@);
    let mut seen_command = false;
    let mut started = false;
    let mut skip_next = false;
    let mut command: Vec<String> = Vec::new();
    let mut i: usize = 0;
    assert(vs.take(0) =~= Seq::<Seq<char>>::empty());
    assert(views(command@) =~= Seq::<Seq<char>>::empty());
    while i < args.len()
        invariant
            i <= args.len(),
            vs == views(args@),
            new_session_scan(vs.take(i as int)) == (NewSessionScan {
                seen_command,
                started,
                skip_next,
                command: views(command@),
            }),
        decreases args.len() - i,
    {
        let arg = args[i].as_str();
        assert(vs.take(i + 1).drop_last() =~= vs.take(i as int));
        assert(vs.take(i + 1).last() == arg@);
        let ghost before = command@;
        if started {
            command.push(args[i].clone());
            assert(views(command@) =~= views(before).push(arg@));
        } else if skip_next {
            skip_next = false;
        } else if !seen_command {
            seen_command = str_eq(arg, "new") || str_eq(arg, "new-session");
        } else if str_eq(arg, "-d") || str_eq(arg, "--detached") {
        } else if str_eq(arg, "-s") || str_eq(arg, "--session-name") {
            skip_next = true;
        } else if str_starts_with(arg, "-s") || str_starts_with(arg, "--session-name=")
            || str_starts_with(arg, "-") {
        } else {
            started = true;
            command.push(args[i].clone());
            assert(views(command@) =~= views(before).push(arg@));
        }
        i += 1;
    }
    assert(vs.take(args.len() as int) =~= vs);
    command
}

/// The command words joined by spaces, or `None` when there are none.
pub fn session_command(command_args: &[String]) -> (r: Option<String>)
    ensures
        match r {
            Some(c) => command_args@.len() > 0 && c@ == join_with(views(command_args@), " "@),
            None => command_args@.len() == 0,
        },
{
    if command_args.len() == 0 {
        None
    } else {
        Some(join_strings(command_args, " "))
    }
}

/// The arguments of `attach-session -t <session_name>`.
pub fn attach_session_args(session_name: &str) -> (r: Vec<String>)
    ensures
        views(r@) == seq!["attach-session"@, "-t"@, session_name@],
{
    let mut r: Vec<String> = Vec::new();
    r.push(owned("attach-session"));
    r.push(owned("-t"));
    r.push(owned(session_name));
    assert(views(r@) =~= seq!["attach-session"@, "-t"@, session_name@]);
    r
}

/// The session name given with `-s`, required.
pub fn required_session_name_arg(args: &[String]) -> (r: Result<String, TmuxError>)
    ensures
        match named_arg_spec(views(args@), "-s"@, "--session-name"@) {
            Some(name) => r matches Ok(v) && v@ == name,
            None => r matches Err(e) && e.kind == TmuxErrorKind::InvalidInput
                && e.message@ == "需要通过 -s <name> 指定会话名。"@,
        },
{
    match session_name_arg(args) {
        Some(name) => Ok(name),
        None => Err(TmuxError::new(TmuxErrorKind::InvalidInput, session_name_required_hint())),
    }
}

} // verus!
