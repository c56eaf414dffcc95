//! How a session server process and the shells of its panes are started.
use vstd::prelude::*;

use crate::text::{decimal, decimal_string, owned, push_decimal, push_char, views};

verus! {

/// The arguments that start a detached session server for a session.
pub fn server_command_args(session_name: &str, endpoint_name: &str, command_args: &[String]) -> (r: Vec<String>)
    ensures
        views(r@) == seq!["--__tmux-server"@, "--__session-name"@, session_name@, "--__endpoint-name"@, endpoint_name@]
            + views(command_args@),
{
    let mut r: Vec<String> = Vec::new();
    r.push(owned("--__tmux-server"));
    r.push(owned("--__session-name"));
    r.push(owned(session_name));
    r.push(owned("--__endpoint-name"));
    r.push(owned(endpoint_name));
    let ghost head = views(r@);
    assert(head =~= seq!["--__tmux-server"@, "--__session-name"@, session_name@, "--__endpoint-name"@, endpoint_name@]);
    let mut k: usize = 0;
    while k < command_args.len()
        invariant
            k <= command_args@.len(),
            views(r@) == head + views(command_args@).take(k as int),
        decreases command_args@.len() - k,
    {
        let ghost before = r@;
        r.push(command_args[k].clone());
        assert(views(r@) =~= views(before).push(command_args@[k as int]@));
        assert(views(command_args@).take(k + 1) =~= views(command_args@).take(k as int).push(command_args@[k as int]@));
        k += 1;
    }
    assert(views(command_args@).take(k as int) =~= views(command_args@));
    r
}

/// What a pane's shell runs in: its session, window, pane and command.
#[derive(Clone, Debug, PartialEq, Eq)]
pub struct TmuxPtyCommandSpec {
    pub session_name: String,
    pub window_index: u32,
    pub window_name: String,
    pub pane_index: u32,
    pub command: Option<String>,
    pub login_shell: bool,
}

/// The environment variables a pane's shell gets.
pub fn tmux_environment(spec: &TmuxPtyCommandSpec) -> (r: Vec<(String, String)>)
    ensures
        r@.len() == 5,
        r@[0].0@ == "TERM"@ && r@[0].1@ == "tmux-256color"@,
        r@[1].0@ == "WINDOW"@ && r@[1].1@ == decimal(spec.window_index as nat),
        r@[2].0@ == "TMUX_PANE"@ && r@[2].1@ == seq!['%'] + decimal(spec.pane_index as nat),
        r@[3].0@ == "TERMAN_TMUX_SESSION"@ && r@[3].1@ == spec.session_name@,
        r@[4].0@ == "TERMAN_TMUX_WINDOW"@ && r@[4].1@ == spec.window_name@,
{
    let mut r: Vec<(String, String)> = Vec::new();
    r.push((owned("TERM"), owned("tmux-256color")));
    r.push((owned("WINDOW"), decimal_string(spec.window_index as u64)));
    let mut pane = String::new();
    push_char(&mut pane, '%');
    push_decimal(&mut pane, spec.pane_index as u64);
    r.push((owned("TMUX_PANE"), pane));
    r.push((owned("TERMAN_TMUX_SESSION"), spec.session_name.clone()));
    r.push((owned("TERMAN_TMUX_WINDOW"), spec.window_name.clone()));
    r
}

/// The arguments of an interactive shell: `-l` for a login shell, except
/// on Windows.
pub fn interactive_shell_args(login_shell: bool, on_windows: bool) -> (r: Vec<String>)
    ensures
        views(r@) == if !on_windows && login_shell { seq!["-l"@] } else { Seq::empty() },
{
    let mut r: Vec<String> = Vec::new();
    if !on_windows && login_shell {
        r.push(owned("-l"));
    }
    assert(views(r@) =~= if !on_windows && login_shell { seq!["-l"@] } else { Seq::<Seq<char>>::empty() });
    r
}

} // verus!
