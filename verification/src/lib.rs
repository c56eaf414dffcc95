use vstd::prelude::*;

pub mod text;
pub mod args;
pub mod command;
pub mod pane_layout;
pub mod pane_layout_presets;
pub mod pane_layout_resize;
pub mod pane_navigation;
pub mod session_model;
pub mod session_state;
pub mod session_core;
pub mod error;
pub mod messages;
pub mod hints;
pub mod new_session;
pub mod send_keys;
pub mod ipc;
pub mod service_handlers;
pub mod attach_keys;
pub mod attach_prompt;
pub mod attach_find;
pub mod attach_command_exec;
pub mod attach_status;
pub mod attach_window;
pub mod attach_rename;
pub mod attach_command_prompt;
pub mod attach_input;
pub mod copy_mode;
pub mod builtin;
pub mod cli;
pub mod server;
pub mod buffer_args;
pub mod pane_args;
pub mod display_width;
pub mod attach_mouse;
pub mod attach_window_list;
pub mod attach_stream;
pub mod attach_pane_chooser;
pub mod attach_repeat;
pub mod attach_route;
pub mod client_commands;
pub mod session_registry;
pub mod launch;
pub mod window_panes;
pub mod laws;

pub use cli::TmuxArgs;

use builtin::{builtin_action, builtin_action_spec, BuiltinAction};
use command::{parse_spec, TmuxCommand};
use error::{TmuxError, TmuxErrorKind};
use messages::unsupported_command_hint;
use server::TmuxServerConfig;
use text::{owned, str_eq, views};

verus! {

/// The name of the first argument that is not `-d`/`--detached`, or
/// `unknown`.
pub open spec fn unsupported_name_spec(args: Seq<Seq<char>>) -> Seq<char> {
    if exists|k: int| 0 <= k < args.len() && args[k] != "-d"@ && args[k] != "--detached"@ {
        args[choose|k: int| 0 <= k < args.len() && args[k] != "-d"@ && args[k] != "--detached"@ && forall|j: int|
            0 <= j < k ==> (args[j] == "-d"@ || args[j] == "--detached"@)]
    } else {
        "unknown"@
    }
}

/// The command name to report as unsupported.
pub fn unsupported_command_name(args: &[String]) -> (r: String)
    ensures
        r@ == unsupported_name_spec(views(args@)),
{
    let ghost vs = views(args@);
    let mut k: usize = 0;
    while k < args.len() && (str_eq(args[k].as_str(), "-d") || str_eq(args[k].as_str(), "--detached"))
        invariant
            k <= args@.len(),
            vs == views(args@),
            forall|j: int| 0 <= j < k ==> (vs[j] == "-d"@ || vs[j] == "--detached"@),
        decreases args@.len() - k,
    {
        k += 1;
    }
    if k < args.len() {
        proof {
            let c = choose|c: int| 0 <= c < vs.len() && vs[c] != "-d"@ && vs[c] != "--detached"@ && forall|j: int|
                0 <= j < c ==> (vs[j] == "-d"@ || vs[j] == "--detached"@);
            assert(0 <= k < vs.len() && vs[k as int] != "-d"@ && vs[k as int] != "--detached"@);
            if c < k {
                assert(vs[c] == "-d"@ || vs[c] == "--detached"@);
            } else if c > k {
                assert(vs[k as int] == "-d"@ || vs[k as int] == "--detached"@);
            }
        }
        args[k].clone()
    } else {
        proof {
            assert forall|c: int| 0 <= c < vs.len() implies !(vs[c] != "-d"@ && vs[c] != "--detached"@) by {}
        }
        owned("unknown")
    }
}

/// What an invocation does: run as a session server, or run a built-in
/// command.
pub enum TmuxRun {
    Server(TmuxServerConfig),
    Builtin { command: TmuxCommand, action: BuiltinAction, args: Vec<String> },
}

/// Decides what an invocation does; `cwd` is the working directory a
/// session server records.
pub fn run(args: TmuxArgs, cwd: String) -> (r: Result<TmuxRun, TmuxError>)
    ensures
        args.internal_server ==> match args.internal_session_name {
            None => r matches Err(e) && e.kind == TmuxErrorKind::InvalidInput,
            Some(n) => r matches Ok(TmuxRun::Server(c)) && c.session_name@ == n@ && c.cwd@ == cwd@,
        },
        !args.internal_server ==> match builtin_action_spec(parse_spec(views(args.args@)), views(args.args@), args.detached) {
            Some(a) => r matches Ok(TmuxRun::Builtin { command, action, args: v }) && command == parse_spec(
                views(args.args@),
            ) && action == a && views(v@) == views(args.args@),
            None => r matches Err(e) && e.kind == TmuxErrorKind::Unsupported && e.message@
                == "暂不支持的 tmux 命令："@ + unsupported_name_spec(views(args.args@)),
        },
{
    if args.internal_server {
        return match TmuxServerConfig::from_args(args, cwd) {
            Ok(c) => Ok(TmuxRun::Server(c)),
            Err(e) => Err(e),
        };
    }
    let command = TmuxCommand::parse(&args.args);
    match builtin_action(&command, &args.args, args.detached) {
        Some(action) => Ok(TmuxRun::Builtin { command, action, args: args.args }),
        None => {
            let name = unsupported_command_name(&args.args);
            Err(TmuxError::new(TmuxErrorKind::Unsupported, unsupported_command_hint(name.as_str())))
        },
    }
}

} // verus!
