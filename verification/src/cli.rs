//! The command-line arguments of the program.
use vstd::prelude::*;

verus! {

/// The program's arguments: `--detached`, the hidden session-server
/// options, and the tmux command with its arguments.
#[derive(Clone, Debug)]
pub struct TmuxArgs {
    pub detached: bool,
    pub internal_server: bool,
    pub internal_session_name: Option<String>,
    pub internal_endpoint_name: Option<String>,
    pub args: Vec<String>,
}

} // verus!
