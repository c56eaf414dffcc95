//! Advice shown when a tmux invocation fails, chosen from its arguments
//! and exit code.
use vstd::prelude::*;

use crate::args::{any_arg, any_arg_spec};
use crate::messages::native_tool_not_found_hint;
use crate::text::{
    chars_of, join_strings, join_with, owned, push_signed_decimal, push_str, signed_decimal,
    str_eq, str_starts_with, views,
};

verus! {

pub open spec fn detached_names() -> Seq<Seq<char>> {
    seq!["-d"@, "--detached"@]
}

pub open spec fn list_sessions_names() -> Seq<Seq<char>> {
    seq!["list-sessions"@, "ls"@]
}

pub open spec fn attach_names() -> Seq<Seq<char>> {
    seq!["attach"@, "attach-session"@]
}

pub open spec fn new_session_names() -> Seq<Seq<char>> {
    seq!["new"@, "new-session"@]
}

pub open spec fn has_detached_spec(args: Seq<Seq<char>>) -> bool {
    any_arg_spec(args, detached_names())
}

pub open spec fn new_session_spec(args: Seq<Seq<char>>) -> bool {
    any_arg_spec(args, new_session_names())
}

pub open spec fn attach_spec(args: Seq<Seq<char>>) -> bool {
    any_arg_spec(args, attach_names())
}

pub open spec fn list_sessions_spec(args: Seq<Seq<char>>) -> bool {
    any_arg_spec(args, list_sessions_names())
}

/// `-t`, `--target-session`, `-tNAME` or `--target-session=NAME`.
pub open spec fn is_target_arg(arg: Seq<char>) -> bool {
    ||| arg == "-t"@
    ||| arg == "--target-session"@
    ||| ("-t"@.is_prefix_of(arg) && arg.len() > 2)
    ||| "--target-session="@.is_prefix_of(arg)
}

pub open spec fn attach_has_target_spec(args: Seq<Seq<char>>) -> bool {
    exists|i: int| 0 <= i < args.len() && is_target_arg(#[trigger] args[i])
}

pub open spec fn detached_without_command_spec(args: Seq<Seq<char>>) -> bool {
    has_detached_spec(args) && forall|i: int| 0 <= i < args.len() ==> (#[trigger] args[i] == "-d"@
        || args[i] == "--detached"@)
}

/// The failure message: `"{scope} 失败（退出码 {exit_code}）：{detail}"`.
pub fn tmux_failure_message(scope: &str, exit_code: i32, detail: &str) -> (r: String)
    ensures
        r@ == scope@ + " 失败（退出码 "@ + signed_decimal(exit_code as int) + "）："@ + detail@,
{
    let mut s = owned(scope);
    push_str(&mut s, " 失败（退出码 ");
    push_signed_decimal(&mut s, exit_code);
    push_str(&mut s, "）：");
    push_str(&mut s, detail);
    s
}

/// The advice given when the tmux program cannot be started.
pub fn tmux_launch_failure_hint() -> (r: String)
    ensures
        r@ == "未找到本机 "@ + "tmux"@ + " 命令，请确认已安装并位于 PATH 中。"@,
{
    native_tool_not_found_hint("tmux")
}

/// Whether `-d` or `--detached` is among the arguments.
pub fn tmux_has_detached_arg(args: &[String]) -> (r: bool)
    ensures
        r == has_detached_spec(views(args@)),
{
    let names: [&str; 2] = ["-d", "--detached"];
    let r = any_arg(args, &names);
    assert(names@.map_values(|n: &str| n@) =~= detached_names());
    r
}

/// Whether `new` or `new-session` is among the arguments.
pub fn is_tmux_new_session_command(args: &[String]) -> (r: bool)
    ensures
        r == new_session_spec(views(args@)),
{
    let names: [&str; 2] = ["new", "new-session"];
    let r = any_arg(args, &names);
    assert(names@.map_values(|n: &str| n@) =~= new_session_names());
    r
}

/// Whether `attach` or `attach-session` is among the arguments.
pub fn is_tmux_attach_command(args: &[String]) -> (r: bool)
    ensures
        r == attach_spec(views(args@)),
{
    let names: [&str; 2] = ["attach", "attach-session"];
    let r = any_arg(args, &names);
    assert(names@.map_values(|n: &str| n@) =~= attach_names());
    r
}

/// Whether `list-sessions` or `ls` is among the arguments.
pub fn is_tmux_list_sessions_command(args: &[String]) -> (r: bool)
    ensures
        r == list_sessions_spec(views(args@)),
{
    let names: [&str; 2] = ["list-sessions", "ls"];
    let r = any_arg(args, &names);
    assert(names@.map_values(|n: &str| n@) =~= list_sessions_names());
    r
}

/// Whether some argument names a target session.
pub fn tmux_attach_has_target(args: &[String]) -> (r: bool)
    ensures
        r == attach_has_target_spec(views(args@)),
{
    let ghost vs = views(args@);
    let mut i: usize = 0;
    while i < args.len()
        invariant
            i <= args.len(),
            vs == views(args@),
            forall|j: int| 0 <= j < i ==> !is_target_arg(#[trigger] vs[j]),
        decreases args.len() - i,
    {
        let arg = args[i].as_str();
        let n = chars_of(arg).len();
        if str_eq(arg, "-t") || str_eq(arg, "--target-session") || (str_starts_with(arg, "-t") && n
            > 2) || str_starts_with(arg, "--target-session=") {
            assert(is_target_arg(vs[i as int]));
            return true;
        }
        i += 1;
    }
    false
}

/// `attach` without a target session.
pub fn is_tmux_attach_without_target(args: &[String]) -> (r: bool)
    ensures
        r == (attach_spec(views(args@)) && !attach_has_target_spec(views(args@))),
{
    is_tmux_attach_command(args) && !tmux_attach_has_target(args)
}

/// `-d`/`--detached` given, but no new-session command.
pub fn is_tmux_detached_without_new_session(args: &[String]) -> (r: bool)
    ensures
        r == (has_detached_spec(views(args@)) && !new_session_spec(views(args@))),
{
    tmux_has_detached_arg(args) && !is_tmux_new_session_command(args)
}

/// Only `-d`/`--detached` flags, no command at all.
pub fn is_tmux_detached_without_tmux_command(args: &[String]) -> (r: bool)
    ensures
        r == detached_without_command_spec(views(args@)),
{
    if !tmux_has_detached_arg(args) {
        return false;
    }
    let ghost vs = views(args@);
    let mut i: usize = 0;
    while i < args.len()
        invariant
            i <= args.len(),
            vs == views(args@),
            forall|j: int| 0 <= j < i ==> (#[trigger] vs[j] == "-d"@ || vs[j] == "--detached"@),
        decreases args.len() - i,
    {
        let arg = args[i].as_str();
        if !(str_eq(arg, "-d") || str_eq(arg, "--detached")) {
            assert(!(vs[i as int] == "-d"@ || vs[i as int] == "--detached"@));
            return false;
        }
        i += 1;
    }
    true
}

pub open spec fn hint_detached_only() -> Seq<char> {
    "你仅使用了 --detached/ -d 且未带会话子命令。建议改为 `terman-tmux --detached new -s <name>` 或先确认当前参数。"@
}

pub open spec fn hint_detached_without_new() -> Seq<char> {
    "你使用了 -d/--detached，但未与 new/new-session 组合。当前会话未新增时该参数常被透传下发，建议改用：terman-tmux new -d -s <name> 或 terman-tmux --detached new -s <name>。"@
}

pub open spec fn hint_attach_without_target() -> Seq<char> {
    "你执行了 tmux attach 但未显式指定会话（-t）。建议：terman-tmux attach -t <session-name>；或先运行 terman-tmux list-sessions 查看可用会话。"@
}

pub open spec fn hint_list_sessions_failed() -> Seq<char> {
    "你执行 list-sessions 失败，常见为用户权限或 tmux 服务端无法启动。可先执行 `tmux -v` 输出调试信息，或重试 `terman-tmux list-sessions`。"@
}

pub open spec fn hint_attach_failed() -> Seq<char> {
    "attach 指定了会话但命令返回 1，常见因为目标会话不存在。请先运行 terman-tmux list-sessions，确认会话名后重试。"@
}

pub open spec fn hint_new_session_failed() -> Seq<char> {
    "新建会话命令返回 1，常见为会话名冲突或会话无法创建。建议先运行 terman-tmux list-sessions 确认现有会话，再换名重试。"@
}

/// The advice for an exit code when nothing more specific applies.
pub open spec fn default_hint_spec(exit_code: i32) -> Seq<char> {
    if exit_code == 1 {
        "常见失败原因：参数错误、会话不存在、或 tmux 当前状态不允许该操作。建议确认参数后重试。"@
    } else if exit_code == 2 {
        "常见失败原因：tmux 无法执行该命令或权限受限。建议检查可执行文件与文件系统权限。"@
    } else if exit_code == 126 {
        "tmux 可执行文件不可执行。可先确认 `tmux` 的权限（chmod +x 或重新安装）。"@
    } else if exit_code == 127 {
        "未检测到本机 tmux 命令。请先确认本机安装路径。"@
    } else if exit_code == 130 {
        "tmux 被用户中断（Ctrl-C）。如命令应当持久运行可改为后台启动并检查参数。"@
    } else {
        "建议先用最小参数复现，或结合 `tmux` 原生命令进行排查。"@
    }
}

/// The pieces of advice for `args` and `exit_code`, in order.
pub open spec fn runtime_hint_list(args: Seq<Seq<char>>, exit_code: i32) -> Seq<Seq<char>> {
    let first = if detached_without_command_spec(args) {
        seq![hint_detached_only()]
    } else {
        Seq::empty()
    };
    let second = if has_detached_spec(args) && !new_session_spec(args) {
        seq![hint_detached_without_new()]
    } else if attach_spec(args) && !attach_has_target_spec(args) {
        seq![hint_attach_without_target()]
    } else if list_sessions_spec(args) && exit_code == 1 {
        seq![hint_list_sessions_failed()]
    } else if attach_spec(args) && exit_code == 1 {
        seq![hint_attach_failed()]
    } else if new_session_spec(args) && exit_code == 1 {
        seq![hint_new_session_failed()]
    } else {
        Seq::empty()
    };
    if first.len() + second.len() == 0 {
        seq![default_hint_spec(exit_code)]
    } else {
        first + second
    }
}

/// The advice for an exit code when nothing more specific applies.
pub fn default_runtime_hint(exit_code: i32) -> (r: String)
    ensures
        r@ == default_hint_spec(exit_code),
{
    if exit_code == 1 {
        owned("常见失败原因：参数错误、会话不存在、或 tmux 当前状态不允许该操作。建议确认参数后重试。")
    } else if exit_code == 2 {
        owned("常见失败原因：tmux 无法执行该命令或权限受限。建议检查可执行文件与文件系统权限。")
    } else if exit_code == 126 {
        owned("tmux 可执行文件不可执行。可先确认 `tmux` 的权限（chmod +x 或重新安装）。")
    } else if exit_code == 127 {
        owned("未检测到本机 tmux 命令。请先确认本机安装路径。")
    } else if exit_code == 130 {
        owned("tmux 被用户中断（Ctrl-C）。如命令应当持久运行可改为后台启动并检查参数。")
    } else {
        owned("建议先用最小参数复现，或结合 `tmux` 原生命令进行排查。")
    }
}

/// The advice for a failed invocation, one piece per line.
pub fn tmux_runtime_hints(args: &[String], exit_code: i32) -> (r: String)
    ensures
        r@ == join_with(runtime_hint_list(views(args@), exit_code), "\n"@),
{
    let mut hints: Vec<String> = Vec::new();
    if is_tmux_detached_without_tmux_command(args) {
        hints.push(owned(
            "你仅使用了 --detached/ -d 且未带会话子命令。建议改为 `terman-tmux --detached new -s <name>` 或先确认当前参数。",
        ));
    }
    let ghost first = views(hints@);
    if is_tmux_detached_without_new_session(args) {
        hints.push(owned(
            "你使用了 -d/--detached，但未与 new/new-session 组合。当前会话未新增时该参数常被透传下发，建议改用：terman-tmux new -d -s <name> 或 terman-tmux --detached new -s <name>。",
        ));
    } else if is_tmux_attach_without_target(args) {
        hints.push(owned(
            "你执行了 tmux attach 但未显式指定会话（-t）。建议：terman-tmux attach -t <session-name>；或先运行 terman-tmux list-sessions 查看可用会话。",
        ));
    } else if is_tmux_list_sessions_command(args) && exit_code == 1 {
        hints.push(owned(
            "你执行 list-sessions 失败，常见为用户权限或 tmux 服务端无法启动。可先执行 `tmux -v` 输出调试信息，或重试 `terman-tmux list-sessions`。",
        ));
    } else if is_tmux_attach_command(args) && exit_code == 1 {
        hints.push(owned(
            "attach 指定了会话但命令返回 1，常见因为目标会话不存在。请先运行 terman-tmux list-sessions，确认会话名后重试。",
        ));
    } else if is_tmux_new_session_command(args) && exit_code == 1 {
        hints.push(owned(
            "新建会话命令返回 1，常见为会话名冲突或会话无法创建。建议先运行 terman-tmux list-sessions 确认现有会话，再换名重试。",
        ));
    }
    if hints.len() == 0 {
        hints.push(default_runtime_hint(exit_code));
    }
    proof {
        let list = runtime_hint_list(views(args@), exit_code);
        assert(views(hints@) =~= list);
    }
    join_strings(&hints, "\n")
}

} // verus!
