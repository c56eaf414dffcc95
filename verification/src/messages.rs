//! The messages shown to the user when a command cannot be carried out.
use vstd::prelude::*;

use crate::text::{concat2, concat3, owned, push_decimal, push_signed_decimal, push_str, decimal, signed_decimal};

verus! {

/// No target session was given.
pub fn target_required_hint() -> (r: String)
    ensures
        r@ == "需要通过 -t <session> 指定目标会话。"@,
{
    owned("需要通过 -t <session> 指定目标会话。")
}

/// No session is called `target`.
pub fn session_not_found_hint(target: &str) -> (r: String)
    ensures
        r@ == "未找到会话："@ + target@,
{
    concat2("未找到会话：", target)
}

/// A session called `name` already exists.
pub fn session_exists_hint(name: &str) -> (r: String)
    ensures
        r@ == "会话已存在："@ + name@,
{
    concat2("会话已存在：", name)
}

/// No session name was given.
pub fn session_name_required_hint() -> (r: String)
    ensures
        r@ == "需要通过 -s <name> 指定会话名。"@,
{
    owned("需要通过 -s <name> 指定会话名。")
}

/// A session called `name` was created.
pub fn session_created_hint(name: &str) -> (r: String)
    ensures
        r@ == "已创建会话："@ + name@,
{
    concat2("已创建会话：", name)
}

/// `send-keys` was given no keys.
pub fn keys_required_hint() -> (r: String)
    ensures
        r@ == "需要提供要发送的按键。"@,
{
    owned("需要提供要发送的按键。")
}

/// The `target` window numbered `index` does not exist.
pub fn window_not_found_hint(target: &str, index: u64) -> (r: String)
    ensures
        r@ == "未找到"@ + target@ + "窗口："@ + decimal(index as nat),
{
    let mut s = concat3("未找到", target, "窗口：");
    push_decimal(&mut s, index);
    s
}

/// Pane `pane` of the `target` window `window` does not exist.
pub fn pane_not_found_hint(target: &str, window: u32, pane: u32) -> (r: String)
    ensures
        r@ == "未找到"@ + target@ + "窗格："@ + decimal(window as nat) + "."@ + decimal(pane as nat),
{
    let mut s = concat3("未找到", target, "窗格：");
    push_decimal(&mut s, window as u64);
    push_str(&mut s, ".");
    push_decimal(&mut s, pane as u64);
    s
}

/// No buffer is called `name`.
pub fn buffer_not_found_hint(name: &str) -> (r: String)
    ensures
        r@ == "未找到缓冲区："@ + name@,
{
    concat2("未找到缓冲区：", name)
}

/// The paste buffer cannot take data now.
pub fn buffer_unavailable_hint() -> (r: String)
    ensures
        r@ == "缓冲区暂不可用。"@,
{
    owned("缓冲区暂不可用。")
}

/// `set-buffer` was given no data.
pub fn buffer_data_required_hint() -> (r: String)
    ensures
        r@ == "需要提供缓冲区内容。"@,
{
    owned("需要提供缓冲区内容。")
}

/// `name` is not a command this program carries out.
pub fn unsupported_command_hint(name: &str) -> (r: String)
    ensures
        r@ == "暂不支持的 tmux 命令："@ + name@,
{
    concat2("暂不支持的 tmux 命令：", name)
}

/// The program `tool` was not found.
pub fn native_tool_not_found_hint(tool: &str) -> (r: String)
    ensures
        r@ == "未找到本机 "@ + tool@ + " 命令，请确认已安装并位于 PATH 中。"@,
{
    concat3("未找到本机 ", tool, " 命令，请确认已安装并位于 PATH 中。")
}

/// The session server was started without a session name.
pub fn internal_server_session_required_hint() -> (r: String)
    ensures
        r@ == "会话服务需要 --__session-name 指定会话名。"@,
{
    owned("会话服务需要 --__session-name 指定会话名。")
}

/// The session server ended with `code`.
pub fn internal_server_exited_hint(code: i32) -> (r: String)
    ensures
        r@ == "tmux 会话服务已退出（退出码 "@ + signed_decimal(code as int) + "）。"@,
{
    let mut s = owned("tmux 会话服务已退出（退出码 ");
    push_signed_decimal(&mut s, code);
    push_str(&mut s, "）。");
    s
}

/// `resize-pane` was given neither a size nor `-Z`.
pub fn pane_size_required_hint() -> (r: String)
    ensures
        r@ == "需要通过 -x/-y 指定窗格大小，或使用 -Z 缩放。"@,
{
    owned("需要通过 -x/-y 指定窗格大小，或使用 -Z 缩放。")
}

/// The session server answered with something the command did not expect.
pub fn unexpected_response_hint(detail: &str) -> (r: String)
    ensures
        r@ == "tmux 会话服务返回了意外的响应："@ + detail@,
{
    concat2("tmux 会话服务返回了意外的响应：", detail)
}


/// No session is running.
pub fn no_sessions_hint() -> (r: String)
    ensures
        r@ == "没有正在运行的 tmux 会话。"@,
{
    owned("没有正在运行的 tmux 会话。")
}

/// Session `name` was ended.
pub fn session_killed_hint(name: &str) -> (r: String)
    ensures
        r@ == "已结束会话："@ + name@,
{
    concat2("已结束会话：", name)
}

/// One line of `list-sessions`: the session and its number of windows.
pub fn session_list_entry(name: &str, windows: u32) -> (r: String)
    ensures
        r@ == name@ + ": "@ + decimal(windows as nat) + " windows"@,
{
    let mut s = concat2(name, ": ");
    push_decimal(&mut s, windows as u64);
    push_str(&mut s, " windows");
    s
}

/// One line of `list-clients`: the session and how many clients are
/// attached to it.
pub fn client_list_entry(name: &str, clients: u32) -> (r: String)
    ensures
        r@ == name@ + ": "@ + decimal(clients as nat) + " clients"@,
{
    let mut s = concat2(name, ": ");
    push_decimal(&mut s, clients as u64);
    push_str(&mut s, " clients");
    s
}

/// The text of one pane in `list-panes`: `target:window.pane name`,
/// marked when it is the active pane.
pub open spec fn pane_entry_spec(target: Seq<char>, window: u32, pane: u32, name: Seq<char>, active: bool) -> Seq<char> {
    target + ":"@ + decimal(window as nat) + "."@ + decimal(pane as nat) + " "@ + name + if active {
        " (active)"@
    } else {
        Seq::empty()
    }
}

pub fn pane_list_entry(target: &str, window: u32, pane: u32, name: &str, active: bool) -> (r: String)
    ensures
        r@ == pane_entry_spec(target@, window, pane, name@, active),
{
    let mut s = concat2(target, ":");
    push_decimal(&mut s, window as u64);
    push_str(&mut s, ".");
    push_decimal(&mut s, pane as u64);
    push_str(&mut s, " ");
    push_str(&mut s, name);
    if active {
        push_str(&mut s, " (active)");
    }
    proof {
        if !active {
            assert(s@ =~= pane_entry_spec(target@, window, pane, name@, active));
        }
    }
    s
}

/// One line of `list-buffers`: the name, the size and a preview.
pub fn buffer_list_item(name: &str, len: usize, preview: &str) -> (r: String)
    ensures
        r@ == name@ + ": "@ + decimal(len as nat) + " bytes: "@ + preview@,
{
    let mut s = concat2(name, ": ");
    push_decimal(&mut s, len as u64);
    push_str(&mut s, " bytes: ");
    push_str(&mut s, preview);
    s
}


/// No new window name was given.
pub fn window_name_required_hint() -> (r: String)
    ensures
        r@ == "需要提供新的窗口名。"@,
{
    owned("需要提供新的窗口名。")
}


/// Session `name` has used every window number.
pub fn window_numbers_exhausted_hint(name: &str) -> (r: String)
    ensures
        r@ == "会话的窗口编号已用尽："@ + name@,
{
    concat2("会话的窗口编号已用尽：", name)
}

} // verus!
