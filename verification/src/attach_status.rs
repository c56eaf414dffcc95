//! The status line of an attached client.
use vstd::prelude::*;

use crate::text::{decimal, join_strings, join_with, owned, push_char, push_decimal, push_str, views};

verus! {

/// A window in the status line: `[index:name]` for the active one,
/// `index:name` for the others.
pub open spec fn window_label_spec(index: u32, active: u32, name: Seq<char>) -> Seq<char> {
    if index == active {
        seq!['['] + decimal(index as nat) + seq![':'] + name + seq![']']
    } else {
        decimal(index as nat) + seq![':'] + name
    }
}

pub fn window_label(index: u32, active: u32, name: &str) -> (r: String)
    ensures
        r@ == window_label_spec(index, active, name@),
{
    let mut s = String::new();
    if index == active {
        push_char(&mut s, '[');
    }
    push_decimal(&mut s, index as u64);
    push_char(&mut s, ':');
    push_str(&mut s, name);
    if index == active {
        push_char(&mut s, ']');
    }
    proof {
        if index == active {
            assert(s@ =~= window_label_spec(index, active, name@));
        } else {
            assert(s@ =~= window_label_spec(index, active, name@));
        }
    }
    s
}

/// The labels of the windows, a missing name shown as `fallback`.
pub open spec fn window_labels_spec(
    active: u32,
    indexes: Seq<u32>,
    names: Seq<Seq<char>>,
    fallback: Seq<char>,
) -> Seq<Seq<char>> {
    Seq::new(
        indexes.len(),
        |k: int| window_label_spec(indexes[k], active, if k < names.len() { names[k] } else { fallback }),
    )
}

pub fn window_labels(active: u32, indexes: &[u32], names: &[String], fallback: &str) -> (r: Vec<String>)
    ensures
        views(r@) == window_labels_spec(active, indexes@, views(names@), fallback@),
{
    let mut out: Vec<String> = Vec::new();
    let mut k: usize = 0;
    while k < indexes.len()
        invariant
            k <= indexes@.len(),
            views(out@) == window_labels_spec(active, indexes@, views(names@), fallback@).take(k as int),
        decreases indexes@.len() - k,
    {
        let label = if k < names.len() {
            window_label(indexes[k], active, names[k].as_str())
        } else {
            window_label(indexes[k], active, fallback)
        };
        let ghost before = out@;
        out.push(label);
        proof {
            assert(views(out@) =~= views(before).push(label@));
            assert(window_labels_spec(active, indexes@, views(names@), fallback@).take(k + 1) =~= window_labels_spec(
                active,
                indexes@,
                views(names@),
                fallback@,
            ).take(k as int).push(label@));
        }
        k += 1;
    }
    proof {
        assert(window_labels_spec(active, indexes@, views(names@), fallback@).take(k as int) =~= window_labels_spec(
            active,
            indexes@,
            views(names@),
            fallback@,
        ));
    }
    out
}

/// The status line: `tmux <session> | <windows> | ? 帮助`.
pub open spec fn status_line_spec(session: Seq<char>, active: u32, indexes: Seq<u32>, names: Seq<Seq<char>>) -> Seq<char> {
    "tmux "@ + session + " | "@ + join_with(window_labels_spec(active, indexes, names, "-"@), " "@) + " | ? 帮助"@
}

pub fn status_line_text(session: &str, active: u32, indexes: &[u32], names: &[String]) -> (r: String)
    ensures
        r@ == status_line_spec(session@, active, indexes@, views(names@)),
{
    let labels = window_labels(active, indexes, names, "-");
    let windows = join_strings(&labels, " ");
    let mut s = owned("tmux ");
    push_str(&mut s, session);
    push_str(&mut s, " | ");
    push_str(&mut s, windows.as_str());
    push_str(&mut s, " | ? 帮助");
    proof {
        assert(s@ =~= status_line_spec(session@, active, indexes@, views(names@)));
    }
    s
}

/// The status while waiting for a key after the prefix.
pub fn prefix_status_hint() -> (r: String)
    ensures
        r@ == "tmux prefix | d 分离 · c 新窗口 · n/p 切换窗口 · % \" 分屏 · [ 复制 · ? 帮助"@,
{
    owned("tmux prefix | d 分离 · c 新窗口 · n/p 切换窗口 · % \" 分屏 · [ 复制 · ? 帮助")
}

/// The help line of the prefix keys.
pub open spec fn attach_help_spec() -> Seq<char> {
    "tmux 帮助 | c 新窗口 · n/p 下/上一个窗口 · 0-9 选择窗口 · l 上一个窗口 · w 窗口列表 · , 重命名窗口 · $ 重命名会话 · % \" 分屏 · o 下一个窗格 · 方向键 选择窗格 · Ctrl+方向键 调整窗格 · { } 交换窗格 · z 缩放 · X 关闭窗格 · x/& 关闭窗口 · [ 复制 · ] 粘贴 · : 命令 · d 分离"@
}

pub fn attach_help() -> (r: String)
    ensures
        r@ == attach_help_spec(),
{
    owned("tmux 帮助 | c 新窗口 · n/p 下/上一个窗口 · 0-9 选择窗口 · l 上一个窗口 · w 窗口列表 · , 重命名窗口 · $ 重命名会话 · % \" 分屏 · o 下一个窗格 · 方向键 选择窗格 · Ctrl+方向键 调整窗格 · { } 交换窗格 · z 缩放 · X 关闭窗格 · x/& 关闭窗口 · [ 复制 · ] 粘贴 · : 命令 · d 分离")
}

/// The question asked before a pane is closed.
pub fn kill_pane_confirm_status() -> (r: String)
    ensures
        r@ == "确认关闭当前窗格？(y/n)"@,
{
    owned("确认关闭当前窗格？(y/n)")
}

/// The question asked before a window is closed.
pub fn kill_window_confirm_status() -> (r: String)
    ensures
        r@ == "确认关闭当前窗口？(y/n)"@,
{
    owned("确认关闭当前窗口？(y/n)")
}


/// The rows left to the session when the last row shows the status line;
/// at least one.
pub fn rows_without_status(rows: u16) -> (r: u16)
    ensures
        r == if rows > 1 { (rows - 1) as u16 } else { 1u16 },
{
    if rows > 1 {
        rows - 1
    } else {
        1
    }
}

/// Whether `row` is the status row of a terminal `rows` high: the last.
pub fn is_status_row(row: u16, rows: u16) -> (r: bool)
    ensures
        r == (rows > 0 && row == rows - 1),
{
    rows > 0 && row == rows - 1
}

} // verus!
