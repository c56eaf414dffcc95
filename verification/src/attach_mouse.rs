//! Mouse clicks on the status line of an attached client: which window
//! label or the help prompt a column falls on.
use vstd::prelude::*;

use crate::attach_status::window_label;
use crate::attach_status::window_label_spec;
use crate::display_width::{str_width_spec, text_width};
use crate::text::{concat3, owned};
use crate::attach_window_list::{hit_at, TmuxWindowListLayout};
use crate::copy_mode::{MouseButton, MouseInput, MouseKind};

verus! {

/// `a + b`, kept to `u16::MAX`.
pub open spec fn sat_add16(a: int, b: int) -> int {
    if a + b > u16::MAX { u16::MAX as int } else { a + b }
}

/// The width of a text as `text_width` gives it.
pub open spec fn width16(s: Seq<char>) -> int {
    if str_width_spec(s) > u16::MAX { u16::MAX as int } else { str_width_spec(s) as int }
}

/// The end of a label that starts at `start` and is `width` wide, cut at
/// the terminal width when it is known.
pub open spec fn clipped_end_spec(start: int, width: int, max_width: Option<u16>) -> int {
    let end = sat_add16(start, width);
    match max_width {
        Some(m) => if end < m { end } else { m as int },
        None => end,
    }
}

pub fn clipped_end(start: u16, width: u16, max_width: Option<u16>) -> (r: u16)
    ensures
        r as int == clipped_end_spec(start as int, width as int, max_width),
{
    let end = start.saturating_add(width);
    match max_width {
        Some(m) => if end < m {
            end
        } else {
            m
        },
        None => end,
    }
}

/// The status line up to the first window label: `tmux <session> | `.
pub open spec fn status_prefix(session: Seq<char>) -> Seq<char> {
    "tmux "@ + session + " | "@
}

/// The label of the window at `k` in the status line.
pub open spec fn status_label(active: u32, indexes: Seq<u32>, names: Seq<Seq<char>>, k: int) -> Seq<char> {
    window_label_spec(indexes[k], active, if k < names.len() { names[k] } else { "-"@ })
}

/// The window whose label covers `column`, scanning labels from `k`,
/// the label at `k` starting at `offset`.
pub open spec fn status_scan(
    column: u16,
    active: u32,
    indexes: Seq<u32>,
    names: Seq<Seq<char>>,
    max_width: Option<u16>,
    k: int,
    offset: int,
) -> Option<u32>
    decreases indexes.len() - k,
{
    if k < 0 || k >= indexes.len() {
        None
    } else {
        let w = width16(status_label(active, indexes, names, k));
        let end = clipped_end_spec(offset, w, max_width);
        if offset <= column && (column as int) < end {
            Some(indexes[k])
        } else {
            status_scan(column, active, indexes, names, max_width, k + 1, sat_add16(offset, sat_add16(w, 1)))
        }
    }
}

/// The window whose label in the status line covers `column`.
pub open spec fn status_window_spec(
    column: u16,
    session: Seq<char>,
    active: u32,
    indexes: Seq<u32>,
    names: Seq<Seq<char>>,
    max_width: Option<u16>,
) -> Option<u32> {
    match max_width {
        Some(m) if column >= m => None,
        _ => status_scan(column, active, indexes, names, max_width, 0, width16(status_prefix(session))),
    }
}

fn status_label_at(active: u32, indexes: &[u32], names: &[String], k: usize) -> (r: String)
    requires
        k < indexes@.len(),
    ensures
        r@ == status_label(active, indexes@, crate::text::views(names@), k as int),
{
    if k < names.len() {
        window_label(indexes[k], active, names[k].as_str())
    } else {
        window_label(indexes[k], active, "-")
    }
}

/// The window whose label in the status line covers `column`.
pub fn status_window_at(
    column: u16,
    session_name: &str,
    active_window: u32,
    indexes: &[u32],
    names: &[String],
    max_width: Option<u16>,
) -> (r: Option<u32>)
    ensures
        r == status_window_spec(column, session_name@, active_window, indexes@, crate::text::views(names@), max_width),
{
    match max_width {
        Some(m) => if column >= m {
            return None;
        },
        None => {},
    }
    let ghost ns = crate::text::views(names@);
    let prefix = concat3("tmux ", session_name, " | ");
    let mut offset = text_width(prefix.as_str());
    let mut k: usize = 0;
    while k < indexes.len()
        invariant
            k <= indexes@.len(),
            ns == crate::text::views(names@),
            status_window_spec(column, session_name@, active_window, indexes@, ns, max_width) == status_scan(
                column,
                active_window,
                indexes@,
                ns,
                max_width,
                k as int,
                offset as int,
            ),
        decreases indexes@.len() - k,
    {
        let label = status_label_at(active_window, indexes, names, k);
        let w = text_width(label.as_str());
        let end = clipped_end(offset, w, max_width);
        if column >= offset && column < end {
            return Some(indexes[k]);
        }
        offset = offset.saturating_add(w.saturating_add(1));
        k += 1;
    }
    None
}

/// Where the help prompt after the window labels starts.
pub open spec fn prompt_start_from(
    active: u32,
    indexes: Seq<u32>,
    names: Seq<Seq<char>>,
    k: int,
    width: int,
) -> int
    decreases indexes.len() - k,
{
    if k < 0 || k >= indexes.len() {
        sat_add16(width, 3)
    } else {
        let w1 = sat_add16(width, width16(status_label(active, indexes, names, k)));
        let w2 = if k + 1 < indexes.len() { sat_add16(w1, 1) } else { w1 };
        prompt_start_from(active, indexes, names, k + 1, w2)
    }
}

pub fn status_prompt_start(session_name: &str, active_window: u32, indexes: &[u32], names: &[String]) -> (r: u16)
    ensures
        r as int == prompt_start_from(
            active_window,
            indexes@,
            crate::text::views(names@),
            0,
            width16(status_prefix(session_name@)),
        ),
{
    let ghost ns = crate::text::views(names@);
    let prefix = concat3("tmux ", session_name, " | ");
    let mut width = text_width(prefix.as_str());
    let mut k: usize = 0;
    while k < indexes.len()
        invariant
            k <= indexes@.len(),
            ns == crate::text::views(names@),
            prompt_start_from(active_window, indexes@, ns, 0, width16(status_prefix(session_name@)))
                == prompt_start_from(active_window, indexes@, ns, k as int, width as int),
        decreases indexes@.len() - k,
    {
        let label = status_label_at(active_window, indexes, names, k);
        width = width.saturating_add(text_width(label.as_str()));
        if k + 1 < indexes.len() {
            width = width.saturating_add(1);
        }
        k += 1;
    }
    width.saturating_add(3)
}

/// Whether `column` falls on the help prompt.
pub open spec fn help_at_spec(
    column: u16,
    session: Seq<char>,
    active: u32,
    indexes: Seq<u32>,
    names: Seq<Seq<char>>,
    max_width: Option<u16>,
) -> bool {
    let start = prompt_start_from(active, indexes, names, 0, width16(status_prefix(session)));
    column >= start && match max_width {
        Some(m) => start < m && column < m,
        None => true,
    }
}

pub fn status_help_at(
    column: u16,
    session_name: &str,
    active_window: u32,
    indexes: &[u32],
    names: &[String],
    max_width: Option<u16>,
) -> (r: bool)
    ensures
        r == help_at_spec(column, session_name@, active_window, indexes@, crate::text::views(names@), max_width),
{
    let start = status_prompt_start(session_name, active_window, indexes, names);
    column >= start && match max_width {
        Some(m) => start < m && column < m,
        None => true,
    }
}

/// What a click on the status line selects.
#[derive(Clone, Copy, Debug, PartialEq, Eq, Structural)]
pub enum StatusClickTarget {
    Window(u32),
    Help,
}

/// What a click at `column` hits: a window label, else the help prompt.
pub fn clicked_status_target(
    column: u16,
    session_name: &str,
    active_window: u32,
    indexes: &[u32],
    names: &[String],
    max_width: Option<u16>,
) -> (r: Option<StatusClickTarget>)
    ensures
        r == match status_window_spec(column, session_name@, active_window, indexes@, crate::text::views(names@), max_width) {
            Some(i) => Some(StatusClickTarget::Window(i)),
            None => if help_at_spec(column, session_name@, active_window, indexes@, crate::text::views(names@), max_width) {
                Some(StatusClickTarget::Help)
            } else {
                None
            },
        },
{
    match status_window_at(column, session_name, active_window, indexes, names, max_width) {
        Some(index) => Some(StatusClickTarget::Window(index)),
        None => {
            if status_help_at(column, session_name, active_window, indexes, names, max_width) {
                Some(StatusClickTarget::Help)
            } else {
                None
            }
        },
    }
}

/// The mouse state of an attached client: the window list it shows, and
/// whether the next button release belongs to a click already handled.
pub struct AttachMouseState {
    pub window_list: Option<TmuxWindowListLayout>,
    pub suppress_button_release: bool,
}

/// What the client does for a mouse event.
#[derive(Clone, Copy, Debug, PartialEq, Eq, Structural)]
pub enum MouseStep {
    /// Nothing.
    Ignore,
    /// Show the current status again.
    RenderCurrent,
    /// Pass the event to the pane under it.
    ForwardPane,
    /// Select the next (`true`) or previous window, then show the status.
    NeighborWindow(bool),
    /// Select this window, then show the status.
    Select(u32),
    /// Ask the session for its windows and see what the click at this
    /// column hits; a drag only selects windows.
    StatusClick { column: u16, drag: bool },
    /// Show the window list, then record its layout.
    ShowWindowList,
    /// Show the help line.
    Help,
}

impl AttachMouseState {
    pub fn new() -> (r: AttachMouseState)
        ensures
            r.window_list is None,
            !r.suppress_button_release,
    {
        AttachMouseState { window_list: None, suppress_button_release: false }
    }

    /// Records the layout of the window list just shown.
    pub fn set_window_list(&mut self, layout: TmuxWindowListLayout)
        ensures
            final(self).window_list == Some(layout),
            final(self).suppress_button_release == old(self).suppress_button_release,
    {
        self.window_list = Some(layout);
    }

    fn click(&mut self, column: u16, drag: bool) -> (r: MouseStep)
        ensures
            final(self).suppress_button_release == old(self).suppress_button_release,
            match old(self).window_list {
                Some(l) => final(self).window_list is None && match hit_at(l.hits@, column, 0) {
                    Some(i) => r == MouseStep::Select(i),
                    None => r == MouseStep::RenderCurrent,
                },
                None => final(self).window_list is None && r == (MouseStep::StatusClick { column, drag }),
            },
    {
        match self.window_list.take() {
            Some(l) => match l.window_at(column) {
                Some(i) => MouseStep::Select(i),
                None => MouseStep::RenderCurrent,
            },
            None => MouseStep::StatusClick { column, drag },
        }
    }

    /// Handles a mouse event; `on_status_row` tells whether it is on the
    /// status line.
    pub fn handle_mouse(&mut self, event: MouseInput, on_status_row: bool) -> (r: MouseStep)
        ensures
            (event.kind is Up && old(self).suppress_button_release) ==> r == MouseStep::Ignore
                && !final(self).suppress_button_release,
            !(event.kind is Up && old(self).suppress_button_release) && !on_status_row ==> final(self).window_list
                is None && if old(self).window_list is Some {
                r == MouseStep::RenderCurrent
            } else {
                r == MouseStep::ForwardPane
            },
            !(event.kind is Up && old(self).suppress_button_release) && on_status_row ==> match event.kind {
                MouseKind::ScrollUp | MouseKind::ScrollLeft => r == MouseStep::NeighborWindow(false)
                    && final(self).window_list is None,
                MouseKind::ScrollDown | MouseKind::ScrollRight => r == MouseStep::NeighborWindow(true)
                    && final(self).window_list is None,
                MouseKind::Down(MouseButton::Right) => r == MouseStep::ShowWindowList,
                MouseKind::Down(MouseButton::Middle) => r == MouseStep::Help && final(self).window_list is None,
                MouseKind::Down(MouseButton::Left) | MouseKind::Up(MouseButton::Left) | MouseKind::Drag(
                    MouseButton::Left,
                ) => match old(self).window_list {
                    Some(l) => match hit_at(l.hits@, event.column, 0) {
                        Some(i) => r == MouseStep::Select(i),
                        None => r == MouseStep::RenderCurrent,
                    },
                    None => r == (MouseStep::StatusClick {
                        column: event.column,
                        drag: event.kind == MouseKind::Drag(MouseButton::Left),
                    }),
                },
                _ => r == MouseStep::Ignore,
            },
    {
        let is_up = match event.kind {
            MouseKind::Up(_) => true,
            _ => false,
        };
        if is_up && self.suppress_button_release {
            self.suppress_button_release = false;
            return MouseStep::Ignore;
        }
        if !on_status_row {
            let open = self.window_list.is_some();
            if open {
                match event.kind {
                    MouseKind::Down(_) | MouseKind::Drag(_) => self.suppress_button_release = true,
                    _ => {},
                }
                self.window_list = None;
                return MouseStep::RenderCurrent;
            }
            self.window_list = None;
            return MouseStep::ForwardPane;
        }
        match event.kind {
            MouseKind::ScrollUp | MouseKind::ScrollLeft => {
                self.window_list = None;
                MouseStep::NeighborWindow(false)
            },
            MouseKind::ScrollDown | MouseKind::ScrollRight => {
                self.window_list = None;
                MouseStep::NeighborWindow(true)
            },
            MouseKind::Down(MouseButton::Left) => {
                self.suppress_button_release = true;
                self.click(event.column, false)
            },
            MouseKind::Up(MouseButton::Left) => self.click(event.column, false),
            MouseKind::Drag(MouseButton::Left) => {
                self.suppress_button_release = true;
                self.click(event.column, true)
            },
            MouseKind::Down(MouseButton::Right) => MouseStep::ShowWindowList,
            MouseKind::Down(MouseButton::Middle) => {
                self.window_list = None;
                MouseStep::Help
            },
            _ => MouseStep::Ignore,
        }
    }
}

} // verus!
