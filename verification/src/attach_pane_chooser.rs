//! The pane chooser: the panes of the window numbered 0..9 on the status
//! line, picked by their digit within a short time.
use vstd::prelude::*;

use crate::attach_keys::{KeyCode, KeyInput};
use crate::text::{concat2, decimal, join_strings, join_with, push_char, push_decimal, views};

verus! {

/// An open chooser: the window, `(label, pane)` choices, and its status.
pub struct ActivePaneChooser {
    pub window: u32,
    pub choices: Vec<(u32, u32)>,
    pub status: String,
}

pub struct PaneChooserState {
    pub active: Option<ActivePaneChooser>,
}

/// What a key did to the chooser.
#[derive(Clone, Copy, Debug, PartialEq, Eq, Structural)]
pub enum ChooserStep {
    /// No chooser is open (or it timed out): the key goes on.
    NotActive,
    /// The chooser was closed: show the current status.
    Closed,
    /// Select this pane, then show the current status.
    Select { window: u32, pane: u32 },
    /// The key was taken, nothing else happens.
    Handled,
}

/// One choice on the status line: `label:#pane`, starred when active.
pub open spec fn choice_text(label: u32, pane: u32, active_pane: u32) -> Seq<char> {
    decimal(label as nat) + seq![':', '#'] + decimal(pane as nat) + if pane == active_pane { seq!['*'] } else { Seq::empty() }
}

fn choice_label(label: u32, pane: u32, active_pane: u32) -> (r: String)
    ensures
        r@ == choice_text(label, pane, active_pane),
{
    let mut s = String::new();
    push_decimal(&mut s, label as u64);
    push_char(&mut s, ':');
    push_char(&mut s, '#');
    push_decimal(&mut s, pane as u64);
    if pane == active_pane {
        push_char(&mut s, '*');
    }
    proof {
        assert(s@ =~= choice_text(label, pane, active_pane));
    }
    s
}

/// The number of choices: at most ten panes.
pub open spec fn choice_count(n: nat) -> nat {
    if n < 10 { n } else { 10 }
}

fn find_choice(choices: &Vec<(u32, u32)>, label: u32) -> (r: Option<usize>)
    ensures
        match r {
            Some(k) => k < choices@.len() && choices@[k as int].0 == label && forall|j: int| 0 <= j < k ==> choices@[j].0 != label,
            None => forall|j: int| 0 <= j < choices@.len() ==> choices@[j].0 != label,
        },
{
    let mut k: usize = 0;
    while k < choices.len()
        invariant
            k <= choices@.len(),
            forall|j: int| 0 <= j < k ==> choices@[j].0 != label,
        decreases choices@.len() - k,
    {
        if choices[k].0 == label {
            return Some(k);
        }
        k += 1;
    }
    None
}

impl PaneChooserState {
    pub fn new() -> (r: PaneChooserState)
        ensures
            r.active is None,
    {
        PaneChooserState { active: None }
    }

    /// Opens the chooser over the first ten panes of `window`; gives the
    /// status line to show.
    pub fn open(&mut self, window: u32, active_pane: u32, pane_indexes: &[u32]) -> (r: String)
        ensures
            final(self).active matches Some(a) && a.window == window && a.choices@.len() == choice_count(
                pane_indexes@.len(),
            ) && (forall|k: int| 0 <= k < a.choices@.len() ==> #[trigger] a.choices@[k] == (k as u32, pane_indexes@[k]))
                && a.status@ == r@,
            r@ == "tmux 选择窗格 | "@ + join_with(
                Seq::new(
                    choice_count(pane_indexes@.len()),
                    |k: int| choice_text(k as u32, pane_indexes@[k], active_pane),
                ),
                " "@,
            ),
    {
        let n: usize = if pane_indexes.len() < 10 {
            pane_indexes.len()
        } else {
            10
        };
        let ghost texts_spec = Seq::new(
            choice_count(pane_indexes@.len()),
            |k: int| choice_text(k as u32, pane_indexes@[k], active_pane),
        );
        let mut choices: Vec<(u32, u32)> = Vec::new();
        let mut texts: Vec<String> = Vec::new();
        let mut k: usize = 0;
        while k < n
            invariant
                k <= n <= pane_indexes@.len(),
                n == choice_count(pane_indexes@.len()),
                n <= 10,
                texts_spec == Seq::new(
                    choice_count(pane_indexes@.len()),
                    |k: int| choice_text(k as u32, pane_indexes@[k], active_pane),
                ),
                choices@.len() == k,
                forall|j: int| 0 <= j < k ==> #[trigger] choices@[j] == (j as u32, pane_indexes@[j]),
                views(texts@) == texts_spec.take(k as int),
            decreases n - k,
        {
            let label = k as u32;
            choices.push((label, pane_indexes[k]));
            let t = choice_label(label, pane_indexes[k], active_pane);
            let ghost before = texts@;
            texts.push(t);
            proof {
                assert(views(texts@) =~= views(before).push(t@));
                assert(texts_spec.take(k + 1) =~= texts_spec.take(k as int).push(t@));
            }
            k += 1;
        }
        proof {
            assert(texts_spec.take(n as int) =~= texts_spec);
        }
        let panes = join_strings(&texts, " ");
        let status = concat2("tmux 选择窗格 | ", panes.as_str());
        let shown = status.clone();
        self.active = Some(ActivePaneChooser { window, choices, status });
        shown
    }

    /// The status line of an open chooser that has not timed out.
    pub fn status_override(&self, expired: bool) -> (r: Option<String>)
        ensures
            match self.active {
                Some(a) => if expired { r is None } else { r matches Some(s) && s@ == a.status@ },
                None => r is None,
            },
    {
        match &self.active {
            Some(a) => if expired {
                None
            } else {
                Some(a.status.clone())
            },
            None => None,
        }
    }

    /// Whether a chooser is open and has not timed out.
    pub fn is_active(&self, expired: bool) -> (r: bool)
        ensures
            r == (self.active is Some && !expired),
    {
        self.active.is_some() && !expired
    }

    /// Handles a key; `expired` tells whether the chooser has been open
    /// for its two seconds.
    pub fn handle_key(&mut self, key: &KeyInput, expired: bool) -> (r: ChooserStep)
        ensures
            old(self).active is None ==> r == ChooserStep::NotActive && final(self).active is None,
            old(self).active is Some && expired ==> r == ChooserStep::NotActive && final(self).active is None,
            old(self).active is Some && !expired ==> match key.code {
                KeyCode::Esc => r == ChooserStep::Closed && final(self).active is None,
                KeyCode::Char(c) => if c == 'q' {
                    r == ChooserStep::Closed && final(self).active is None
                } else if !key.modifiers.control && !key.modifiers.alt && '0' <= c && c <= '9' {
                    let a = old(self).active.unwrap();
                    let label = (c as u32 - '0' as u32) as u32;
                    if exists|k: int| 0 <= k < a.choices@.len() && a.choices@[k].0 == label {
                        final(self).active is None && exists|k: int| 0 <= k < a.choices@.len() && a.choices@[k].0 == label
                            && r == (ChooserStep::Select { window: a.window, pane: a.choices@[k].1 }) && forall|j: int|
                            0 <= j < k ==> a.choices@[j].0 != label
                    } else {
                        r == ChooserStep::Handled && final(self).active == old(self).active
                    }
                } else {
                    r == ChooserStep::Handled && final(self).active == old(self).active
                },
                _ => r == ChooserStep::Handled && final(self).active == old(self).active,
            },
    {
        let a = match self.active.take() {
            Some(a) => a,
            None => return ChooserStep::NotActive,
        };
        if expired {
            return ChooserStep::NotActive;
        }
        match key.code {
            KeyCode::Esc => ChooserStep::Closed,
            KeyCode::Char(c) => {
                if c == 'q' {
                    ChooserStep::Closed
                } else if !key.modifiers.control && !key.modifiers.alt && '0' <= c && c <= '9' {
                    let label = c as u32 - '0' as u32;
                    match find_choice(&a.choices, label) {
                        Some(k) => ChooserStep::Select { window: a.window, pane: a.choices[k].1 },
                        None => {
                            self.active = Some(a);
                            ChooserStep::Handled
                        },
                    }
                } else {
                    self.active = Some(a);
                    ChooserStep::Handled
                }
            },
            _ => {
                self.active = Some(a);
                ChooserStep::Handled
            },
        }
    }
}

} // verus!
