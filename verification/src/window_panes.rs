//! The panes of one window: their layout, which one is active, which one is
//! zoomed, and whether input goes to all of them.
use vstd::prelude::*;

use crate::pane_layout::{PaneLayout, PaneRect, SplitDirection};
use crate::session_registry::{next_index, next_window_number};

verus! {

/// The pane state of a window.
pub struct WindowPanes {
    pub layout: PaneLayout,
    pub active: u32,
    pub zoomed: Option<u32>,
    pub synchronize: bool,
}

/// The size of the first rectangle of `pane` in `panes`, or `cols` x `rows`
/// when it has none.
pub open spec fn rect_size(panes: Seq<(u32, PaneRect)>, pane: u32, cols: u16, rows: u16) -> (u16, u16)
    decreases panes.len(),
{
    if panes.len() == 0 {
        (cols, rows)
    } else if panes[0].0 == pane {
        (panes[0].1.cols, panes[0].1.rows)
    } else {
        rect_size(panes.drop_first(), pane, cols, rows)
    }
}

impl WindowPanes {
    /// A window with its one pane, 0, active, unzoomed and unsynchronized.
    pub fn new() -> (r: WindowPanes)
        ensures
            r.layout == PaneLayout::Pane(0),
            r.active == 0,
            r.zoomed is None,
            !r.synchronize,
    {
        WindowPanes { layout: PaneLayout::new(0), active: 0, zoomed: None, synchronize: false }
    }

    /// The number a new pane gets: the smallest one not in use.
    pub fn new_pane_index(&self) -> (r: Option<u32>)
        ensures
            r == next_window_number(self.layout.leaves()),
            r matches Some(n) ==> !self.layout.leaves().contains(n),
    {
        let numbers = self.layout.pane_indexes();
        next_index(&numbers)
    }

    /// Splits the active pane with the new pane `index`, which becomes
    /// active; false, with nothing changed, when the layout cannot split.
    pub fn split(&mut self, index: u32, direction: SplitDirection) -> (r: bool)
        ensures
            r == old(self).layout.split_spec(old(self).active, index, direction) is Some,
            r ==> old(self).layout.split_spec(old(self).active, index, direction) == Some(final(self).layout)
                && final(self).active == index,
            !r ==> *final(self) == *old(self),
            final(self).zoomed == old(self).zoomed,
            final(self).synchronize == old(self).synchronize,
    {
        let active = self.active;
        let r = self.layout.split(active, index, direction);
        if r {
            self.active = index;
        }
        r
    }

    /// Makes `pane` active; false, with nothing changed, when the window has
    /// no such pane.
    pub fn select(&mut self, pane: u32) -> (r: bool)
        ensures
            r == old(self).layout.leaves().contains(pane),
            final(self).active == if r {
                pane
            } else {
                old(self).active
            },
            final(self).layout == old(self).layout,
            final(self).zoomed == old(self).zoomed,
            final(self).synchronize == old(self).synchronize,
    {
        if !self.layout.contains(pane) {
            return false;
        }
        self.active = pane;
        true
    }

    /// Exchanges the places of panes `source` and `target`; false, with
    /// nothing changed, unless both are in the window.
    pub fn swap(&mut self, source: u32, target: u32) -> (r: bool)
        ensures
            r == (old(self).layout.leaves().contains(source) && old(self).layout.leaves().contains(target)),
            final(self).layout == if r {
                old(self).layout.swap_spec(source, target)
            } else {
                old(self).layout
            },
            final(self).active == old(self).active,
            final(self).zoomed == old(self).zoomed,
            final(self).synchronize == old(self).synchronize,
    {
        self.layout.swap_panes(source, target)
    }

    /// Removes `pane`; the other panes take its place. An active pane that
    /// is removed gives way to the first remaining one, and a zoom on it
    /// ends. False when the window has no such pane or it is the last one.
    pub fn kill(&mut self, pane: u32) -> (r: bool)
        ensures
            r == (old(self).layout.leaves().contains(pane) && old(self).layout.without_spec(pane) is Some),
            r ==> old(self).layout.without_spec(pane) == Some(final(self).layout) && final(self).layout.leaves().len()
                > 0 && final(self).active == if old(self).active == pane {
                final(self).layout.leaves()[0]
            } else {
                old(self).active
            } && final(self).zoomed == if old(self).zoomed == Some(pane) {
                None
            } else {
                old(self).zoomed
            },
            !r ==> final(self).active == old(self).active && final(self).zoomed == old(self).zoomed,
            !old(self).layout.leaves().contains(pane) ==> final(self).layout == old(self).layout,
            old(self).layout.leaves().contains(pane) && old(self).layout.without_spec(pane) is None
                ==> final(self).layout == PaneLayout::Pane(pane),
            final(self).synchronize == old(self).synchronize,
    {
        if !self.layout.remove(pane) {
            return false;
        }
        let indexes = self.layout.pane_indexes();
        proof {
            lemma_leaves_nonempty(self.layout);
        }
        if self.active == pane {
            self.active = indexes[0];
        }
        if self.zoomed == Some(pane) {
            self.zoomed = None;
        }
        true
    }

    /// Zooms `pane`, or ends its zoom; false, with nothing changed, when the
    /// window has no such pane.
    pub fn toggle_zoom(&mut self, pane: u32) -> (r: bool)
        ensures
            r == old(self).layout.leaves().contains(pane),
            final(self).zoomed == if !r {
                old(self).zoomed
            } else if old(self).zoomed == Some(pane) {
                None
            } else {
                Some(pane)
            },
            final(self).layout == old(self).layout,
            final(self).active == old(self).active,
            final(self).synchronize == old(self).synchronize,
    {
        if !self.layout.contains(pane) {
            return false;
        }
        self.zoomed = if self.zoomed == Some(pane) {
            None
        } else {
            Some(pane)
        };
        true
    }

    /// Sends input to every pane from now on, or to the active one only.
    pub fn set_synchronize(&mut self, enabled: bool)
        ensures
            final(self).synchronize == enabled,
            final(self).layout == old(self).layout,
            final(self).active == old(self).active,
            final(self).zoomed == old(self).zoomed,
    {
        self.synchronize = enabled;
    }

    /// Whether input typed in the window goes to `pane`.
    pub fn receives_input(&self, pane: u32) -> (r: bool)
        ensures
            r == (self.synchronize || pane == self.active),
    {
        self.synchronize || pane == self.active
    }

    /// The size of `pane` in a window of `cols` x `rows`: all of it when the
    /// pane is zoomed, else its rectangle in the layout.
    pub fn pane_size(&self, pane: u32, cols: u16, rows: u16) -> (r: (u16, u16))
        ensures
            r == if self.zoomed == Some(pane) {
                (cols, rows)
            } else {
                rect_size(self.layout.geometry_spec(PaneRect { x: 0, y: 0, cols, rows }).0, pane, cols, rows)
            },
    {
        if let Some(z) = self.zoomed {
            if z == pane {
                return (cols, rows);
            }
        }
        let geometry = self.layout.geometry(cols, rows);
        let ghost all = geometry.panes@;
        let mut k: usize = 0;
        assert(all.skip(0) =~= all);
        while k < geometry.panes.len()
            invariant
                k <= all.len(),
                all == geometry.panes@,
                all == self.layout.geometry_spec(PaneRect { x: 0, y: 0, cols, rows }).0,
                self.zoomed != Some(pane),
                rect_size(all.skip(k as int), pane, cols, rows) == rect_size(all, pane, cols, rows),
            decreases all.len() - k,
        {
            let (index, rect) = geometry.panes[k];
            assert(all.skip(k as int).len() > 0 && all.skip(k as int)[0] == all[k as int]);
            assert(all[k as int] == (index, rect));
            if index == pane {
                assert(rect_size(all.skip(k as int), pane, cols, rows) == (rect.cols, rect.rows));
                return (rect.cols, rect.rows);
            }
            assert(all.skip(k as int).drop_first() =~= all.skip(k as int + 1));
            k += 1;
        }
        assert(all.skip(k as int).len() == 0);
        (cols, rows)
    }
}

/// A layout has at least one pane.
pub proof fn lemma_leaves_nonempty(l: PaneLayout)
    ensures
        l.leaves().len() > 0,
    decreases l,
{
    match l {
        PaneLayout::Pane(_) => {},
        PaneLayout::Split { first, second, .. } => {
            lemma_leaves_nonempty(*first);
        },
    }
}

} // verus!
