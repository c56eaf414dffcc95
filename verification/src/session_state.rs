//! The state a session server keeps: its windows with their recent
//! output, the active and last windows, the terminal size and the paste
//! buffer.
use vstd::prelude::*;

use crate::session_model::{TmuxPaneStatus, TmuxSessionEvent, TmuxSessionStatus};
use crate::text::{decimal, decimal_string};

verus! {

/// How much recent output a window or pane keeps for replay.
pub const MAX_REPLAY_BYTES: usize = 65536;

/// The recent output of one pane.
pub struct TmuxPaneReplay {
    pub index: u32,
    pub capture: Vec<u8>,
}

/// A window: its number, name, recent output, active pane and panes.
pub struct TmuxWindowReplay {
    pub index: u32,
    pub name: String,
    pub replay: Vec<u8>,
    pub active_pane: u32,
    pub panes: Vec<TmuxPaneReplay>,
}

/// The state of one session.
pub struct TmuxSessionState {
    pub windows: Vec<TmuxWindowReplay>,
    pub attached_clients: u32,
    pub active_window: u32,
    pub last_window: Option<u32>,
    pub cols: Option<u16>,
    pub rows: Option<u16>,
    pub buffer: Vec<u8>,
}

/// The last `MAX_REPLAY_BYTES` bytes of `b`.
pub open spec fn trimmed(b: Seq<u8>) -> Seq<u8> {
    if b.len() > MAX_REPLAY_BYTES {
        b.skip(b.len() - MAX_REPLAY_BYTES)
    } else {
        b
    }
}

/// The window numbers, in storage order.
pub open spec fn window_indexes(ws: Seq<TmuxWindowReplay>) -> Seq<u32> {
    ws.map_values(|w: TmuxWindowReplay| w.index)
}

/// Strictly increasing.
pub open spec fn strictly_sorted(s: Seq<u32>) -> bool {
    forall|i: int, j: int| 0 <= i < j < s.len() ==> s[i] < s[j]
}

/// Non-decreasing pane numbers.
pub open spec fn panes_sorted(ps: Seq<TmuxPaneReplay>) -> bool {
    forall|i: int, j: int| 0 <= i < j < ps.len() ==> ps[i].index <= ps[j].index
}

/// A freshly created window: empty output, pane 0 active and empty.
pub open spec fn is_fresh_window(w: TmuxWindowReplay, index: u32, name: Seq<char>) -> bool {
    &&& w.index == index
    &&& w.name@ == name
    &&& w.replay@.len() == 0
    &&& w.active_pane == 0
    &&& w.panes@.len() == 1
    &&& w.panes@[0].index == 0
    &&& w.panes@[0].capture@.len() == 0
}

/// `after` is `before` with window `index` removed: the other windows stay
/// as they were, a session left with none gets a fresh window 0, a previous
/// window that is gone is forgotten and an active window that is gone gives
/// way to the first one.
pub open spec fn window_removed(before: TmuxSessionState, after: TmuxSessionState, index: u32) -> bool {
    &&& (exists|k: int| 0 <= k < before.windows@.len() && before.windows@[k].index != index) ==> forall|i: u32|
        window_at(after.windows@, i) == if i == index {
            None
        } else {
            window_at(before.windows@, i)
        }
    &&& !(exists|k: int| 0 <= k < before.windows@.len() && before.windows@[k].index != index) ==> after.windows@.len()
        == 1 && is_fresh_window(after.windows@[0], 0, decimal(0))
    &&& after.last_window == if before.last_window == Some(index) {
        None
    } else {
        before.last_window
    }
    &&& after.active_window == if before.active_window != index {
        before.active_window
    } else {
        after.windows@[0].index
    }
    &&& after.attached_clients == before.attached_clients
    &&& after.cols == before.cols
    &&& after.rows == before.rows
    &&& after.buffer == before.buffer
}

/// `after` is `before` with window `index` made the active one, the
/// previously active window remembered.
pub open spec fn window_selected(before: TmuxSessionState, after: TmuxSessionState, index: u32) -> bool {
    &&& after.active_window == index
    &&& after.last_window == if before.active_window != index {
        Some(before.active_window)
    } else {
        before.last_window
    }
    &&& after.windows == before.windows
    &&& after.attached_clients == before.attached_clients
    &&& after.cols == before.cols
    &&& after.rows == before.rows
    &&& after.buffer == before.buffer
}

/// The window numbered `index`, if any.
pub open spec fn window_at(ws: Seq<TmuxWindowReplay>, index: u32) -> Option<TmuxWindowReplay> {
    if exists|k: int| 0 <= k < ws.len() && ws[k].index == index {
        Some(ws[choose|k: int| 0 <= k < ws.len() && ws[k].index == index])
    } else {
        None
    }
}

/// In an ordered window list, the window at position `k` is the one its number finds.
pub proof fn lemma_window_at(ws: Seq<TmuxWindowReplay>, k: int)
    requires
        strictly_sorted(window_indexes(ws)),
        0 <= k < ws.len(),
    ensures
        window_at(ws, ws[k].index) == Some(ws[k]),
{
    let c = choose|c: int| 0 <= c < ws.len() && ws[c].index == ws[k].index;
    lemma_position_unique(ws, c, k);
}

impl TmuxSessionState {
    /// Window numbers are unique and kept in increasing order, there is at
    /// least one window, and the active window exists.
    pub open spec fn wf(&self) -> bool {
        &&& strictly_sorted(window_indexes(self.windows@))
        &&& self.windows@.len() > 0
        &&& window_indexes(self.windows@).contains(self.active_window)
        &&& forall|k: int| 0 <= k < self.windows@.len() ==> panes_sorted(
            #[trigger] self.windows@[k].panes@,
        )
    }

    pub open spec fn has_window_spec(&self, index: u32) -> bool {
        window_indexes(self.windows@).contains(index)
    }

    /// Position of window `index`, if present.
    pub open spec fn position_of(&self, index: u32) -> Option<int> {
        if self.has_window_spec(index) {
            Some(choose|k: int| 0 <= k < self.windows@.len() && self.windows@[k].index == index)
        } else {
            None
        }
    }

    /// The recent output of the active window (empty if it is missing).
    pub open spec fn active_replay_spec(&self) -> Seq<u8> {
        match self.position_of(self.active_window) {
            Some(k) => self.windows@[k].replay@,
            None => Seq::empty(),
        }
    }
}

proof fn lemma_position_unique(ws: Seq<TmuxWindowReplay>, k1: int, k2: int)
    requires
        strictly_sorted(window_indexes(ws)),
        0 <= k1 < ws.len(),
        0 <= k2 < ws.len(),
        ws[k1].index == ws[k2].index,
    ensures
        k1 == k2,
{
    if k1 < k2 {
        assert(window_indexes(ws)[k1] < window_indexes(ws)[k2]);
    } else if k2 < k1 {
        assert(window_indexes(ws)[k2] < window_indexes(ws)[k1]);
    }
}

proof fn lemma_position_of(st: &TmuxSessionState, index: u32, k: int)
    requires
        strictly_sorted(window_indexes(st.windows@)),
        0 <= k < st.windows@.len(),
        st.windows@[k].index == index,
    ensures
        st.position_of(index) == Some(k),
{
    assert(window_indexes(st.windows@)[k] == index);
    let c = choose|c: int| 0 <= c < st.windows@.len() && st.windows@[c].index == index;
    lemma_position_unique(st.windows@, c, k);
}

proof fn lemma_absent(st: &TmuxSessionState, index: u32)
    requires
        forall|j: int| 0 <= j < st.windows@.len() ==> st.windows@[j].index != index,
    ensures
        !st.has_window_spec(index),
        st.position_of(index) is None,
{
    if st.has_window_spec(index) {
        let k = choose|k: int| 0 <= k < window_indexes(st.windows@).len() && window_indexes(
            st.windows@,
        )[k] == index;
        assert(st.windows@[k].index == index);
    }
}

/// Keeps only the last `MAX_REPLAY_BYTES` bytes.
pub fn trim_replay(bytes: &mut Vec<u8>)
    ensures
        final(bytes)@ == trimmed(old(bytes)@),
{
    if bytes.len() > MAX_REPLAY_BYTES {
        let overflow = bytes.len() - MAX_REPLAY_BYTES;
        let mut kept: Vec<u8> = Vec::new();
        let mut i = overflow;
        while i < bytes.len()
            invariant
                overflow <= i <= bytes.len(),
                kept@ == bytes@.subrange(overflow as int, i as int),
            decreases bytes.len() - i,
        {
            kept.push(bytes[i]);
            assert(bytes@.subrange(overflow as int, i as int).push(bytes@[i as int]) =~= bytes@.subrange(
                overflow as int,
                i + 1,
            ));
            i += 1;
        }
        *bytes = kept;
    }
}

fn append_bytes(dst: &mut Vec<u8>, src: &[u8])
    ensures
        final(dst)@ == old(dst)@ + src@,
{
    let mut i: usize = 0;
    while i < src.len()
        invariant
            i <= src.len(),
            dst@ == old(dst)@ + src@.take(i as int),
        decreases src.len() - i,
    {
        dst.push(src[i]);
        assert(old(dst)@ + src@.take(i + 1) =~= (old(dst)@ + src@.take(i as int)).push(src@[i as int]));
        i += 1;
    }
    assert(src@.take(src.len() as int) =~= src@);
}

fn copy_bytes(src: &[u8]) -> (r: Vec<u8>)
    ensures
        r@ == src@,
{
    let mut r: Vec<u8> = Vec::new();
    append_bytes(&mut r, src);
    assert(r@ =~= src@);
    r
}

fn fresh_window(index: u32, name: String) -> (w: TmuxWindowReplay)
    ensures
        is_fresh_window(w, index, name@),
{
    let mut panes: Vec<TmuxPaneReplay> = Vec::new();
    panes.push(TmuxPaneReplay { index: 0, capture: Vec::new() });
    TmuxWindowReplay { index, name, replay: Vec::new(), active_pane: 0, panes }
}

/// Makes `index` the active window, remembering the previous one.
pub fn select_window_state(state: &mut TmuxSessionState, index: u32)
    ensures
        final(state).active_window == index,
        final(state).last_window == if old(state).active_window != index {
            Some(old(state).active_window)
        } else {
            old(state).last_window
        },
        final(state).windows == old(state).windows,
        final(state).attached_clients == old(state).attached_clients,
        final(state).cols == old(state).cols,
        final(state).rows == old(state).rows,
        final(state).buffer == old(state).buffer,
{
    if state.active_window != index {
        state.last_window = Some(state.active_window);
    }
    state.active_window = index;
}

impl TmuxSessionState {
    /// Whether window `index` exists.
    pub fn has_window(&self, index: u32) -> (r: bool)
        ensures
            r == self.has_window_spec(index),
    {
        match self.find_window(index) {
            Some(k) => {
                assert(window_indexes(self.windows@)[k as int] == index);
                true
            },
            None => false,
        }
    }

    /// Position of window `index`.
    pub fn find_window(&self, index: u32) -> (r: Option<usize>)
        ensures
            match r {
                Some(k) => k < self.windows@.len() && self.windows@[k as int].index == index,
                None => !self.has_window_spec(index),
            },
            strictly_sorted(window_indexes(self.windows@)) ==> r == match self.position_of(index) {
                Some(k) => Some(k as usize),
                None => None::<usize>,
            },
    {
        let mut k: usize = 0;
        while k < self.windows.len()
            invariant
                k <= self.windows.len(),
                forall|j: int| 0 <= j < k ==> self.windows@[j].index != index,
            decreases self.windows.len() - k,
        {
            if self.windows[k].index == index {
                proof {
                    assert(window_indexes(self.windows@)[k as int] == index);
                    if strictly_sorted(window_indexes(self.windows@)) {
                        lemma_position_of(self, index, k as int);
                    }
                }
                return Some(k);
            }
            k += 1;
        }
        proof { lemma_absent(self, index); }
        None
    }

    /// Adds window `index` named `name` unless it exists, keeping the
    /// windows ordered by number.
    pub fn ensure_window(&mut self, index: u32, name: String)
        requires
            strictly_sorted(window_indexes(old(self).windows@)),
        ensures
            strictly_sorted(window_indexes(final(self).windows@)),
            final(self).active_window == old(self).active_window,
            final(self).last_window == old(self).last_window,
            final(self).attached_clients == old(self).attached_clients,
            final(self).cols == old(self).cols,
            final(self).rows == old(self).rows,
            final(self).buffer == old(self).buffer,
            old(self).has_window_spec(index) ==> final(self).windows == old(self).windows,
            !old(self).has_window_spec(index) ==> (window_at(final(self).windows@, index) matches Some(
                w,
            ) && is_fresh_window(w, index, name@)),
            forall|i: u32| i != index ==> window_at(final(self).windows@, i) == window_at(
                old(self).windows@,
                i,
            ),
            window_at(final(self).windows@, index) is Some,
            (forall|k: int| 0 <= k < old(self).windows@.len() ==> panes_sorted(#[trigger] old(self).windows@[k].panes@))
                ==> (forall|k: int| 0 <= k < final(self).windows@.len() ==> panes_sorted(#[trigger] final(self).windows@[k].panes@)),
    {
        if self.has_window(index) {
            proof {
                let k = choose|k: int| 0 <= k < window_indexes(self.windows@).len() && window_indexes(self.windows@)[k] == index;
                assert(self.windows@[k].index == index);
            }
            return;
        }
        let ghost old_ws = self.windows@;
        let mut p: usize = 0;
        while p < self.windows.len() && self.windows[p].index < index
            invariant
                p <= self.windows.len(),
                forall|j: int| 0 <= j < p ==> self.windows@[j].index < index,
            decreases self.windows.len() - p,
        {
            p += 1;
        }
        let w = fresh_window(index, name);
        self.windows.insert(p, w);
        proof {
            let ws = self.windows@;
            assert(ws.remove(p as int) =~= old_ws);
            assert(!window_indexes(old_ws).contains(index));
            assert forall|j: int| p <= j < old_ws.len() implies old_ws[j].index > index by {
                if p < old_ws.len() {
                    assert(old_ws[p as int].index >= index);
                    assert(old_ws[p as int].index != index) by {
                        assert(window_indexes(old_ws)[p as int] == old_ws[p as int].index);
                    }
                    if j > p {
                        assert(window_indexes(old_ws)[p as int] < window_indexes(old_ws)[j]);
                    }
                }
            }
            assert forall|a: int, b: int| 0 <= a < b < ws.len() implies window_indexes(ws)[a]
                < window_indexes(ws)[b] by {
                assert(window_indexes(ws)[a] == ws[a].index);
                assert(window_indexes(ws)[b] == ws[b].index);
                if a < p && b < p {
                    assert(window_indexes(old_ws)[a] < window_indexes(old_ws)[b]);
                } else if a < p && b == p {
                } else if a < p && b > p {
                    assert(ws[b] == old_ws[b - 1]);
                } else if a == p {
                    assert(ws[b] == old_ws[b - 1]);
                } else {
                    assert(ws[a] == old_ws[a - 1]);
                    assert(ws[b] == old_ws[b - 1]);
                    assert(window_indexes(old_ws)[a - 1] < window_indexes(old_ws)[b - 1]);
                }
            }
            lemma_window_at(ws, p as int);
            assert forall|i: u32| i != index implies window_at(ws, i) == window_at(old_ws, i) by {
                if exists|k: int| 0 <= k < old_ws.len() && old_ws[k].index == i {
                    let k = choose|k: int| 0 <= k < old_ws.len() && old_ws[k].index == i;
                    lemma_window_at(old_ws, k);
                    if k < p {
                        assert(ws[k] == old_ws[k]);
                        lemma_window_at(ws, k);
                    } else {
                        assert(ws[k + 1] == old_ws[k]);
                        lemma_window_at(ws, k + 1);
                    }
                } else {
                    assert forall|j: int| 0 <= j < ws.len() implies ws[j].index != i by {
                        if j < p {
                            assert(ws[j] == old_ws[j]);
                        } else if j > p {
                            assert(ws[j] == old_ws[j - 1]);
                        }
                    }
                }
            }
            assert forall|k: int| 0 <= k < ws.len() && (forall|k: int| 0 <= k < old_ws.len() ==> panes_sorted(#[trigger] old_ws[k].panes@)) implies panes_sorted(#[trigger] ws[k].panes@) by {
                if k < p {
                    assert(ws[k] == old_ws[k]);
                } else if k > p {
                    assert(ws[k] == old_ws[k - 1]);
                }
            }
        }
    }
}


/// A pane as plain values: its number and recent output.
pub open spec fn pane_view(p: TmuxPaneReplay) -> (u32, Seq<u8>) {
    (p.index, p.capture@)
}

pub open spec fn pane_views(ps: Seq<TmuxPaneReplay>) -> Seq<(u32, Seq<u8>)> {
    ps.map_values(|p: TmuxPaneReplay| pane_view(p))
}

/// A window as plain values.
pub struct WindowView {
    pub index: u32,
    pub name: Seq<char>,
    pub replay: Seq<u8>,
    pub active_pane: u32,
    pub panes: Seq<(u32, Seq<u8>)>,
}

pub open spec fn window_view(w: TmuxWindowReplay) -> WindowView {
    WindowView {
        index: w.index,
        name: w.name@,
        replay: w.replay@,
        active_pane: w.active_pane,
        panes: pane_views(w.panes@),
    }
}

/// A new window: no output, one empty pane 0, which is active.
pub open spec fn fresh_view(index: u32, name: Seq<char>) -> WindowView {
    WindowView {
        index,
        name,
        replay: Seq::empty(),
        active_pane: 0,
        panes: seq![(0u32, Seq::<u8>::empty())],
    }
}

/// The window numbered `index` as plain values.
pub open spec fn view_at(ws: Seq<TmuxWindowReplay>, index: u32) -> Option<WindowView> {
    match window_at(ws, index) {
        Some(w) => Some(window_view(w)),
        None => None,
    }
}

/// The window `index` as it is, or as it is created on first use.
pub open spec fn base_view(ws: Seq<TmuxWindowReplay>, index: u32) -> WindowView {
    match window_at(ws, index) {
        Some(w) => window_view(w),
        None => fresh_view(index, decimal(index as nat)),
    }
}

/// Position of the first pane numbered `index`.
pub open spec fn first_pane(ps: Seq<(u32, Seq<u8>)>, index: u32) -> Option<int> {
    if exists|k: int| 0 <= k < ps.len() && ps[k].0 == index {
        Some(choose|k: int| 0 <= k < ps.len() && ps[k].0 == index && forall|j: int| 0 <= j < k ==> ps[j].0 != index)
    } else {
        None
    }
}

/// `v` after output `bytes` arrives: appended to the window and to its
/// active pane, each kept to its last `MAX_REPLAY_BYTES` bytes.
pub open spec fn append_view(v: WindowView, bytes: Seq<u8>) -> WindowView {
    WindowView {
        replay: trimmed(v.replay + bytes),
        panes: match first_pane(v.panes, v.active_pane) {
            Some(p) => v.panes.update(p, (v.panes[p].0, trimmed(v.panes[p].1 + bytes))),
            None => v.panes,
        },
        ..v
    }
}

fn find_pane(ps: &Vec<TmuxPaneReplay>, index: u32) -> (r: Option<usize>)
    ensures
        match r {
            Some(k) => k < ps@.len() && ps@[k as int].index == index && first_pane(pane_views(ps@), index) == Some(k as int),
            None => first_pane(pane_views(ps@), index) is None,
        },
{
    let ghost pv = pane_views(ps@);
    let mut k: usize = 0;
    while k < ps.len()
        invariant
            k <= ps.len(),
            pv == pane_views(ps@),
            forall|j: int| 0 <= j < k ==> pv[j].0 != index,
        decreases ps.len() - k,
    {
        if ps[k].index == index {
            proof {
                assert(pv[k as int].0 == index);
                assert(0 <= k < pv.len() && pv[k as int].0 == index && forall|j: int| 0 <= j < k ==> pv[j].0 != index);
                let c = first_pane(pv, index).unwrap();
                if c < k {
                    assert(pv[c].0 != index);
                } else if c > k {
                    assert(pv[k as int].0 != index);
                }
            }
            return Some(k);
        }
        k += 1;
    }
    None
}

/// `out` with pane `e` placed after the last pane whose number is at most
/// its own.
pub open spec fn insert_pane(out: Seq<(u32, Seq<u8>)>, e: (u32, Seq<u8>)) -> Seq<(u32, Seq<u8>)>
    decreases out.len(),
{
    if out.len() == 0 {
        seq![e]
    } else if out.last().0 <= e.0 {
        out.push(e)
    } else {
        insert_pane(out.drop_last(), e).push(out.last())
    }
}

/// Panes ordered by number, panes with equal numbers keeping their order.
pub open spec fn sort_panes_spec(s: Seq<(u32, Seq<u8>)>) -> Seq<(u32, Seq<u8>)>
    decreases s.len(),
{
    if s.len() == 0 {
        s
    } else {
        insert_pane(sort_panes_spec(s.drop_last()), s.last())
    }
}

proof fn lemma_insert_at(out: Seq<(u32, Seq<u8>)>, e: (u32, Seq<u8>), p: int)
    requires
        0 <= p <= out.len(),
        forall|j: int| 0 <= j < p ==> out[j].0 <= e.0,
        forall|j: int| p <= j < out.len() ==> out[j].0 > e.0,
    ensures
        insert_pane(out, e) == out.insert(p, e),
    decreases out.len(),
{
    if out.len() == 0 {
        assert(out.insert(p, e) =~= seq![e]);
    } else if p == out.len() {
        assert(out.insert(p, e) =~= out.push(e));
    } else {
        lemma_insert_at(out.drop_last(), e, p);
        assert(out.insert(p, e) =~= out.drop_last().insert(p, e).push(out.last()));
    }
}

/// Insertion sort of panes by number; panes with equal numbers keep their order.
fn sort_panes(v: Vec<TmuxPaneReplay>) -> (r: Vec<TmuxPaneReplay>)
    ensures
        panes_sorted(r@),
        pane_views(r@) == sort_panes_spec(pane_views(v@)),
{
    let mut rest = v;
    let ghost orig = rest@;
    let ghost pv = pane_views(orig);
    let ghost mut c: int = 0;
    let mut out: Vec<TmuxPaneReplay> = Vec::new();
    proof {
        assert(pv.take(0) =~= Seq::<(u32, Seq<u8>)>::empty());
        assert(pane_views(out@) =~= Seq::<(u32, Seq<u8>)>::empty());
    }
    while rest.len() > 0
        invariant
            0 <= c <= orig.len(),
            pv == pane_views(orig),
            rest@ == orig.skip(c),
            panes_sorted(out@),
            pane_views(out@) == sort_panes_spec(pv.take(c)),
        decreases rest.len(),
    {
        let ghost before_out = out@;
        let e = rest.remove(0);
        let mut p: usize = 0;
        while p < out.len() && out[p].index <= e.index
            invariant
                p <= out.len(),
                forall|j: int| 0 <= j < p ==> out@[j].index <= e.index,
            decreases out.len() - p,
        {
            p += 1;
        }
        out.insert(p, e);
        proof {
            assert(orig[c] == e);
            assert forall|a: int, b: int| 0 <= a < b < out@.len() implies out@[a].index <= out@[b].index by {
                if b < p {
                    assert(out@[a] == before_out[a] && out@[b] == before_out[b]);
                } else if b == p {
                } else if a < p {
                    assert(out@[b] == before_out[b - 1]);
                    if p < before_out.len() {
                        assert(before_out[p as int].index > e.index);
                        assert(before_out[p as int].index <= before_out[b - 1].index);
                    }
                } else if a == p {
                    assert(out@[b] == before_out[b - 1]);
                    assert(before_out[p as int].index > e.index);
                    assert(before_out[p as int].index <= before_out[b - 1].index);
                } else {
                    assert(out@[a] == before_out[a - 1] && out@[b] == before_out[b - 1]);
                }
            }
            let bv = pane_views(before_out);
            assert forall|j: int| p <= j < bv.len() implies bv[j].0 > e.index by {
                assert(before_out[p as int].index > e.index);
                assert(before_out[p as int].index <= before_out[j].index);
            }
            lemma_insert_at(bv, pane_view(e), p as int);
            assert(pane_views(out@) =~= bv.insert(p as int, pane_view(e)));
            assert(pv.take(c + 1).drop_last() =~= pv.take(c));
            assert(pv.take(c + 1).last() == pane_view(e));
            assert(rest@ =~= orig.skip(c + 1));
            c = c + 1;
        }
    }
    proof {
        assert(c == orig.len());
        assert(pv.take(c) =~= pv);
    }
    out
}

impl TmuxSessionState {
    /// The window at position `k` leaves every other window alone when
    /// replaced by `w` with the same number.
    proof fn lemma_replace_at(ws: Seq<TmuxWindowReplay>, k: int, w: TmuxWindowReplay)
        requires
            strictly_sorted(window_indexes(ws)),
            0 <= k < ws.len(),
            w.index == ws[k].index,
        ensures
            strictly_sorted(window_indexes(ws.update(k, w))),
            window_at(ws.update(k, w), w.index) == Some(w),
            forall|i: u32| i != w.index ==> window_at(ws.update(k, w), i) == window_at(ws, i),
    {
        let nws = ws.update(k, w);
        assert(window_indexes(nws) =~= window_indexes(ws));
        lemma_window_at(nws, k);
        assert forall|i: u32| i != w.index implies window_at(nws, i) == window_at(ws, i) by {
            if exists|j: int| 0 <= j < ws.len() && ws[j].index == i {
                let j = choose|j: int| 0 <= j < ws.len() && ws[j].index == i;
                lemma_window_at(ws, j);
                assert(nws[j] == ws[j]);
                lemma_window_at(nws, j);
            } else {
                assert forall|j: int| 0 <= j < nws.len() implies nws[j].index != i by {
                    if j != k {
                        assert(nws[j] == ws[j]);
                    }
                }
            }
        }
    }

    /// A session with windows `0..max(windows, 1)`, none attached.
    pub fn new(windows: u32) -> (r: TmuxSessionState)
        ensures
            r.wf(),
            window_indexes(r.windows@) == Seq::new(
                if windows < 1 { 1nat } else { windows as nat },
                |i: int| i as u32,
            ),
            forall|k: int| 0 <= k < r.windows@.len() ==> is_fresh_window(#[trigger] r.windows@[k], k as u32, decimal(k as nat)),
            r.attached_clients == 0,
            r.active_window == 0,
            r.last_window is None,
            r.cols is None,
            r.rows is None,
            r.buffer@.len() == 0,
            r.active_replay_spec().len() == 0,
    {
        let mut state = TmuxSessionState {
            windows: Vec::new(),
            attached_clients: 0,
            active_window: 0,
            last_window: None,
            cols: None,
            rows: None,
            buffer: Vec::new(),
        };
        let n = if windows < 1 { 1 } else { windows };
        state.set_window_count(n);
        proof {
            assert forall|k: int| 0 <= k < state.windows@.len() implies is_fresh_window(#[trigger] state.windows@[k], k as u32, decimal(k as nat)) by {
                assert(window_indexes(state.windows@)[k] == k as u32);
                lemma_window_at(state.windows@, k);
                assert(window_at(Seq::<TmuxWindowReplay>::empty(), k as u32) is None);
            }
            assert(window_indexes(state.windows@)[0] == 0u32);
            lemma_position_of(&state, 0, 0);
        }
        state
    }

    /// Keeps exactly the windows `0..windows`: existing ones unchanged,
    /// missing ones created empty and named by their number; the active
    /// window becomes 0 if it is dropped.
    pub fn set_window_count(&mut self, windows: u32)
        requires
            windows >= 1,
            strictly_sorted(window_indexes(old(self).windows@)),
            forall|k: int| 0 <= k < old(self).windows@.len() ==> panes_sorted(#[trigger] old(self).windows@[k].panes@),
        ensures
            final(self).wf(),
            window_indexes(final(self).windows@) == Seq::new(windows as nat, |i: int| i as u32),
            forall|i: u32| i < windows && window_at(old(self).windows@, i) is Some ==> window_at(final(self).windows@, i) == window_at(old(self).windows@, i),
            forall|i: u32| i < windows && window_at(old(self).windows@, i) is None ==> (window_at(final(self).windows@, i) matches Some(w) && is_fresh_window(w, i, decimal(i as nat))),
            final(self).active_window == if old(self).active_window < windows { old(self).active_window } else { 0 },
            final(self).last_window == old(self).last_window,
            final(self).attached_clients == old(self).attached_clients,
            final(self).cols == old(self).cols,
            final(self).rows == old(self).rows,
            final(self).buffer == old(self).buffer,
    {
        let mut rest: Vec<TmuxWindowReplay> = Vec::new();
        std::mem::swap(&mut rest, &mut self.windows);
        let ghost orig = rest@;
        assert(forall|k: int| 0 <= k < orig.len() ==> panes_sorted(#[trigger] orig[k].panes@));
        let mut out: Vec<TmuxWindowReplay> = Vec::new();
        let mut i: u32 = 0;
        let ghost mut c: int = 0;
        while i < windows
            invariant
                strictly_sorted(window_indexes(orig)),
                0 <= c <= orig.len(),
                rest@ == orig.skip(c),
                i <= windows,
                forall|j: int| 0 <= j < c ==> orig[j].index < i,
                forall|j: int| c <= j < orig.len() ==> orig[j].index >= i,
                out@.len() == i,
                forall|k: int| 0 <= k < i ==> (#[trigger] out@[k]).index == k,
                forall|k: int| 0 <= k < i && window_at(orig, k as u32) is Some ==> window_at(orig, k as u32) == Some(#[trigger] out@[k]),
                forall|k: int| 0 <= k < i && window_at(orig, k as u32) is None ==> is_fresh_window(#[trigger] out@[k], k as u32, decimal(k as nat)),
                forall|k: int| 0 <= k < i ==> ((#[trigger] out@[k]).panes@.len() == 1 && out@[k].panes@[0].index == 0) || exists|j: int| 0 <= j < orig.len() && orig[j] == out@[k],
            decreases windows - i,
        {
            if rest.len() > 0 && rest[0].index == i {
                let w = rest.remove(0);
                proof {
                    assert(orig[c] == w);
                    lemma_window_at(orig, c);
                    assert forall|j: int| c + 1 <= j < orig.len() implies orig[j].index >= i + 1 by {
                        assert(window_indexes(orig)[c] < window_indexes(orig)[j]);
                    }
                    assert(rest@ =~= orig.skip(c + 1));
                    c = c + 1;
                }
                out.push(w);
            } else {
                proof {
                    if c < orig.len() {
                        assert(rest@[0] == orig[c]);
                        assert forall|j: int| c <= j < orig.len() implies orig[j].index >= i + 1 by {
                            if j > c {
                                assert(window_indexes(orig)[c] < window_indexes(orig)[j]);
                            }
                        }
                    }
                    assert forall|j: int| 0 <= j < orig.len() implies orig[j].index != i by {}
                }
                out.push(fresh_window(i, decimal_string(i as u64)));
            }
            i += 1;
        }
        self.windows = out;
        if self.active_window >= windows {
            self.active_window = 0;
        }
        proof {
            let ws = self.windows@;
            assert(window_indexes(ws) =~= Seq::new(windows as nat, |i: int| i as u32));
            assert forall|a: int, b: int| 0 <= a < b < ws.len() implies window_indexes(ws)[a] < window_indexes(ws)[b] by {}
            assert(window_indexes(ws)[self.active_window as int] == self.active_window);
            assert forall|i: u32| i < windows implies window_at(ws, i) == Some(ws[i as int]) by {
                lemma_window_at(ws, i as int);
            }
            assert forall|k: int| 0 <= k < ws.len() implies panes_sorted(#[trigger] ws[k].panes@) by {
                if (ws[k].panes@.len() == 1 && ws[k].panes@[0].index == 0) {
                } else {
                    let j = choose|j: int| 0 <= j < orig.len() && orig[j] == ws[k];
                    assert(panes_sorted(orig[j].panes@));
                }
            }
        }
    }

    /// The recent output of the active window.
    pub fn active_replay(&self) -> (r: &[u8])
        requires
            self.wf(),
        ensures
            r@ == self.active_replay_spec(),
            window_at(self.windows@, self.active_window) matches Some(w) && r@ == w.replay@,
    {
        match self.find_window(self.active_window) {
            Some(k) => {
                proof {
                    lemma_window_at(self.windows@, k as int);
                }
                self.windows[k].replay.as_slice()
            },
            None => {
                proof {
                    let k = choose|k: int| 0 <= k < window_indexes(self.windows@).len() && window_indexes(self.windows@)[k] == self.active_window;
                    assert(self.windows@[k].index == self.active_window);
                }
                &[]
            },
        }
    }
}

/// What `window_capture` finds: the recent output of pane `pane` (the
/// active pane when `None`) of window `window`.
pub open spec fn capture_spec(ws: Seq<TmuxWindowReplay>, window: u32, pane: Option<u32>) -> Option<Seq<u8>> {
    match view_at(ws, window) {
        None => None,
        Some(v) => {
            let p = match pane {
                Some(p) => p,
                None => v.active_pane,
            };
            match first_pane(v.panes, p) {
                Some(k) => Some(v.panes[k].1),
                None => None,
            }
        },
    }
}

/// `v` with the recent output of pane `pane` (the active one when `None`)
/// emptied.
pub open spec fn cleared_view(v: WindowView, pane: Option<u32>) -> WindowView {
    let p = match pane {
        Some(p) => p,
        None => v.active_pane,
    };
    match first_pane(v.panes, p) {
        Some(k) => WindowView { panes: v.panes.update(k, (v.panes[k].0, Seq::empty())), ..v },
        None => v,
    }
}

/// A number that no window carries finds nothing.
proof fn lemma_missing(ws: Seq<TmuxWindowReplay>, index: u32)
    requires
        !window_indexes(ws).contains(index),
    ensures
        window_at(ws, index) is None,
        forall|j: int| 0 <= j < ws.len() ==> ws[j].index != index,
{
    assert forall|j: int| 0 <= j < ws.len() implies ws[j].index != index by {
        if ws[j].index == index {
            assert(window_indexes(ws)[j] == index);
        }
    }
}

/// Changing the output of one pane keeps the panes ordered.
proof fn lemma_pane_update(ps: Seq<TmuxPaneReplay>, j: int, pn: TmuxPaneReplay)
    requires
        panes_sorted(ps),
        0 <= j < ps.len(),
        pn.index == ps[j].index,
    ensures
        panes_sorted(ps.update(j, pn)),
        pane_views(ps.update(j, pn)) == pane_views(ps).update(j, (ps[j].index, pn.capture@)),
{
    let q = ps.update(j, pn);
    assert forall|a: int, b: int| 0 <= a < b < q.len() implies q[a].index <= q[b].index by {
        assert(ps[a].index <= ps[b].index);
    }
    assert(pane_views(q) =~= pane_views(ps).update(j, (ps[j].index, pn.capture@)));
}

/// Replacing the window at position `k` by one with the same number keeps
/// the order and leaves the other windows alone.
proof fn lemma_update(ws: Seq<TmuxWindowReplay>, k: int, w: TmuxWindowReplay)
    requires
        strictly_sorted(window_indexes(ws)),
        forall|j: int| 0 <= j < ws.len() ==> panes_sorted(#[trigger] ws[j].panes@),
        0 <= k < ws.len(),
        w.index == ws[k].index,
        panes_sorted(w.panes@),
    ensures
        window_indexes(ws.update(k, w)) == window_indexes(ws),
        strictly_sorted(window_indexes(ws.update(k, w))),
        forall|j: int| 0 <= j < ws.len() ==> panes_sorted(#[trigger] ws.update(k, w)[j].panes@),
        window_at(ws.update(k, w), w.index) == Some(w),
        forall|i: u32| i != w.index ==> window_at(ws.update(k, w), i) == window_at(ws, i),
{
    TmuxSessionState::lemma_replace_at(ws, k, w);
    assert(window_indexes(ws.update(k, w)) =~= window_indexes(ws));
    assert forall|j: int| 0 <= j < ws.len() implies panes_sorted(#[trigger] ws.update(k, w)[j].panes@) by {
        if j != k {
            assert(ws.update(k, w)[j] == ws[j]);
        }
    }
}

/// Pane replays from `(pane, capture)` pairs.
fn panes_of_captures(captures: Vec<(u32, Vec<u8>)>) -> (r: Vec<TmuxPaneReplay>)
    ensures
        pane_views(r@) == capture_views(captures@),
{
    let mut caps = captures;
    let ghost corig = caps@;
    let ghost cv = capture_views(corig);
    let ghost mut c: int = 0;
    let mut panes: Vec<TmuxPaneReplay> = Vec::new();
    proof {
        assert(pane_views(panes@) =~= cv.take(0));
    }
    while caps.len() > 0
        invariant
            0 <= c <= corig.len(),
            cv == capture_views(corig),
            caps@ == corig.skip(c),
            pane_views(panes@) == cv.take(c),
        decreases caps.len(),
    {
        let ghost before = panes@;
        let (pi, cap) = caps.remove(0);
        let pn = TmuxPaneReplay { index: pi, capture: cap };
        panes.push(pn);
        proof {
            assert(corig[c] == (pi, cap));
            assert(cv[c] == (pi, cap@));
            assert(panes@ == before.push(pn));
            assert(pane_views(panes@) =~= pane_views(before).push(pane_view(pn)));
            assert(cv.take(c + 1) =~= cv.take(c).push(cv[c]));
            assert(caps@ =~= corig.skip(c + 1));
            c = c + 1;
        }
    }
    proof {
        assert(cv.take(c) =~= cv);
    }
    panes
}

/// The panes of a redrawn window, as `frame_panes` describes them.
fn frame_pane_list(captures: Vec<(u32, Vec<u8>)>, active_pane: u32) -> (r: Vec<TmuxPaneReplay>)
    ensures
        panes_sorted(r@),
        pane_views(r@) == frame_panes(capture_views(captures@), active_pane),
{
    let ghost cv = capture_views(captures@);
    let mut panes = panes_of_captures(captures);
    let ghost pv0 = pane_views(panes@);
    match find_pane(&panes, active_pane) {
        Some(q) => {
            proof {
                assert(pv0 == cv);
                assert(pv0[q as int].0 == active_pane);
            }
        },
        None => {
            panes.push(TmuxPaneReplay { index: active_pane, capture: Vec::new() });
            proof {
                assert(pane_views(panes@) =~= pv0.push((active_pane, Seq::empty())));
            }
        },
    }
    sort_panes(panes)
}

impl TmuxSessionState {
    /// Everything but the windows is as in `other`.
    pub open spec fn same_but_windows(&self, other: &TmuxSessionState) -> bool {
        &&& self.active_window == other.active_window
        &&& self.last_window == other.last_window
        &&& self.attached_clients == other.attached_clients
        &&& self.cols == other.cols
        &&& self.rows == other.rows
        &&& self.buffer == other.buffer
    }

    /// Position of window `index` in a well-formed state, tied to `window_at`.
    fn locate(&self, index: u32) -> (r: Option<usize>)
        requires
            self.wf(),
        ensures
            match r {
                Some(k) => k < self.windows@.len() && self.windows@[k as int].index == index
                    && window_at(self.windows@, index) == Some(self.windows@[k as int]),
                None => window_at(self.windows@, index) is None && !self.has_window_spec(index),
            },
    {
        match self.find_window(index) {
            Some(k) => {
                proof {
                    lemma_window_at(self.windows@, k as int);
                }
                Some(k)
            },
            None => {
                proof {
                    lemma_missing(self.windows@, index);
                }
                None
            },
        }
    }

    /// The recent output of pane `pane` (the active pane when `None`) of
    /// window `window`.
    pub fn window_capture(&self, window: u32, pane: Option<u32>) -> (r: Option<&[u8]>)
        requires
            self.wf(),
        ensures
            match r {
                Some(b) => capture_spec(self.windows@, window, pane) == Some(b@),
                None => capture_spec(self.windows@, window, pane) is None,
            },
    {
        let k = match self.locate(window) {
            Some(k) => k,
            None => return None,
        };
        let w = &self.windows[k];
        let p = match pane {
            Some(p) => p,
            None => w.active_pane,
        };
        match find_pane(&w.panes, p) {
            Some(j) => Some(w.panes[j].capture.as_slice()),
            None => None,
        }
    }

    /// Empties the recent output of pane `pane` (the active pane when
    /// `None`) of window `window`; false when there is no such pane.
    #[verifier::rlimit(80)]
    #[verifier::spinoff_prover]
    pub fn clear_window_capture(&mut self, window: u32, pane: Option<u32>) -> (r: bool)
        requires
            old(self).wf(),
        ensures
            final(self).wf(),
            final(self).same_but_windows(old(self)),
            r == capture_spec(old(self).windows@, window, pane) is Some,
            r ==> view_at(final(self).windows@, window) == Some(
                cleared_view(view_at(old(self).windows@, window).unwrap(), pane),
            ),
            forall|i: u32| i != window ==> window_at(final(self).windows@, i) == window_at(old(self).windows@, i),
            !r ==> final(self).windows == old(self).windows,
    {
        let k = match self.locate(window) {
            Some(k) => k,
            None => return false,
        };
        let p = match pane {
            Some(p) => p,
            None => self.windows[k].active_pane,
        };
        let j = match find_pane(&self.windows[k].panes, p) {
            Some(j) => j,
            None => return false,
        };
        let ghost ows = self.windows@;
        let ghost old_w = ows[k as int];
        let mut w = self.windows.remove(k);
        let mut pn = w.panes.remove(j);
        pn.capture.clear();
        w.panes.insert(j, pn);
        self.windows.insert(k, w);
        proof {
            assert(pn.capture@ =~= Seq::<u8>::empty());
            lemma_pane_update(old_w.panes@, j as int, pn);
            assert(w.panes@ =~= old_w.panes@.update(j as int, pn));
            assert(window_view(w) == cleared_view(window_view(old_w), pane));
            assert(self.windows@ =~= ows.update(k as int, w));
            lemma_update(ows, k as int, w);
        }
        true
    }
}

/// `(pane, capture)` pairs as plain values.
pub open spec fn capture_views(c: Seq<(u32, Vec<u8>)>) -> Seq<(u32, Seq<u8>)> {
    c.map_values(|x: (u32, Vec<u8>)| (x.0, x.1@))
}

/// The panes of a redrawn window: the captures, with an empty active pane
/// added when it is missing, ordered by number.
pub open spec fn frame_panes(c: Seq<(u32, Seq<u8>)>, active: u32) -> Seq<(u32, Seq<u8>)> {
    if exists|k: int| 0 <= k < c.len() && c[k].0 == active {
        sort_panes_spec(c)
    } else {
        sort_panes_spec(c.push((active, Seq::empty())))
    }
}

/// A window number is present exactly when `window_at` finds it.
pub proof fn lemma_has(ws: Seq<TmuxWindowReplay>, index: u32)
    ensures
        window_indexes(ws).contains(index) <==> window_at(ws, index) is Some,
{
    if window_indexes(ws).contains(index) {
        let k = choose|k: int| 0 <= k < window_indexes(ws).len() && window_indexes(ws)[k] == index;
        assert(ws[k].index == index);
    } else {
        lemma_missing(ws, index);
    }
}

/// Removing the window at position `k` keeps the order and leaves the
/// other windows alone.
proof fn lemma_remove(ws: Seq<TmuxWindowReplay>, k: int)
    requires
        strictly_sorted(window_indexes(ws)),
        0 <= k < ws.len(),
    ensures
        strictly_sorted(window_indexes(ws.remove(k))),
        window_at(ws.remove(k), ws[k].index) is None,
        forall|i: u32| i != ws[k].index ==> window_at(ws.remove(k), i) == window_at(ws, i),
{
    let nws = ws.remove(k);
    assert forall|a: int, b: int| 0 <= a < b < nws.len() implies window_indexes(nws)[a] < window_indexes(nws)[b] by {
        let a2 = if a < k { a } else { a + 1 };
        let b2 = if b < k { b } else { b + 1 };
        assert(nws[a] == ws[a2] && nws[b] == ws[b2]);
        assert(window_indexes(ws)[a2] < window_indexes(ws)[b2]);
    }
    assert forall|j: int| 0 <= j < nws.len() implies nws[j].index != ws[k].index by {
        let j2 = if j < k { j } else { j + 1 };
        assert(nws[j] == ws[j2]);
        if ws[j2].index == ws[k].index {
            lemma_position_unique(ws, j2, k);
        }
    }
    assert forall|i: u32| i != ws[k].index implies window_at(nws, i) == window_at(ws, i) by {
        if exists|j: int| 0 <= j < ws.len() && ws[j].index == i {
            let j = choose|j: int| 0 <= j < ws.len() && ws[j].index == i;
            lemma_window_at(ws, j);
            let j2 = if j < k { j } else { j - 1 };
            assert(nws[j2] == ws[j]);
            lemma_window_at(nws, j2);
        } else {
            assert forall|j: int| 0 <= j < nws.len() implies nws[j].index != i by {
                let j2 = if j < k { j } else { j + 1 };
                assert(nws[j] == ws[j2]);
            }
        }
    }
}

impl TmuxSessionState {
    /// Creates window `index`, named by its number, unless it exists, and
    /// gives its position.
    fn ensure_window_named(&mut self, index: u32) -> (k: usize)
        requires
            old(self).wf(),
        ensures
            final(self).wf(),
            final(self).same_but_windows(old(self)),
            k < final(self).windows@.len(),
            final(self).windows@[k as int].index == index,
            window_view(final(self).windows@[k as int]) == base_view(old(self).windows@, index),
            window_at(final(self).windows@, index) == Some(final(self).windows@[k as int]),
            forall|i: u32| i != index ==> window_at(final(self).windows@, i) == window_at(old(self).windows@, i),
    {
        let ghost ows = self.windows@;
        proof {
            lemma_has(ows, index);
            lemma_has(ows, self.active_window);
        }
        self.ensure_window(index, decimal_string(index as u64));
        proof {
            lemma_has(self.windows@, index);
            lemma_has(self.windows@, self.active_window);
        }
        match self.locate(index) {
            Some(k) => {
                proof {
                    if window_at(ows, index) is None {
                        let x = self.windows@[k as int];
                        assert(is_fresh_window(x, index, decimal(index as nat)));
                        assert(x.panes@[0].capture@ =~= Seq::<u8>::empty());
                        assert(x.replay@ =~= Seq::<u8>::empty());
                        assert(pane_views(x.panes@) =~= seq![(0u32, Seq::<u8>::empty())]);
                    }
                }
                k
            },
            None => {
                proof {
                    assert(false);
                }
                0
            },
        }
    }

    /// The name, active pane and pane numbers of window `window`.
    pub fn pane_status(&self, window: u32) -> (r: Option<(String, u32, Vec<u32>)>)
        requires
            self.wf(),
        ensures
            match r {
                Some(t) => view_at(self.windows@, window) matches Some(v) && t.0@ == v.name
                    && t.1 == v.active_pane && t.2@ == v.panes.map_values(|p: (u32, Seq<u8>)| p.0),
                None => view_at(self.windows@, window) is None,
            },
    {
        let k = match self.locate(window) {
            Some(k) => k,
            None => return None,
        };
        let w = &self.windows[k];
        let mut ix: Vec<u32> = Vec::new();
        let mut j: usize = 0;
        while j < w.panes.len()
            invariant
                j <= w.panes@.len(),
                ix@ == pane_views(w.panes@).take(j as int).map_values(|p: (u32, Seq<u8>)| p.0),
            decreases w.panes@.len() - j,
        {
            ix.push(w.panes[j].index);
            proof {
                assert(pane_views(w.panes@).take(j + 1).map_values(|p: (u32, Seq<u8>)| p.0) =~= pane_views(
                    w.panes@,
                ).take(j as int).map_values(|p: (u32, Seq<u8>)| p.0).push(w.panes@[j as int].index));
            }
            j += 1;
        }
        proof {
            assert(pane_views(w.panes@).take(j as int) =~= pane_views(w.panes@));
        }
        Some((w.name.clone(), w.active_pane, ix))
    }

    /// Renames window `index`; false when it does not exist.
    pub fn rename_window(&mut self, index: u32, name: String) -> (r: bool)
        requires
            old(self).wf(),
        ensures
            final(self).wf(),
            final(self).same_but_windows(old(self)),
            r == (view_at(old(self).windows@, index) is Some),
            r ==> view_at(final(self).windows@, index) == Some(
                WindowView { name: name@, ..view_at(old(self).windows@, index).unwrap() },
            ),
            forall|i: u32| i != index ==> window_at(final(self).windows@, i) == window_at(old(self).windows@, i),
            !r ==> final(self).windows == old(self).windows,
    {
        let k = match self.locate(index) {
            Some(k) => k,
            None => return false,
        };
        let ghost ows = self.windows@;
        let mut w = self.windows.remove(k);
        w.name = name;
        self.windows.insert(k, w);
        proof {
            assert(self.windows@ =~= ows.update(k as int, w));
            lemma_update(ows, k as int, w);
        }
        true
    }

    /// Replaces the output, active pane and panes of window `index`
    /// (created first when missing) with a redrawn frame.
    #[verifier::rlimit(40)]
    #[verifier::spinoff_prover]
    pub fn replace_window_output(
        &mut self,
        index: u32,
        replay: Vec<u8>,
        active_pane: u32,
        captures: Vec<(u32, Vec<u8>)>,
    )
        requires
            old(self).wf(),
        ensures
            final(self).wf(),
            final(self).same_but_windows(old(self)),
            view_at(final(self).windows@, index) == Some(
                WindowView {
                    index,
                    name: base_view(old(self).windows@, index).name,
                    replay: replay@,
                    active_pane,
                    panes: frame_panes(capture_views(captures@), active_pane),
                },
            ),
            forall|i: u32| i != index ==> window_at(final(self).windows@, i) == window_at(old(self).windows@, i),
    {
        let k = self.ensure_window_named(index);
        let sorted = frame_pane_list(captures, active_pane);
        let ghost ows = self.windows@;
        let mut w = self.windows.remove(k);
        w.replay = replay;
        w.active_pane = active_pane;
        w.panes = sorted;
        self.windows.insert(k, w);
        proof {
            assert(self.windows@ =~= ows.update(k as int, w));
            lemma_update(ows, k as int, w);
        }
    }

    /// Appends `bytes` to the output of window `index` (created first when
    /// missing) and of its active pane, each kept to its last
    /// `MAX_REPLAY_BYTES` bytes.
    #[verifier::rlimit(40)]
    #[verifier::spinoff_prover]
    pub fn append_window_output(&mut self, index: u32, bytes: &[u8])
        requires
            old(self).wf(),
        ensures
            final(self).wf(),
            final(self).same_but_windows(old(self)),
            view_at(final(self).windows@, index) == Some(append_view(base_view(old(self).windows@, index), bytes@)),
            forall|i: u32| i != index ==> window_at(final(self).windows@, i) == window_at(old(self).windows@, i),
    {
        let k = self.ensure_window_named(index);
        let ghost ows = self.windows@;
        let ghost base = window_view(ows[k as int]);
        let mut w = self.windows.remove(k);
        proof {
            assert(w == ows[k as int]);
        }
        append_bytes(&mut w.replay, bytes);
        trim_replay(&mut w.replay);
        let active = w.active_pane;
        match find_pane(&w.panes, active) {
            Some(j) => {
                let ghost ops = w.panes@;
                let mut pn = w.panes.remove(j);
                append_bytes(&mut pn.capture, bytes);
                trim_replay(&mut pn.capture);
                w.panes.insert(j, pn);
                proof {
                    lemma_pane_update(ops, j as int, pn);
                    assert(w.panes@ =~= ops.update(j as int, pn));
                }
            },
            None => {},
        }
        self.windows.insert(k, w);
        proof {
            assert(self.windows@ =~= ows.update(k as int, w));
            lemma_update(ows, k as int, w);
            assert(window_view(w) == append_view(base, bytes@));
        }
    }

    /// Removes window `index`. The last window removed is replaced by a new
    /// window 0; an active window that is gone gives way to the first one.
    pub fn remove_window(&mut self, index: u32)
        requires
            old(self).wf(),
        ensures
            final(self).wf(),
            (exists|k: int| 0 <= k < old(self).windows@.len() && old(self).windows@[k].index != index)
                ==> forall|i: u32| window_at(final(self).windows@, i) == if i == index {
                    None
                } else {
                    window_at(old(self).windows@, i)
                },
            !(exists|k: int| 0 <= k < old(self).windows@.len() && old(self).windows@[k].index != index)
                ==> final(self).windows@.len() == 1 && is_fresh_window(final(self).windows@[0], 0, decimal(0)),
            final(self).last_window == if old(self).last_window == Some(index) {
                None
            } else {
                old(self).last_window
            },
            final(self).active_window == if old(self).active_window != index {
                old(self).active_window
            } else {
                final(self).windows@[0].index
            },
            final(self).attached_clients == old(self).attached_clients,
            final(self).cols == old(self).cols,
            final(self).rows == old(self).rows,
            final(self).buffer == old(self).buffer,
            window_removed(*old(self), *final(self), index),
    {
        let ghost ows = self.windows@;
        match self.locate(index) {
            Some(k) => {
                self.windows.remove(k);
                proof {
                    lemma_remove(ows, k as int);
                    assert forall|j: int| 0 <= j < self.windows@.len() implies panes_sorted(#[trigger] self.windows@[j].panes@) by {
                        let j2 = if j < k { j } else { j + 1 };
                        assert(self.windows@[j] == ows[j2]);
                    }
                }
            },
            None => {},
        }
        let ghost ws1 = self.windows@;
        proof {
            assert forall|i: u32| window_at(ws1, i) == if i == index { None } else { window_at(ows, i) } by {}
        }
        if self.last_window == Some(index) {
            self.last_window = None;
        }
        if self.windows.len() == 0 {
            proof {
                assert forall|k: int| 0 <= k < ows.len() implies ows[k].index == index by {
                    if ows[k].index != index {
                        lemma_window_at(ows, k);
                        assert(window_at(ws1, ows[k].index) is Some);
                    }
                }
            }
            self.windows.push(fresh_window(0, decimal_string(0)));
            proof {
                assert(window_indexes(self.windows@) =~= seq![0u32]);
            }
        } else {
            proof {
                if !(exists|k: int| 0 <= k < ows.len() && ows[k].index != index) {
                    assert(ws1[0].index != index) by {
                        lemma_window_at(ws1, 0);
                    }
                    let j = choose|j: int| 0 <= j < ows.len() && ows[j].index == ws1[0].index && true;
                    lemma_window_at(ws1, 0);
                    assert(window_at(ows, ws1[0].index) is Some);
                    assert(false);
                }
            }
        }
        proof {
            lemma_has(self.windows@, old(self).active_window);
            lemma_has(ows, old(self).active_window);
        }
        if !self.has_window(self.active_window) {
            self.active_window = self.windows[0].index;
            proof {
                assert(window_indexes(self.windows@)[0] == self.windows@[0].index);
            }
        } else {
            proof {
                if old(self).active_window == index {
                    if ws1.len() == 0 {
                        assert(index == 0);
                    } else {
                        assert(window_at(ws1, index) is None);
                    }
                }
            }
        }
    }

    /// Empties the recent output of the active window.
    pub fn clear_active_replay(&mut self)
        requires
            old(self).wf(),
        ensures
            final(self).wf(),
            final(self).same_but_windows(old(self)),
            view_at(final(self).windows@, old(self).active_window) == Some(
                WindowView { replay: Seq::empty(), ..view_at(old(self).windows@, old(self).active_window).unwrap() },
            ),
            forall|i: u32| i != old(self).active_window ==> window_at(final(self).windows@, i) == window_at(old(self).windows@, i),
            final(self).active_replay_spec().len() == 0,
    {
        let index = self.active_window;
        let k = self.ensure_window_named(index);
        let ghost ows = self.windows@;
        let mut w = self.windows.remove(k);
        w.replay.clear();
        self.windows.insert(k, w);
        proof {
            assert(w.replay@ =~= Seq::<u8>::empty());
            assert(self.windows@ =~= ows.update(k as int, w));
            lemma_update(ows, k as int, w);
            lemma_window_at(self.windows@, k as int);
            lemma_position_of(self, index, k as int);
        }
    }
}

/// In a well-formed state the active window exists, and its recent output
/// is what `active_replay_spec` gives.
pub proof fn lemma_active_view(st: &TmuxSessionState)
    requires
        st.wf(),
    ensures
        view_at(st.windows@, st.active_window) matches Some(v) && st.active_replay_spec() == v.replay
            && base_view(st.windows@, st.active_window) == v,
{
    let k = choose|k: int| 0 <= k < window_indexes(st.windows@).len() && window_indexes(st.windows@)[k] == st.active_window;
    assert(st.windows@[k].index == st.active_window);
    lemma_position_of(st, st.active_window, k);
    lemma_window_at(st.windows@, k);
}

/// A pane listed in a window is found by its number.
pub proof fn lemma_pane_present(st: &TmuxSessionState, w: u32, p: u32)
    requires
        view_at(st.windows@, w) matches Some(v) && v.panes.map_values(|x: (u32, Seq<u8>)| x.0).contains(p),
    ensures
        capture_spec(st.windows@, w, Some(p)) is Some,
{
    let v = view_at(st.windows@, w).unwrap();
    let ids = v.panes.map_values(|x: (u32, Seq<u8>)| x.0);
    let k = choose|k: int| 0 <= k < ids.len() && ids[k] == p;
    assert(v.panes[k].0 == p);
}
} // verus!
