//! The session bus: the session state together with the clients attached
//! to it, each with the events sent to it and not yet received.
use vstd::prelude::*;

use crate::session_model::{
    copy_event, event_view, EventView, TmuxPaneStatus, TmuxSessionEvent, TmuxSessionStatus,
};
use crate::session_state::{
    append_view, base_view, capture_spec, select_window_state, view_at, window_at, window_removed, window_selected,
    window_indexes, TmuxSessionState, WindowView,
};
use crate::text::{decimal, str_eq};

verus! {

/// One attached client: the events sent to it that it has not received.
pub struct TmuxSessionSubscriber {
    pub id: u64,
    pub client_id: Option<String>,
    pub connected: bool,
    pub pending: Vec<TmuxSessionEvent>,
}

/// A client's handle on its subscription.
pub struct TmuxSessionSubscription {
    pub id: u64,
    pub active: bool,
}

/// Why `try_recv` gave no event.
#[derive(Clone, Copy, Debug, PartialEq, Eq)]
pub enum TmuxRecvError {
    Empty,
    Disconnected,
}

/// The session state and its subscribers.
pub struct TmuxSessionBus {
    pub state: TmuxSessionState,
    pub subscribers: Vec<TmuxSessionSubscriber>,
    pub next_id: u64,
}

/// A subscriber as plain values.
pub struct SubscriberView {
    pub id: u64,
    pub client_id: Option<Seq<char>>,
    pub connected: bool,
    pub pending: Seq<EventView>,
}

pub open spec fn subscriber_view(s: TmuxSessionSubscriber) -> SubscriberView {
    SubscriberView {
        id: s.id,
        client_id: match s.client_id {
            Some(c) => Some(c@),
            None => None,
        },
        connected: s.connected,
        pending: s.pending@.map_values(|e: TmuxSessionEvent| event_view(e)),
    }
}

pub open spec fn subscribers_view(ss: Seq<TmuxSessionSubscriber>) -> Seq<SubscriberView> {
    ss.map_values(|s: TmuxSessionSubscriber| subscriber_view(s))
}

/// Every connected subscriber with `e` queued behind its pending events.
pub open spec fn delivered(ss: Seq<SubscriberView>, e: EventView) -> Seq<SubscriberView> {
    ss.map_values(
        |s: SubscriberView|
            if s.connected {
                SubscriberView { pending: s.pending.push(e), ..s }
            } else {
                s
            },
    )
}

/// Position of the first subscriber from `i` on with number `id`.
pub open spec fn find_subscriber(ss: Seq<SubscriberView>, id: u64, i: int) -> Option<int>
    decreases ss.len() - i,
{
    if i < 0 || i >= ss.len() {
        None
    } else if ss[i].id == id {
        Some(i)
    } else {
        find_subscriber(ss, id, i + 1)
    }
}

/// The same subscribers, those of client `client` no longer connected.
pub open spec fn detached(ss: Seq<SubscriberView>, client: Seq<char>) -> Seq<SubscriberView> {
    ss.map_values(
        |s: SubscriberView|
            if s.client_id == Some(client) {
                SubscriberView { connected: false, ..s }
            } else {
                s
            },
    )
}

/// `n + 1`, kept at `u32::MAX`.
pub open spec fn sat_inc(n: u32) -> u32 {
    if n == u32::MAX {
        n
    } else {
        (n + 1) as u32
    }
}

/// `n - 1`, kept at 0.
pub open spec fn sat_dec(n: u32) -> u32 {
    if n == 0 {
        n
    } else {
        (n - 1) as u32
    }
}

/// The subscribers' view of a bus.
pub open spec fn subs(b: &TmuxSessionBus) -> Seq<SubscriberView> {
    subscribers_view(b.subscribers@)
}

/// `after` is the bus whose session was `state` and whose subscribers were
/// `before` once window `index` is selected: when the window exists it
/// becomes the active one and the connected subscribers get a terminal reset
/// followed by its recent output; otherwise nothing changes.
pub open spec fn bus_selected(state: TmuxSessionState, before: Seq<SubscriberView>, after: TmuxSessionBus, index: u32) -> bool {
    if state.has_window_spec(index) {
        let replay = view_at(state.windows@, index).unwrap().replay;
        let reset = delivered(before, EventView::Output(seq![27u8, 99u8]));
        &&& window_selected(state, after.state, index)
        &&& subs(&after) == if replay.len() > 0 {
            delivered(reset, EventView::Output(replay))
        } else {
            reset
        }
    } else {
        after.state == state && subs(&after) == before
    }
}

fn copy_bytes_vec(src: &[u8]) -> (r: Vec<u8>)
    ensures
        r@ == src@,
{
    let mut c: Vec<u8> = Vec::new();
    let mut i: usize = 0;
    while i < src.len()
        invariant
            i <= src@.len(),
            c@ == src@.take(i as int),
        decreases src@.len() - i,
    {
        c.push(src[i]);
        assert(src@.take(i as int).push(src@[i as int]) =~= src@.take(i + 1));
        i += 1;
    }
    assert(src@.take(src@.len() as int) =~= src@);
    c
}

fn copy_string(s: &String) -> (r: String)
    ensures
        r@ == s@,
{
    s.clone()
}

impl TmuxSessionBus {
    /// The session state is well formed.
    pub open spec fn wf(&self) -> bool {
        self.state.wf()
    }

    /// A bus for a session with windows `0..max(windows, 1)` and no clients.
    pub fn new(windows: u32) -> (r: TmuxSessionBus)
        ensures
            r.wf(),
            window_indexes(r.state.windows@) == Seq::new(
                if windows < 1 { 1nat } else { windows as nat },
                |i: int| i as u32,
            ),
            r.state.active_window == 0,
            r.state.attached_clients == 0,
            r.state.active_replay_spec().len() == 0,
            subs(&r).len() == 0,
    {
        let state = TmuxSessionState::new(windows);
        let r = TmuxSessionBus { state, subscribers: Vec::new(), next_id: 0 };
        proof {
            assert(subs(&r) =~= Seq::<SubscriberView>::empty());
        }
        r
    }

    /// Queues `event` for every connected subscriber.
    pub fn send_to_subscribers(&mut self, event: TmuxSessionEvent)
        ensures
            subs(final(self)) == delivered(subs(old(self)), event_view(event)),
            final(self).state == old(self).state,
            final(self).next_id == old(self).next_id,
    {
        let ghost orig = subs(self);
        let ghost e = event_view(event);
        let mut i: usize = 0;
        while i < self.subscribers.len()
            invariant
                i <= self.subscribers@.len(),
                self.subscribers@.len() == orig.len(),
                e == event_view(event),
                forall|j: int| 0 <= j < i ==> subs(self)[j] == delivered(orig, e)[j],
                forall|j: int| i <= j < orig.len() ==> subs(self)[j] == orig[j],
                self.state == old(self).state,
                self.next_id == old(self).next_id,
            decreases orig.len() - i,
        {
            if self.subscribers[i].connected {
                let ghost before = self.subscribers@;
                let mut s = self.subscribers.remove(i);
                let ghost sp = s.pending@;
                s.pending.push(copy_event(&event));
                self.subscribers.insert(i, s);
                proof {
                    assert(self.subscribers@ =~= before.update(i as int, s));
                    assert(s.pending@.map_values(|x: TmuxSessionEvent| event_view(x)) =~= sp.map_values(
                        |x: TmuxSessionEvent| event_view(x),
                    ).push(e));
                    assert forall|j: int| 0 <= j < orig.len() && j != i implies subs(self)[j] == subscribers_view(before)[j] by {
                        assert(self.subscribers@[j] == before[j]);
                    }
                }
            }
            i += 1;
        }
        proof {
            assert(subs(self) =~= delivered(orig, e));
        }
    }

    /// Attaches a client: gives the active window's recent output and a
    /// subscription that receives every event published from now on.
    pub fn subscribe_with_replay(&mut self, client_id: Option<String>) -> (r: (
        Vec<u8>,
        TmuxSessionSubscription,
    ))
        requires
            old(self).wf(),
        ensures
            final(self).wf(),
            r.0@ == old(self).state.active_replay_spec(),
            r.1.id == old(self).next_id,
            r.1.active,
            subs(final(self)) == subs(old(self)).push(
                SubscriberView {
                    id: old(self).next_id,
                    client_id: match client_id {
                        Some(c) => Some(c@),
                        None => None,
                    },
                    connected: true,
                    pending: Seq::empty(),
                },
            ),
            final(self).next_id == if old(self).next_id == u64::MAX {
                old(self).next_id
            } else {
                (old(self).next_id + 1) as u64
            },
            final(self).state.attached_clients == sat_inc(old(self).state.attached_clients),
            final(self).state.windows == old(self).state.windows,
            final(self).state.active_window == old(self).state.active_window,
            final(self).state.last_window == old(self).state.last_window,
    {
        let replay = copy_bytes_vec(self.state.active_replay());
        let id = self.next_id;
        let sub = TmuxSessionSubscriber { id, client_id, connected: true, pending: Vec::new() };
        self.subscribers.push(sub);
        proof {
            assert(sub.pending@.map_values(|x: TmuxSessionEvent| event_view(x)) =~= Seq::<EventView>::empty());
            assert(subs(self) =~= subs(old(self)).push(subscriber_view(sub)));
        }
        self.state.attached_clients = self.state.attached_clients.saturating_add(1);
        self.next_id = id.saturating_add(1);
        (replay, TmuxSessionSubscription { id, active: true })
    }

    fn subscriber_position(&self, id: u64) -> (r: Option<usize>)
        ensures
            match r {
                Some(k) => find_subscriber(subs(self), id, 0) == Some(k as int) && k < self.subscribers@.len(),
                None => find_subscriber(subs(self), id, 0) is None,
            },
    {
        let ghost ss = subs(self);
        let mut k: usize = 0;
        while k < self.subscribers.len()
            invariant
                k <= self.subscribers@.len(),
                ss == subs(self),
                find_subscriber(ss, id, 0) == find_subscriber(ss, id, k as int),
            decreases self.subscribers@.len() - k,
        {
            if self.subscribers[k].id == id {
                return Some(k);
            }
            k += 1;
        }
        None
    }

    /// The next event for `sub`, if one is waiting.
    pub fn try_recv(&mut self, sub: &TmuxSessionSubscription) -> (r: Result<
        TmuxSessionEvent,
        TmuxRecvError,
    >)
        ensures
            final(self).state == old(self).state,
            final(self).next_id == old(self).next_id,
            match find_subscriber(subs(old(self)), sub.id, 0) {
                None => r == Err::<TmuxSessionEvent, TmuxRecvError>(TmuxRecvError::Disconnected)
                    && subs(final(self)) == subs(old(self)),
                Some(k) => {
                    let s = subs(old(self))[k];
                    if s.pending.len() > 0 {
                        r matches Ok(e) && event_view(e) == s.pending[0] && subs(final(self))
                            == subs(old(self)).update(k, SubscriberView { pending: s.pending.drop_first(), ..s })
                    } else {
                        subs(final(self)) == subs(old(self)) && r == Err::<TmuxSessionEvent, TmuxRecvError>(
                            if s.connected {
                                TmuxRecvError::Empty
                            } else {
                                TmuxRecvError::Disconnected
                            },
                        )
                    }
                },
            },
    {
        let k = match self.subscriber_position(sub.id) {
            Some(k) => k,
            None => return Err(TmuxRecvError::Disconnected),
        };
        if self.subscribers[k].pending.len() == 0 {
            if self.subscribers[k].connected {
                return Err(TmuxRecvError::Empty);
            } else {
                return Err(TmuxRecvError::Disconnected);
            }
        }
        let ghost before = self.subscribers@;
        let mut s = self.subscribers.remove(k);
        let ghost sp = s.pending@;
        let e = s.pending.remove(0);
        self.subscribers.insert(k, s);
        proof {
            assert(self.subscribers@ =~= before.update(k as int, s));
            assert(s.pending@.map_values(|x: TmuxSessionEvent| event_view(x)) =~= sp.map_values(
                |x: TmuxSessionEvent| event_view(x),
            ).drop_first());
            assert(subs(self) =~= subscribers_view(before).update(k as int, subscriber_view(s)));
        }
        Ok(e)
    }

    /// Ends `sub`: the client no longer counts as attached and receives
    /// nothing more.
    pub fn unsubscribe(&mut self, sub: TmuxSessionSubscription)
        ensures
            final(self).state.attached_clients == if sub.active {
                sat_dec(old(self).state.attached_clients)
            } else {
                old(self).state.attached_clients
            },
            final(self).state.windows == old(self).state.windows,
            final(self).state.active_window == old(self).state.active_window,
            final(self).state.last_window == old(self).state.last_window,
            final(self).state.cols == old(self).state.cols,
            final(self).state.rows == old(self).state.rows,
            final(self).state.buffer == old(self).state.buffer,
            final(self).next_id == old(self).next_id,
            subs(final(self)) == match find_subscriber(subs(old(self)), sub.id, 0) {
                Some(k) => subs(old(self)).remove(k),
                None => subs(old(self)),
            },
    {
        if sub.active {
            self.state.attached_clients = self.state.attached_clients.saturating_sub(1);
        }
        match self.subscriber_position(sub.id) {
            Some(k) => {
                let ghost before = self.subscribers@;
                self.subscribers.remove(k);
                proof {
                    assert(subs(self) =~= subscribers_view(before).remove(k as int));
                }
            },
            None => {},
        }
    }

    /// The recent output of the active window.
    pub fn replay_snapshot(&self) -> (r: Vec<u8>)
        requires
            self.wf(),
        ensures
            r@ == self.state.active_replay_spec(),
    {
        copy_bytes_vec(self.state.active_replay())
    }

    /// The recent output of the active pane of window `index` (the active
    /// window when `None`).
    pub fn window_replay_snapshot(&self, index: Option<u32>) -> (r: Option<Vec<u8>>)
        requires
            self.wf(),
        ensures
            match r {
                Some(b) => capture_spec(
                    self.state.windows@,
                    match index {
                        Some(i) => i,
                        None => self.state.active_window,
                    },
                    None,
                ) == Some(b@),
                None => capture_spec(
                    self.state.windows@,
                    match index {
                        Some(i) => i,
                        None => self.state.active_window,
                    },
                    None,
                ) is None,
            },
    {
        let index = match index {
            Some(i) => i,
            None => self.state.active_window,
        };
        match self.state.window_capture(index, None) {
            Some(b) => Some(copy_bytes_vec(b)),
            None => None,
        }
    }

    /// A summary of the session.
    pub fn status_snapshot(&self) -> (r: TmuxSessionStatus)
        requires
            self.wf(),
        ensures
            r.replay_bytes == self.state.active_replay_spec().len(),
            r.attached_clients == self.state.attached_clients,
            r.windows as int == if self.state.windows@.len() > u32::MAX {
                u32::MAX as int
            } else {
                self.state.windows@.len() as int
            },
            r.active_window == self.state.active_window,
            r.window_indexes@ == window_indexes(self.state.windows@),
            r.window_names@.len() == self.state.windows@.len(),
            forall|k: int| 0 <= k < self.state.windows@.len() ==> (#[trigger] r.window_names@[k])@
                == self.state.windows@[k].name@,
            r.cols == self.state.cols,
            r.rows == self.state.rows,
    {
        let replay_bytes = self.state.active_replay().len();
        let mut window_indexes_v: Vec<u32> = Vec::new();
        let mut window_names: Vec<String> = Vec::new();
        let mut k: usize = 0;
        while k < self.state.windows.len()
            invariant
                k <= self.state.windows@.len(),
                window_indexes_v@ == window_indexes(self.state.windows@).take(k as int),
                window_names@.len() == k,
                forall|j: int| 0 <= j < k ==> (#[trigger] window_names@[j])@ == self.state.windows@[j].name@,
            decreases self.state.windows@.len() - k,
        {
            window_indexes_v.push(self.state.windows[k].index);
            window_names.push(copy_string(&self.state.windows[k].name));
            proof {
                assert(window_indexes(self.state.windows@).take(k + 1) =~= window_indexes(
                    self.state.windows@,
                ).take(k as int).push(self.state.windows@[k as int].index));
            }
            k += 1;
        }
        proof {
            assert(window_indexes(self.state.windows@).take(k as int) =~= window_indexes(self.state.windows@));
        }
        let n = self.state.windows.len();
        let windows: u32 = if n > 4294967295 {
            4294967295
        } else {
            n as u32
        };
        TmuxSessionStatus {
            replay_bytes,
            attached_clients: self.state.attached_clients,
            windows,
            active_window: self.state.active_window,
            window_indexes: window_indexes_v,
            window_names,
            cols: self.state.cols,
            rows: self.state.rows,
        }
    }

    /// Empties the recent output of the active pane of window `index` (the
    /// active window when `None`); false when there is no such pane.
    pub fn clear_window_replay(&mut self, index: Option<u32>) -> (r: bool)
        requires
            old(self).wf(),
        ensures
            final(self).wf(),
            final(self).state.same_but_windows(&old(self).state),
            subs(final(self)) == subs(old(self)),
            r == capture_spec(
                old(self).state.windows@,
                match index {
                    Some(i) => i,
                    None => old(self).state.active_window,
                },
                None,
            ) is Some,
            forall|i: u32|
                i != (match index {
                    Some(i) => i,
                    None => old(self).state.active_window,
                }) ==> window_at(final(self).state.windows@, i) == window_at(old(self).state.windows@, i),
    {
        let index = match index {
            Some(i) => i,
            None => self.state.active_window,
        };
        self.state.clear_window_capture(index, None)
    }

    /// Empties the recent output of the active window.
    pub fn clear_replay(&mut self)
        requires
            old(self).wf(),
        ensures
            final(self).wf(),
            final(self).state.same_but_windows(&old(self).state),
            final(self).state.active_replay_spec().len() == 0,
            subs(final(self)) == subs(old(self)),
            forall|i: u32| i != old(self).state.active_window ==> window_at(final(self).state.windows@, i) == window_at(old(self).state.windows@, i),
    {
        self.state.clear_active_replay();
    }

    /// Sends output to the attached clients without keeping it for replay.
    pub fn publish_transient_output(&mut self, bytes: &[u8])
        ensures
            final(self).state == old(self).state,
            subs(final(self)) == delivered(subs(old(self)), EventView::Output(bytes@)),
    {
        self.send_to_subscribers(TmuxSessionEvent::Output(copy_bytes_vec(bytes)));
    }

    /// Records output of window `index` (created when missing); the
    /// attached clients receive it when that window is the active one.
    pub fn publish_window_output(&mut self, index: u32, bytes: &[u8])
        requires
            old(self).wf(),
        ensures
            final(self).wf(),
            final(self).state.same_but_windows(&old(self).state),
            view_at(final(self).state.windows@, index) == Some(append_view(base_view(old(self).state.windows@, index), bytes@)),
            forall|i: u32| i != index ==> window_at(final(self).state.windows@, i) == window_at(old(self).state.windows@, i),
            subs(final(self)) == if index == old(self).state.active_window {
                delivered(subs(old(self)), EventView::Output(bytes@))
            } else {
                subs(old(self))
            },
    {
        self.state.append_window_output(index, bytes);
        if index == self.state.active_window {
            self.send_to_subscribers(TmuxSessionEvent::Output(copy_bytes_vec(bytes)));
        }
    }

    /// Records output of the active window and sends it to the attached
    /// clients.
    pub fn publish_output(&mut self, bytes: &[u8])
        requires
            old(self).wf(),
        ensures
            final(self).wf(),
            final(self).state.same_but_windows(&old(self).state),
            final(self).state.active_replay_spec() == crate::session_state::trimmed(
                old(self).state.active_replay_spec() + bytes@,
            ),
            view_at(final(self).state.windows@, old(self).state.active_window) == Some(
                append_view(base_view(old(self).state.windows@, old(self).state.active_window), bytes@),
            ),
            forall|i: u32| i != old(self).state.active_window ==> window_at(final(self).state.windows@, i) == window_at(old(self).state.windows@, i),
            subs(final(self)) == delivered(subs(old(self)), EventView::Output(bytes@)),
    {
        let active = self.status_snapshot().active_window;
        proof {
            crate::session_state::lemma_active_view(&old(self).state);
        }
        self.publish_window_output(active, bytes);
        proof {
            crate::session_state::lemma_active_view(&self.state);
        }
    }

    /// Records a redrawn frame of window `index`; the attached clients
    /// receive it when that window is the active one.
    pub fn publish_window_frame(
        &mut self,
        index: u32,
        frame: Vec<u8>,
        active_pane: u32,
        captures: Vec<(u32, Vec<u8>)>,
    )
        requires
            old(self).wf(),
        ensures
            final(self).wf(),
            final(self).state.same_but_windows(&old(self).state),
            view_at(final(self).state.windows@, index) == Some(
                WindowView {
                    index,
                    name: base_view(old(self).state.windows@, index).name,
                    replay: frame@,
                    active_pane,
                    panes: crate::session_state::frame_panes(crate::session_state::capture_views(captures@), active_pane),
                },
            ),
            forall|i: u32| i != index ==> window_at(final(self).state.windows@, i) == window_at(old(self).state.windows@, i),
            subs(final(self)) == if index == old(self).state.active_window {
                delivered(subs(old(self)), EventView::Output(frame@))
            } else {
                subs(old(self))
            },
    {
        let copy = copy_bytes_vec(&frame);
        self.state.replace_window_output(index, copy, active_pane, captures);
        if index == self.state.active_window {
            self.send_to_subscribers(TmuxSessionEvent::Output(frame));
        }
    }

    /// Records the terminal size and tells the attached clients.
    pub fn publish_resize(&mut self, cols: u16, rows: u16)
        ensures
            final(self).state.cols == Some(cols),
            final(self).state.rows == Some(rows),
            final(self).state.windows == old(self).state.windows,
            final(self).state.active_window == old(self).state.active_window,
            final(self).state.last_window == old(self).state.last_window,
            final(self).state.attached_clients == old(self).state.attached_clients,
            final(self).state.buffer == old(self).state.buffer,
            subs(final(self)) == delivered(subs(old(self)), EventView::Resize { cols, rows }),
    {
        self.state.cols = Some(cols);
        self.state.rows = Some(rows);
        self.send_to_subscribers(TmuxSessionEvent::Resize { cols, rows });
    }

    /// Keeps exactly the windows `0..max(windows, 1)`.
    pub fn set_windows(&mut self, windows: u32)
        requires
            old(self).wf(),
        ensures
            final(self).wf(),
            window_indexes(final(self).state.windows@) == Seq::new(
                if windows < 1 { 1nat } else { windows as nat },
                |i: int| i as u32,
            ),
            forall|i: u32| i < windows && window_at(old(self).state.windows@, i) is Some ==> window_at(final(self).state.windows@, i) == window_at(old(self).state.windows@, i),
            forall|i: u32| (i < windows || i == 0) ==> view_at(final(self).state.windows@, i) == Some(base_view(old(self).state.windows@, i)),
            final(self).state.active_window == if old(self).state.active_window < windows {
                old(self).state.active_window
            } else {
                0
            },
            subs(final(self)) == subs(old(self)),
    {
        let n = if windows < 1 {
            1
        } else {
            windows
        };
        self.state.set_window_count(n);
        proof {
            assert forall|i: u32| (i < windows || i == 0) implies view_at(self.state.windows@, i) == Some(base_view(old(self).state.windows@, i)) by {
                if window_at(old(self).state.windows@, i) is None {
                    let w = window_at(self.state.windows@, i).unwrap();
                    assert(w.panes@[0].capture@ =~= Seq::<u8>::empty());
                    assert(w.replay@ =~= Seq::<u8>::empty());
                    assert(crate::session_state::pane_views(w.panes@) =~= seq![(0u32, Seq::<u8>::empty())]);
                }
            }
        }
    }

    /// Adds window `index` named `name` unless it exists.
    pub fn add_window(&mut self, index: u32, name: String)
        requires
            old(self).wf(),
        ensures
            final(self).wf(),
            final(self).state.same_but_windows(&old(self).state),
            window_at(old(self).state.windows@, index) is Some ==> final(self).state.windows == old(self).state.windows,
            window_at(old(self).state.windows@, index) is None ==> view_at(final(self).state.windows@, index) == Some(
                crate::session_state::fresh_view(index, name@),
            ),
            forall|i: u32| i != index ==> window_at(final(self).state.windows@, i) == window_at(old(self).state.windows@, i),
            subs(final(self)) == subs(old(self)),
    {
        let ghost nm = name@;
        proof {
            crate::session_state::lemma_has(self.state.windows@, index);
            crate::session_state::lemma_has(self.state.windows@, self.state.active_window);
        }
        self.state.ensure_window(index, name);
        proof {
            crate::session_state::lemma_has(self.state.windows@, self.state.active_window);
            if window_at(old(self).state.windows@, index) is None {
                let w = window_at(self.state.windows@, index).unwrap();
                assert(w.panes@[0].capture@ =~= Seq::<u8>::empty());
                assert(w.replay@ =~= Seq::<u8>::empty());
                assert(crate::session_state::pane_views(w.panes@) =~= seq![(0u32, Seq::<u8>::empty())]);
            }
        }
    }

    /// Renames window `index`; false when it does not exist.
    pub fn rename_window(&mut self, index: u32, name: String) -> (r: bool)
        requires
            old(self).wf(),
        ensures
            final(self).wf(),
            final(self).state.same_but_windows(&old(self).state),
            r == (view_at(old(self).state.windows@, index) is Some),
            r ==> view_at(final(self).state.windows@, index) == Some(
                WindowView { name: name@, ..view_at(old(self).state.windows@, index).unwrap() },
            ),
            forall|i: u32| i != index ==> window_at(final(self).state.windows@, i) == window_at(old(self).state.windows@, i),
            !r ==> final(self).state.windows == old(self).state.windows,
            subs(final(self)) == subs(old(self)),
    {
        self.state.rename_window(index, name)
    }

    /// Removes window `index` (see `TmuxSessionState::remove_window`).
    pub fn remove_window(&mut self, index: u32)
        requires
            old(self).wf(),
        ensures
            final(self).wf(),
            (exists|k: int| 0 <= k < old(self).state.windows@.len() && old(self).state.windows@[k].index != index)
                ==> forall|i: u32| window_at(final(self).state.windows@, i) == if i == index {
                    None
                } else {
                    window_at(old(self).state.windows@, i)
                },
            final(self).state.last_window == if old(self).state.last_window == Some(index) {
                None
            } else {
                old(self).state.last_window
            },
            final(self).state.active_window == if old(self).state.active_window != index {
                old(self).state.active_window
            } else {
                final(self).state.windows@[0].index
            },
            subs(final(self)) == subs(old(self)),
            window_removed(old(self).state, final(self).state, index),
    {
        self.state.remove_window(index);
    }

    /// Makes window `index` the active one: the attached clients get a
    /// terminal reset followed by that window's recent output. False, with
    /// nothing changed, when the window does not exist.
    pub fn select_window(&mut self, index: u32) -> (r: bool)
        requires
            old(self).wf(),
        ensures
            final(self).wf(),
            r == old(self).state.has_window_spec(index),
            !r ==> final(self).state == old(self).state && subs(final(self)) == subs(old(self)),
            r ==> final(self).state.active_window == index,
            r ==> final(self).state.last_window == if old(self).state.active_window != index {
                Some(old(self).state.active_window)
            } else {
                old(self).state.last_window
            },
            r ==> final(self).state.windows == old(self).state.windows,
            r ==> {
                let replay = view_at(old(self).state.windows@, index).unwrap().replay;
                let reset = delivered(subs(old(self)), EventView::Output(seq![27u8, 99u8]));
                subs(final(self)) == if replay.len() > 0 {
                    delivered(reset, EventView::Output(replay))
                } else {
                    reset
                }
            },
            bus_selected(old(self).state, subs(old(self)), *final(self), index),
    {
        if !self.state.has_window(index) {
            return false;
        }
        select_window_state(&mut self.state, index);
        proof {
            crate::session_state::lemma_has(self.state.windows@, index);
            crate::session_state::lemma_active_view(&self.state);
        }
        let replay = copy_bytes_vec(self.state.active_replay());
        let reset: Vec<u8> = vec![27u8, 99u8];
        proof {
            assert(reset@ =~= seq![27u8, 99u8]);
        }
        self.send_to_subscribers(TmuxSessionEvent::Output(reset));
        if replay.len() > 0 {
            self.send_to_subscribers(TmuxSessionEvent::Output(replay));
        }
        true
    }

    /// Goes back to the previously active window, if it still exists.
    pub fn select_last_window(&mut self) -> (r: Option<u32>)
        requires
            old(self).wf(),
        ensures
            final(self).wf(),
            subs(final(self)) == subs(old(self)),
            final(self).state.windows == old(self).state.windows,
            match old(self).state.last_window {
                None => r is None && final(self).state == old(self).state,
                Some(i) => if old(self).state.has_window_spec(i) {
                    r == Some(i) && final(self).state.active_window == i && final(self).state.last_window
                        == if old(self).state.active_window != i {
                        Some(old(self).state.active_window)
                    } else {
                        old(self).state.last_window
                    }
                } else {
                    r is None && final(self).state.last_window is None && final(self).state.active_window
                        == old(self).state.active_window
                },
            },
    {
        let index = match self.state.last_window {
            Some(i) => i,
            None => return None,
        };
        if !self.state.has_window(index) {
            self.state.last_window = None;
            return None;
        }
        select_window_state(&mut self.state, index);
        Some(index)
    }

    /// Disconnects every subscriber of client `client_id`.
    pub fn detach_client(&mut self, client_id: &str)
        ensures
            final(self).state == old(self).state,
            subs(final(self)) == detached(subs(old(self)), client_id@),
    {
        let ghost orig = subs(self);
        let ghost cid = client_id@;
        let mut i: usize = 0;
        while i < self.subscribers.len()
            invariant
                i <= self.subscribers@.len(),
                self.subscribers@.len() == orig.len(),
                cid == client_id@,
                forall|j: int| 0 <= j < i ==> subs(self)[j] == detached(orig, cid)[j],
                forall|j: int| i <= j < orig.len() ==> subs(self)[j] == orig[j],
                self.state == old(self).state,
            decreases orig.len() - i,
        {
            let matches = match &self.subscribers[i].client_id {
                Some(c) => str_eq(c.as_str(), client_id),
                None => false,
            };
            if matches {
                let ghost before = self.subscribers@;
                let mut s = self.subscribers.remove(i);
                s.connected = false;
                self.subscribers.insert(i, s);
                proof {
                    assert(self.subscribers@ =~= before.update(i as int, s));
                    assert forall|j: int| 0 <= j < orig.len() && j != i implies subs(self)[j] == subscribers_view(before)[j] by {
                        assert(self.subscribers@[j] == before[j]);
                    }
                }
            }
            i += 1;
        }
        proof {
            assert(subs(self) =~= detached(orig, cid));
        }
    }

    /// Tells the attached clients to detach.
    pub fn publish_detach(&mut self)
        ensures
            final(self).state == old(self).state,
            subs(final(self)) == delivered(subs(old(self)), EventView::Detach),
    {
        self.send_to_subscribers(TmuxSessionEvent::Detach);
    }

    /// Tells the attached clients that the session ended with `code`.
    pub fn publish_exit(&mut self, code: i32)
        ensures
            final(self).state == old(self).state,
            subs(final(self)) == delivered(subs(old(self)), EventView::Exit(code)),
    {
        self.send_to_subscribers(TmuxSessionEvent::Exit(code));
    }

    /// Replaces the paste buffer.
    pub fn set_buffer(&mut self, bytes: Vec<u8>)
        ensures
            final(self).state.buffer@ == bytes@,
            final(self).state.windows == old(self).state.windows,
            final(self).state.active_window == old(self).state.active_window,
            final(self).state.last_window == old(self).state.last_window,
            final(self).state.attached_clients == old(self).state.attached_clients,
            final(self).state.cols == old(self).state.cols,
            final(self).state.rows == old(self).state.rows,
            subs(final(self)) == subs(old(self)),
    {
        self.state.buffer = bytes;
    }

    /// A copy of the paste buffer.
    pub fn buffer_snapshot(&self) -> (r: Vec<u8>)
        ensures
            r@ == self.state.buffer@,
    {
        copy_bytes_vec(&self.state.buffer)
    }

    /// The window a request for `window` is about: the active one when `None`.
    pub open spec fn target_window(&self, window: Option<u32>) -> u32 {
        match window {
            Some(w) => w,
            None => self.state.active_window,
        }
    }

    /// The panes of window `window` (the active window when `None`).
    pub fn pane_status_snapshot(&self, window: Option<u32>) -> (r: Option<TmuxPaneStatus>)
        requires
            self.wf(),
        ensures
            match r {
                Some(st) => view_at(self.state.windows@, self.target_window(window)) matches Some(v)
                    && st.window_index == self.target_window(window) && st.window_name@ == v.name
                    && st.active_pane == v.active_pane && st.pane_indexes@ == v.panes.map_values(
                    |p: (u32, Seq<u8>)| p.0,
                ),
                None => view_at(self.state.windows@, self.target_window(window)) is None,
            },
    {
        let index = match window {
            Some(w) => w,
            None => self.state.active_window,
        };
        match self.state.pane_status(index) {
            Some((name, active, panes)) => Some(
                TmuxPaneStatus { window_index: index, window_name: name, active_pane: active, pane_indexes: panes },
            ),
            None => None,
        }
    }
}

} // verus!
