//! How a session server answers one client request: what it changes in
//! the session, what it replies and what it asks its control loop to do.
use vstd::prelude::*;

use crate::ipc::{TmuxBufferInfo, TmuxIpcRequest, TmuxIpcResponse};
use crate::messages::{buffer_not_found_hint, pane_not_found_hint, window_not_found_hint};
use crate::session_core::{
    delivered, detached, subs, TmuxSessionBus, TmuxSessionSubscription,
};
use crate::session_model::{EventView, TmuxControlEvent, TmuxSessionEvent};
use crate::session_state::{view_at, WindowView};
use crate::text::{decimal, extend_bytes, owned};
use vstd::string::StringSliceAdditionalSpecFns;

verus! {

/// The reply to a request, the control event it raises and, for
/// `Attach`, the new subscription.
pub struct RequestOutcome {
    pub response: TmuxIpcResponse,
    pub control: Option<TmuxControlEvent>,
    pub subscription: Option<TmuxSessionSubscription>,
}

/// The pane numbers of a window.
pub open spec fn pane_ids(v: WindowView) -> Seq<u32> {
    v.panes.map_values(|p: (u32, Seq<u8>)| p.0)
}

/// Why a request about window `window` failed: it does not exist.
pub open spec fn window_missing_reason(target: Seq<char>, window: u32) -> Seq<char> {
    "未找到"@ + target + "窗口："@ + decimal(window as nat)
}

/// Why a request about a pane failed: it does not exist.
pub open spec fn pane_missing_reason(window: u32, pane: u32) -> Seq<char> {
    "未找到"@ + "current"@ + "窗格："@ + decimal(window as nat) + "."@ + decimal(pane as nat)
}

/// The name the session's paste buffer is known by.
pub open spec fn buffer_label(name: Option<String>, default: Seq<char>) -> Seq<char> {
    match name {
        Some(n) => n@,
        None => default,
    }
}

/// The pane a request is about: `pane`, or the active pane of the target
/// window; or the reason it cannot be found.
pub open spec fn pane_target_spec(b: &TmuxSessionBus, window: Option<u32>, pane: Option<u32>) -> Result<
    (u32, u32),
    Seq<char>,
> {
    let w = b.target_window(window);
    match view_at(b.state.windows@, w) {
        None => Err(window_missing_reason("current"@, match window {
            Some(x) => x,
            None => 0,
        })),
        Some(v) => {
            let p = match pane {
                Some(p) => p,
                None => v.active_pane,
            };
            if pane_ids(v).contains(p) {
                Ok((w, p))
            } else {
                Err(pane_missing_reason(w, p))
            }
        },
    }
}

/// The neighbour of `pane` in `panes`, after it (`forward`) or before it,
/// wrapping around; counting from the first pane when `pane` is not there.
pub open spec fn adjacent_pane_spec(panes: Seq<u32>, pane: u32, forward: bool) -> u32 {
    if panes.len() == 0 {
        pane
    } else {
        let position: int = if exists|k: int| 0 <= k < panes.len() && panes[k] == pane {
            choose|k: int| 0 <= k < panes.len() && panes[k] == pane && forall|j: int| 0 <= j < k ==> panes[j] != pane
        } else {
            0
        };
        let offset: int = if forward { 1 } else { panes.len() - 1 };
        panes[(position + offset) % (panes.len() as int)]
    }
}

/// The pane after (or before) `pane` in `panes`.
pub fn adjacent_pane(panes: &[u32], pane: u32, forward: bool) -> (r: u32)
    ensures
        r == adjacent_pane_spec(panes@, pane, forward),
{
    let n = panes.len();
    if n == 0 {
        return pane;
    }
    let mut k: usize = 0;
    while k < n && panes[k] != pane
        invariant
            k <= n,
            n == panes@.len(),
            forall|j: int| 0 <= j < k ==> panes@[j] != pane,
        decreases n - k,
    {
        k += 1;
    }
    let position: usize = if k < n {
        k
    } else {
        0
    };
    proof {
        if k < n {
            let c = choose|c: int| 0 <= c < panes@.len() && panes@[c] == pane && forall|j: int| 0 <= j < c ==> panes@[j] != pane;
            assert(0 <= k < panes@.len() && panes@[k as int] == pane && forall|j: int| 0 <= j < k ==> panes@[j] != pane);
            if c < k {
                assert(panes@[c] != pane);
            } else if c > k {
                assert(panes@[k as int] != pane);
            }
        } else {
            assert forall|c: int| 0 <= c < panes@.len() implies panes@[c] != pane by {}
        }
    }
    let offset: usize = if forward {
        1
    } else {
        n - 1
    };
    let i: usize = if offset >= n - position {
        position - (n - offset)
    } else {
        position + offset
    };
    proof {
        let sum: int = position + offset;
        if sum < n {
            assert(sum % (n as int) == sum) by (nonlinear_arith)
                requires 0 <= sum < n;
        } else {
            assert(sum % (n as int) == sum - n) by (nonlinear_arith)
                requires n <= sum < 2 * n;
        }
    }
    panes[i]
}

fn contains_u32(xs: &Vec<u32>, x: u32) -> (r: bool)
    ensures
        r == xs@.contains(x),
{
    let mut k: usize = 0;
    while k < xs.len()
        invariant
            k <= xs@.len(),
            forall|j: int| 0 <= j < k ==> xs@[j] != x,
        decreases xs@.len() - k,
    {
        if xs[k] == x {
            assert(xs@[k as int] == x);
            return true;
        }
        k += 1;
    }
    false
}

/// The pane a request is about, or the reason it cannot be found.
pub fn pane_target(b: &TmuxSessionBus, window: Option<u32>, pane: Option<u32>) -> (r: Result<(u32, u32), String>)
    requires
        b.wf(),
    ensures
        match r {
            Ok(t) => pane_target_spec(b, window, pane) == Ok::<(u32, u32), Seq<char>>(t),
            Err(m) => pane_target_spec(b, window, pane) == Err::<(u32, u32), Seq<char>>(m@),
        },
{
    let status = match b.pane_status_snapshot(window) {
        Some(s) => s,
        None => {
            let w = match window {
                Some(x) => x,
                None => 0,
            };
            return Err(window_not_found_hint("current", w as u64));
        },
    };
    let p = match pane {
        Some(p) => p,
        None => status.active_pane,
    };
    if contains_u32(&status.pane_indexes, p) {
        Ok((status.window_index, p))
    } else {
        Err(pane_not_found_hint("current", status.window_index, p))
    }
}

fn accepted(control: Option<TmuxControlEvent>) -> (r: RequestOutcome)
    ensures
        r.response is Accepted,
        r.control == control,
        r.subscription is None,
{
    RequestOutcome { response: TmuxIpcResponse::Accepted, control, subscription: None }
}

fn rejected(reason: String) -> (r: RequestOutcome)
    ensures
        r.response matches TmuxIpcResponse::Rejected { reason: x } && x@ == reason@,
        r.control is None,
        r.subscription is None,
{
    RequestOutcome { response: TmuxIpcResponse::Rejected { reason }, control: None, subscription: None }
}

fn copy_bytes(src: &[u8]) -> (r: Vec<u8>)
    ensures
        r@ == src@,
{
    let mut v: Vec<u8> = Vec::new();
    extend_bytes(&mut v, src);
    v
}

fn buffer_name(name: &Option<String>) -> (r: String)
    ensures
        r@ == buffer_label(*name, "buffer0"@),
{
    match name {
        Some(n) => n.clone(),
        None => owned("buffer0"),
    }
}

fn missing_buffer_name(name: &Option<String>) -> (r: String)
    ensures
        r@ == "未找到缓冲区："@ + buffer_label(*name, "top"@),
{
    match name {
        Some(n) => buffer_not_found_hint(n.as_str()),
        None => buffer_not_found_hint("top"),
    }
}

/// A reply rejecting the request with `reason`.
pub open spec fn is_rejected(r: RequestOutcome, reason: Seq<char>) -> bool {
    &&& r.response matches TmuxIpcResponse::Rejected { reason: x } && x@ == reason
    &&& r.control is None
}

/// An acceptance raising `control`.
pub open spec fn is_accepted(r: RequestOutcome, control: Option<TmuxControlEvent>) -> bool {
    &&& r.response is Accepted
    &&& r.control == control
}

/// For a request about a pane: accepted with the event that `make` builds
/// from the window and pane, or rejected with the reason.
pub open spec fn pane_request_spec(
    b: &TmuxSessionBus,
    window: Option<u32>,
    pane: Option<u32>,
    r: RequestOutcome,
    make: spec_fn(u32, u32) -> TmuxControlEvent,
) -> bool {
    match pane_target_spec(b, window, pane) {
        Ok((w, p)) => is_accepted(r, Some(make(w, p))),
        Err(m) => is_rejected(r, m),
    }
}

/// For a request about a window: accepted with the event that `make`
/// builds from the window, or rejected when the window does not exist.
pub open spec fn window_request_spec(
    b: &TmuxSessionBus,
    window: Option<u32>,
    r: RequestOutcome,
    make: spec_fn(u32) -> TmuxControlEvent,
) -> bool {
    match view_at(b.state.windows@, b.target_window(window)) {
        Some(_) => is_accepted(r, Some(make(b.target_window(window)))),
        None => is_rejected(r, window_missing_reason("current"@, match window {
            Some(x) => x,
            None => 0,
        })),
    }
}

/// The message a `display-message` request shows: the text and a line break.
pub open spec fn display_bytes(message: Seq<char>) -> Seq<u8> {
    vstd::utf8::encode_utf8(message) + seq![13u8, 10u8]
}

/// Answers one request.
/// Everything but the paste buffer is as it was.
pub open spec fn only_buffer_changed(before: &TmuxSessionBus, after: &TmuxSessionBus) -> bool {
    &&& after.state.windows == before.state.windows
    &&& after.state.active_window == before.state.active_window
    &&& after.state.last_window == before.state.last_window
    &&& after.state.attached_clients == before.state.attached_clients
    &&& after.state.cols == before.state.cols
    &&& after.state.rows == before.state.rows
    &&& subs(after) == subs(before)
}

/// The requests that change the session state or its subscribers; the
/// others only read it or hand an event to the control loop.
pub open spec fn changes_bus(request: TmuxIpcRequest) -> bool {
    ||| request is Attach
    ||| request is DetachClient
    ||| request is DetachAll
    ||| request is ClearHistory
    ||| request is DeleteBuffer
    ||| request is SetBuffer
    ||| request is DisplayMessage
    ||| request is UpdateWindows
    ||| request is SelectWindow
    ||| request is LastWindow
}

#[verifier::rlimit(60)]
#[verifier::spinoff_prover]
pub fn handle_request(
    bus: &mut TmuxSessionBus,
    session_name: &mut String,
    cwd: &str,
    request: TmuxIpcRequest,
) -> (r: RequestOutcome)
    requires
        old(bus).wf(),
    ensures
        final(bus).wf(),
        r.subscription is Some ==> request is Attach,
        !changes_bus(request) ==> *final(bus) == *old(bus),
        !(request is RenameSession) ==> final(session_name)@ == old(session_name)@,
        match request {
            TmuxIpcRequest::Attach { client_id } => {
                &&& r.response matches TmuxIpcResponse::Attached { replay } && replay@
                    == old(bus).state.active_replay_spec()
                &&& r.control is None
                &&& r.subscription matches Some(s) && s.id == old(bus).next_id && s.active
                &&& subs(final(bus)) == subs(old(bus)).push(
                    crate::session_core::SubscriberView {
                        id: old(bus).next_id,
                        client_id: match client_id {
                            Some(c) => Some(c@),
                            None => None,
                        },
                        connected: true,
                        pending: Seq::empty(),
                    },
                )
                &&& final(bus).state.attached_clients == crate::session_core::sat_inc(old(bus).state.attached_clients)
                &&& final(bus).state.windows == old(bus).state.windows
                &&& final(bus).state.active_window == old(bus).state.active_window
            },
            TmuxIpcRequest::Detach => is_accepted(r, None) && *final(bus) == *old(bus),
            TmuxIpcRequest::DetachClient { client_id } => is_accepted(r, None) && subs(final(bus))
                == detached(subs(old(bus)), client_id@) && final(bus).state == old(bus).state,
            TmuxIpcRequest::DetachAll => is_accepted(r, None) && subs(final(bus)) == delivered(
                subs(old(bus)),
                EventView::Detach,
            ) && final(bus).state == old(bus).state,
            TmuxIpcRequest::CapturePane { window, pane } => match pane_target_spec(old(bus), window, pane) {
                Ok((w, p)) => r.response matches TmuxIpcResponse::Captured { bytes } && r.control is None
                    && crate::session_state::capture_spec(old(bus).state.windows@, w, Some(p))
                    == Some(bytes@),
                Err(m) => is_rejected(r, m),
            },
            TmuxIpcRequest::ClearHistory { window, pane } => match pane_target_spec(old(bus), window, pane) {
                Ok((w, p)) => is_accepted(r, None) && view_at(final(bus).state.windows@, w) == Some(
                    crate::session_state::cleared_view(view_at(old(bus).state.windows@, w).unwrap(), Some(p)),
                ) && final(bus).state.same_but_windows(&old(bus).state) && subs(final(bus)) == subs(old(bus))
                    && (forall|i: u32| i != w ==> crate::session_state::window_at(final(bus).state.windows@, i)
                    == crate::session_state::window_at(old(bus).state.windows@, i)),
                Err(m) => is_rejected(r, m) && final(bus).state == old(bus).state,
            },
            TmuxIpcRequest::DeleteBuffer { name } => if old(bus).state.buffer@.len() > 0 {
                is_accepted(r, None) && final(bus).state.buffer@.len() == 0 && only_buffer_changed(old(bus), final(bus))
            } else {
                is_rejected(r, "未找到缓冲区："@ + buffer_label(name, "top"@)) && *final(bus) == *old(bus)
            },
            TmuxIpcRequest::GetBuffer { name } => if old(bus).state.buffer@.len() > 0 {
                r.response matches TmuxIpcResponse::Buffer { name: n, bytes } && n@ == buffer_label(
                    name,
                    "buffer0"@,
                ) && bytes@ == old(bus).state.buffer@ && r.control is None
            } else {
                is_rejected(r, "未找到缓冲区："@ + buffer_label(name, "top"@))
            },
            TmuxIpcRequest::ListBuffers => r.response matches TmuxIpcResponse::Buffers { buffers } && r.control
                is None && if old(bus).state.buffer@.len() > 0 {
                buffers@.len() == 1 && buffers@[0].name@ == "buffer0"@ && buffers@[0].bytes@
                    == old(bus).state.buffer@
            } else {
                buffers@.len() == 0
            },
            TmuxIpcRequest::PasteBuffer { name } => if old(bus).state.buffer@.len() > 0 {
                &&& r.response is Accepted
                &&& r.control matches Some(TmuxControlEvent::Input(b)) && b@ == old(bus).state.buffer@
            } else {
                is_rejected(r, "未找到缓冲区："@ + buffer_label(name, "top"@))
            },
            TmuxIpcRequest::SetBuffer { name, bytes } => is_accepted(r, None) && final(bus).state.buffer@
                == bytes@ && only_buffer_changed(old(bus), final(bus)),
            TmuxIpcRequest::RefreshClient => r.response matches TmuxIpcResponse::Captured { bytes } && bytes@
                == old(bus).state.active_replay_spec() && r.control is None,
            TmuxIpcRequest::DisplayMessage { message } => is_accepted(r, None) && subs(final(bus))
                == delivered(subs(old(bus)), EventView::Output(display_bytes(message@)))
                && final(bus).state == old(bus).state,
            TmuxIpcRequest::Info => r.response matches TmuxIpcResponse::Info {
                session_name: n,
                windows,
                attached_clients,
                active_window,
                window_indexes,
                window_names,
                cwd: c,
            } && n@ == old(session_name)@ && c@ == cwd@ && attached_clients == old(bus).state.attached_clients
                && active_window == old(bus).state.active_window && window_indexes@
                == crate::session_state::window_indexes(old(bus).state.windows@) && r.control is None
                && windows as int == (if old(bus).state.windows@.len() > u32::MAX {
                u32::MAX as int
            } else {
                old(bus).state.windows@.len() as int
            }) && window_names@.len() == old(bus).state.windows@.len() && (forall|k: int|
                0 <= k < old(bus).state.windows@.len() ==> (#[trigger] window_names@[k])@
                    == old(bus).state.windows@[k].name@),
            TmuxIpcRequest::Input { bytes } => is_accepted(r, Some(TmuxControlEvent::Input(bytes))),
            TmuxIpcRequest::Ping => is_accepted(r, None) && *final(bus) == *old(bus),
            TmuxIpcRequest::Quit => is_accepted(r, Some(TmuxControlEvent::Terminate)),
            TmuxIpcRequest::RenameSession { name } => is_accepted(r, None) && final(session_name)@ == name@,
            TmuxIpcRequest::RenameWindow { index, name } => is_accepted(
                r,
                Some(TmuxControlEvent::RenameWindow { index, name }),
            ),
            TmuxIpcRequest::UpdateWindows { windows } => {
                &&& is_accepted(r, None)
                &&& crate::session_state::window_indexes(final(bus).state.windows@) == Seq::new(
                    if windows < 1 {
                        1nat
                    } else {
                        windows as nat
                    },
                    |i: int| i as u32,
                )
                &&& forall|i: u32| (i < windows || i == 0) ==> view_at(final(bus).state.windows@, i) == Some(
                    crate::session_state::base_view(old(bus).state.windows@, i),
                )
                &&& final(bus).state.active_window == if old(bus).state.active_window < windows {
                    old(bus).state.active_window
                } else {
                    0
                }
                &&& subs(final(bus)) == subs(old(bus))
            },
            TmuxIpcRequest::NewWindow { index, name, command } => is_accepted(
                r,
                Some(TmuxControlEvent::NewWindow { index, name, command }),
            ),
            TmuxIpcRequest::KillWindow { index } => is_accepted(r, Some(TmuxControlEvent::KillWindow { index })),
            TmuxIpcRequest::SelectWindow { index } => if old(bus).state.has_window_spec(index) {
                &&& is_accepted(r, Some(TmuxControlEvent::SelectWindow { index }))
                &&& final(bus).state.active_window == index
                &&& final(bus).state.windows == old(bus).state.windows
                &&& subs(final(bus)) == {
                    let replay = view_at(old(bus).state.windows@, index).unwrap().replay;
                    let reset = delivered(subs(old(bus)), EventView::Output(seq![27u8, 99u8]));
                    if replay.len() > 0 {
                        delivered(reset, EventView::Output(replay))
                    } else {
                        reset
                    }
                }
            } else {
                is_rejected(r, window_missing_reason("current"@, index)) && final(bus).state == old(bus).state
            },
            TmuxIpcRequest::LastWindow => match old(bus).state.last_window {
                Some(i) if old(bus).state.has_window_spec(i) => is_accepted(
                    r,
                    Some(TmuxControlEvent::SelectWindow { index: i }),
                ) && final(bus).state.active_window == i && final(bus).state.windows == old(bus).state.windows
                    && subs(final(bus)) == subs(old(bus)),
                _ => is_rejected(r, window_missing_reason("last"@, 0)),
            },
            TmuxIpcRequest::PaneInfo { window } => match view_at(
                old(bus).state.windows@,
                old(bus).target_window(window),
            ) {
                Some(v) => r.response matches TmuxIpcResponse::Panes {
                    window_index,
                    window_name,
                    active_pane,
                    pane_indexes,
                } && window_index == old(bus).target_window(window) && window_name@ == v.name && active_pane
                    == v.active_pane && pane_indexes@ == pane_ids(v) && r.control is None,
                None => is_rejected(r, window_missing_reason("current"@, match window {
                    Some(x) => x,
                    None => 0,
                })),
            },
            TmuxIpcRequest::SplitPane { window, horizontal, command } => window_request_spec(
                old(bus),
                window,
                r,
                |w: u32| TmuxControlEvent::SplitPane { window: w, horizontal, command },
            ),
            TmuxIpcRequest::SelectPaneDirection { window, direction } => window_request_spec(
                old(bus),
                window,
                r,
                |w: u32| TmuxControlEvent::SelectPaneDirection { window: w, direction },
            ),
            TmuxIpcRequest::SetSynchronizePanes { window, enabled } => window_request_spec(
                old(bus),
                window,
                r,
                |w: u32| TmuxControlEvent::SetSynchronizePanes { window: w, enabled },
            ),
            TmuxIpcRequest::SelectPane { window, pane } => pane_request_spec(
                old(bus),
                window,
                pane,
                r,
                |w: u32, p: u32| TmuxControlEvent::SelectPane { window: w, pane: p },
            ),
            TmuxIpcRequest::KillPane { window, pane } => pane_request_spec(
                old(bus),
                window,
                pane,
                r,
                |w: u32, p: u32| TmuxControlEvent::KillPane { window: w, pane: p },
            ),
            TmuxIpcRequest::TogglePaneZoom { window, pane } => pane_request_spec(
                old(bus),
                window,
                pane,
                r,
                |w: u32, p: u32| TmuxControlEvent::TogglePaneZoom { window: w, pane: p },
            ),
            TmuxIpcRequest::ResizePane { window, pane, cols, rows } => pane_request_spec(
                old(bus),
                window,
                pane,
                r,
                |w: u32, p: u32| TmuxControlEvent::ResizePane { window: w, pane: p, cols, rows },
            ),
            TmuxIpcRequest::SwapPane { window, source, target, forward } => match pane_target_spec(
                old(bus),
                window,
                source,
            ) {
                Err(m) => is_rejected(r, m),
                Ok((w, s)) => {
                    let v = view_at(old(bus).state.windows@, w).unwrap();
                    let t = match target {
                        Some(t) => t,
                        None => adjacent_pane_spec(pane_ids(v), s, forward),
                    };
                    if pane_ids(v).contains(t) {
                        is_accepted(r, Some(TmuxControlEvent::SwapPane { window: w, source: s, target: t }))
                    } else {
                        is_rejected(r, pane_missing_reason(w, t))
                    }
                },
            },
            TmuxIpcRequest::Resize { cols, rows } => is_accepted(r, Some(TmuxControlEvent::Resize { cols, rows })),
        },
{
    match request {
        TmuxIpcRequest::Attach { client_id } => {
            let (replay, subscription) = bus.subscribe_with_replay(client_id);
            RequestOutcome {
                response: TmuxIpcResponse::Attached { replay },
                control: None,
                subscription: Some(subscription),
            }
        },
        TmuxIpcRequest::Detach => accepted(None),
        TmuxIpcRequest::DetachClient { client_id } => {
            bus.detach_client(client_id.as_str());
            accepted(None)
        },
        TmuxIpcRequest::DetachAll => {
            bus.publish_detach();
            accepted(None)
        },
        TmuxIpcRequest::CapturePane { window, pane } => match pane_target(bus, window, pane) {
            Ok((w, p)) => match bus.state.window_capture(w, Some(p)) {
                Some(bytes) => RequestOutcome {
                    response: TmuxIpcResponse::Captured { bytes: copy_bytes(bytes) },
                    control: None,
                    subscription: None,
                },
                None => {
                    proof {
                        crate::session_state::lemma_pane_present(&bus.state, w, p);
                    }
                    rejected(pane_not_found_hint("current", w, p))
                },
            },
            Err(m) => rejected(m),
        },
        TmuxIpcRequest::ClearHistory { window, pane } => match pane_target(bus, window, pane) {
            Ok((w, p)) => {
                proof {
                    crate::session_state::lemma_pane_present(&bus.state, w, p);
                }
                bus.state.clear_window_capture(w, Some(p));
                accepted(None)
            },
            Err(m) => rejected(m),
        },
        TmuxIpcRequest::DeleteBuffer { name } => {
            if bus.state.buffer.len() > 0 {
                bus.state.buffer.clear();
                accepted(None)
            } else {
                rejected(missing_buffer_name(&name))
            }
        },
        TmuxIpcRequest::GetBuffer { name } => {
            if bus.state.buffer.len() > 0 {
                RequestOutcome {
                    response: TmuxIpcResponse::Buffer { name: buffer_name(&name), bytes: bus.buffer_snapshot() },
                    control: None,
                    subscription: None,
                }
            } else {
                rejected(missing_buffer_name(&name))
            }
        },
        TmuxIpcRequest::ListBuffers => {
            let mut buffers: Vec<TmuxBufferInfo> = Vec::new();
            if bus.state.buffer.len() > 0 {
                buffers.push(TmuxBufferInfo { name: owned("buffer0"), bytes: bus.buffer_snapshot() });
            }
            RequestOutcome { response: TmuxIpcResponse::Buffers { buffers }, control: None, subscription: None }
        },
        TmuxIpcRequest::PasteBuffer { name } => {
            if bus.state.buffer.len() > 0 {
                accepted(Some(TmuxControlEvent::Input(bus.buffer_snapshot())))
            } else {
                rejected(missing_buffer_name(&name))
            }
        },
        TmuxIpcRequest::SetBuffer { name, bytes } => {
            bus.set_buffer(bytes);
            accepted(None)
        },
        TmuxIpcRequest::RefreshClient => RequestOutcome {
            response: TmuxIpcResponse::Captured { bytes: bus.replay_snapshot() },
            control: None,
            subscription: None,
        },
        TmuxIpcRequest::DisplayMessage { message } => {
            let mut bytes: Vec<u8> = Vec::new();
            extend_bytes(&mut bytes, message.as_str().as_bytes());
            bytes.push(13u8);
            bytes.push(10u8);
            proof {
                assert(bytes@ =~= display_bytes(message@));
            }
            bus.publish_transient_output(&bytes);
            accepted(None)
        },
        TmuxIpcRequest::Info => {
            let status = bus.status_snapshot();
            RequestOutcome {
                response: TmuxIpcResponse::Info {
                    session_name: session_name.clone(),
                    windows: status.windows,
                    attached_clients: status.attached_clients,
                    active_window: status.active_window,
                    window_indexes: status.window_indexes,
                    window_names: status.window_names,
                    cwd: owned(cwd),
                },
                control: None,
                subscription: None,
            }
        },
        TmuxIpcRequest::Input { bytes } => accepted(Some(TmuxControlEvent::Input(bytes))),
        TmuxIpcRequest::Ping => accepted(None),
        TmuxIpcRequest::Quit => accepted(Some(TmuxControlEvent::Terminate)),
        TmuxIpcRequest::RenameSession { name } => {
            *session_name = name;
            accepted(None)
        },
        TmuxIpcRequest::RenameWindow { index, name } => accepted(
            Some(TmuxControlEvent::RenameWindow { index, name }),
        ),
        TmuxIpcRequest::UpdateWindows { windows } => {
            bus.set_windows(windows);
            accepted(None)
        },
        TmuxIpcRequest::NewWindow { index, name, command } => accepted(
            Some(TmuxControlEvent::NewWindow { index, name, command }),
        ),
        TmuxIpcRequest::KillWindow { index } => accepted(Some(TmuxControlEvent::KillWindow { index })),
        TmuxIpcRequest::SelectWindow { index } => {
            if bus.select_window(index) {
                accepted(Some(TmuxControlEvent::SelectWindow { index }))
            } else {
                rejected(window_not_found_hint("current", index as u64))
            }
        },
        TmuxIpcRequest::LastWindow => match bus.select_last_window() {
            Some(index) => accepted(Some(TmuxControlEvent::SelectWindow { index })),
            None => rejected(window_not_found_hint("last", 0)),
        },
        TmuxIpcRequest::PaneInfo { window } => match bus.pane_status_snapshot(window) {
            Some(status) => RequestOutcome {
                response: TmuxIpcResponse::Panes {
                    window_index: status.window_index,
                    window_name: status.window_name,
                    active_pane: status.active_pane,
                    pane_indexes: status.pane_indexes,
                },
                control: None,
                subscription: None,
            },
            None => rejected(window_missing(window)),
        },
        TmuxIpcRequest::SplitPane { window, horizontal, command } => match bus.pane_status_snapshot(window) {
            Some(status) => accepted(
                Some(TmuxControlEvent::SplitPane { window: status.window_index, horizontal, command }),
            ),
            None => rejected(window_missing(window)),
        },
        TmuxIpcRequest::SelectPaneDirection { window, direction } => match bus.pane_status_snapshot(window) {
            Some(status) => accepted(
                Some(TmuxControlEvent::SelectPaneDirection { window: status.window_index, direction }),
            ),
            None => rejected(window_missing(window)),
        },
        TmuxIpcRequest::SetSynchronizePanes { window, enabled } => match bus.pane_status_snapshot(window) {
            Some(status) => accepted(
                Some(TmuxControlEvent::SetSynchronizePanes { window: status.window_index, enabled }),
            ),
            None => rejected(window_missing(window)),
        },
        TmuxIpcRequest::SelectPane { window, pane } => match pane_target(bus, window, pane) {
            Ok((w, p)) => accepted(Some(TmuxControlEvent::SelectPane { window: w, pane: p })),
            Err(m) => rejected(m),
        },
        TmuxIpcRequest::KillPane { window, pane } => match pane_target(bus, window, pane) {
            Ok((w, p)) => accepted(Some(TmuxControlEvent::KillPane { window: w, pane: p })),
            Err(m) => rejected(m),
        },
        TmuxIpcRequest::TogglePaneZoom { window, pane } => match pane_target(bus, window, pane) {
            Ok((w, p)) => accepted(Some(TmuxControlEvent::TogglePaneZoom { window: w, pane: p })),
            Err(m) => rejected(m),
        },
        TmuxIpcRequest::ResizePane { window, pane, cols, rows } => match pane_target(bus, window, pane) {
            Ok((w, p)) => accepted(Some(TmuxControlEvent::ResizePane { window: w, pane: p, cols, rows })),
            Err(m) => rejected(m),
        },
        TmuxIpcRequest::SwapPane { window, source, target, forward } => match pane_target(bus, window, source) {
            Ok((w, s)) => {
                let status = match bus.pane_status_snapshot(Some(w)) {
                    Some(st) => st,
                    None => return rejected(window_not_found_hint("current", w as u64)),
                };
                let t = match target {
                    Some(t) => t,
                    None => adjacent_pane(status.pane_indexes.as_slice(), s, forward),
                };
                if contains_u32(&status.pane_indexes, t) {
                    accepted(Some(TmuxControlEvent::SwapPane { window: w, source: s, target: t }))
                } else {
                    rejected(pane_not_found_hint("current", w, t))
                }
            },
            Err(m) => rejected(m),
        },
        TmuxIpcRequest::Resize { cols, rows } => accepted(Some(TmuxControlEvent::Resize { cols, rows })),
    }
}

fn window_missing(window: Option<u32>) -> (r: String)
    ensures
        r@ == window_missing_reason("current"@, match window {
            Some(x) => x,
            None => 0,
        }),
{
    let w = match window {
        Some(x) => x,
        None => 0,
    };
    window_not_found_hint("current", w as u64)
}

} // verus!
