//! The record of running sessions: each session's name, the endpoint of
//! its server and its windows. Reading and writing the record is left to
//! the caller; these are the rules for changing it.
use vstd::prelude::*;

use crate::text::{decimal, decimal_string, str_eq};

verus! {

/// One running session.
#[derive(Clone, Debug)]
pub struct BuiltinTmuxSession {
    pub name: String,
    pub ipc_endpoint: Option<String>,
    pub windows: Vec<(u32, String)>,
}

/// A session as plain values.
pub struct SessionView {
    pub name: Seq<char>,
    pub endpoint: Option<Seq<char>>,
    pub windows: Seq<(u32, Seq<char>)>,
}

pub open spec fn opt_view(o: Option<String>) -> Option<Seq<char>> {
    match o {
        Some(s) => Some(s@),
        None => None,
    }
}

pub open spec fn window_views(ws: Seq<(u32, String)>) -> Seq<(u32, Seq<char>)> {
    ws.map_values(|w: (u32, String)| (w.0, w.1@))
}

pub open spec fn session_view(s: BuiltinTmuxSession) -> SessionView {
    SessionView { name: s.name@, endpoint: opt_view(s.ipc_endpoint), windows: window_views(s.windows@) }
}

pub open spec fn registry_view(r: Seq<BuiltinTmuxSession>) -> Seq<SessionView> {
    r.map_values(|s: BuiltinTmuxSession| session_view(s))
}

/// The first session from position `i` on called `name`.
pub open spec fn named_from(v: Seq<SessionView>, name: Seq<char>, i: int) -> Option<int>
    decreases v.len() - i,
{
    if i < 0 || i >= v.len() {
        None
    } else if v[i].name == name {
        Some(i)
    } else {
        named_from(v, name, i + 1)
    }
}

/// The position of the session called `name`.
pub open spec fn position_of(v: Seq<SessionView>, name: Seq<char>) -> Option<int> {
    named_from(v, name, 0)
}

proof fn lemma_named_from(v: Seq<SessionView>, name: Seq<char>, i: int)
    requires
        0 <= i,
    ensures
        named_from(v, name, i) matches Some(k) ==> i <= k < v.len() && v[k].name == name,
        named_from(v, name, i) is None ==> forall|k: int| i <= k < v.len() ==> v[k].name != name,
    decreases v.len() - i,
{
    if i < v.len() && v[i].name != name {
        lemma_named_from(v, name, i + 1);
    }
}

/// Where the session called `name` is recorded.
pub fn find_session(sessions: &[BuiltinTmuxSession], name: &str) -> (r: Option<usize>)
    ensures
        match r {
            Some(k) => position_of(registry_view(sessions@), name@) == Some(k as int) && k < sessions@.len()
                && sessions@[k as int].name@ == name@,
            None => position_of(registry_view(sessions@), name@) is None,
        },
{
    let ghost v = registry_view(sessions@);
    let mut k: usize = 0;
    proof {
        lemma_named_from(v, name@, 0);
    }
    while k < sessions.len()
        invariant
            k <= sessions@.len(),
            v == registry_view(sessions@),
            named_from(v, name@, 0) == named_from(v, name@, k as int),
        decreases sessions@.len() - k,
    {
        assert(v[k as int].name == sessions@[k as int].name@);
        if str_eq(sessions[k].name.as_str(), name) {
            return Some(k);
        }
        k += 1;
    }
    None
}

/// The numbers of a session's windows.
pub open spec fn window_numbers(ws: Seq<(u32, Seq<char>)>) -> Seq<u32> {
    ws.map_values(|w: (u32, Seq<char>)| w.0)
}

/// Records a new session with its first window, `0`; false, changing
/// nothing, when a session of that name is recorded already.
pub fn register_session(sessions: &mut Vec<BuiltinTmuxSession>, name: String, ipc_endpoint: Option<String>) -> (r: bool)
    ensures
        r == (position_of(registry_view(old(sessions)@), name@) is None),
        r ==> registry_view(final(sessions)@) == registry_view(old(sessions)@).push(
            SessionView { name: name@, endpoint: opt_view(ipc_endpoint), windows: seq![(0u32, "0"@)] },
        ),
        !r ==> final(sessions)@ == old(sessions)@,
{
    match find_session(sessions.as_slice(), name.as_str()) {
        Some(_) => false,
        None => {
            let mut windows: Vec<(u32, String)> = Vec::new();
            windows.push((0, decimal_string(0)));
            proof {
                reveal_strlit("0");
                assert(decimal(0) =~= "0"@);
                assert(window_views(windows@) =~= seq![(0u32, "0"@)]);
            }
            let ghost before = sessions@;
            sessions.push(BuiltinTmuxSession { name, ipc_endpoint, windows });
            assert(registry_view(sessions@) =~= registry_view(before).push(session_view(sessions@.last())));
            true
        },
    }
}

/// Forgets the session called `name`; false when it is not recorded.
pub fn remove_session(sessions: &mut Vec<BuiltinTmuxSession>, name: &str) -> (r: bool)
    ensures
        match position_of(registry_view(old(sessions)@), name@) {
            Some(k) => r && final(sessions)@ == old(sessions)@.remove(k),
            None => !r && final(sessions)@ == old(sessions)@,
        },
{
    match find_session(sessions.as_slice(), name) {
        Some(k) => {
            sessions.remove(k);
            true
        },
        None => false,
    }
}

/// How renaming a session went.
#[derive(Clone, Copy, Debug, PartialEq, Eq, Structural)]
pub enum RenameBuiltinTmuxSession {
    Renamed,
    SourceMissing,
    DestinationExists,
}

/// Renames session `from` to `to`: refused when `from` is not recorded, or
/// when another session is called `to` already.
pub fn rename_session(sessions: &mut Vec<BuiltinTmuxSession>, from: &str, to: &str) -> (r: RenameBuiltinTmuxSession)
    ensures
        match position_of(registry_view(old(sessions)@), from@) {
            None => r == RenameBuiltinTmuxSession::SourceMissing && final(sessions)@ == old(sessions)@,
            Some(k) => if from@ != to@ && position_of(registry_view(old(sessions)@), to@) is Some {
                r == RenameBuiltinTmuxSession::DestinationExists && final(sessions)@ == old(sessions)@
            } else {
                r == RenameBuiltinTmuxSession::Renamed && registry_view(final(sessions)@) == registry_view(
                    old(sessions)@,
                ).update(
                    k,
                    SessionView {
                        name: to@,
                        endpoint: registry_view(old(sessions)@)[k].endpoint,
                        windows: registry_view(old(sessions)@)[k].windows,
                    },
                )
            },
        },
{
    let k = match find_session(sessions.as_slice(), from) {
        Some(k) => k,
        None => return RenameBuiltinTmuxSession::SourceMissing,
    };
    if !str_eq(from, to) {
        match find_session(sessions.as_slice(), to) {
            Some(_) => return RenameBuiltinTmuxSession::DestinationExists,
            None => {},
        }
    }
    let ghost before = sessions@;
    let mut s = sessions.remove(k);
    s.name = crate::text::owned(to);
    sessions.insert(k, s);
    assert(registry_view(sessions@) =~= registry_view(before).update(
        k as int,
        SessionView {
            name: to@,
            endpoint: registry_view(before)[k as int].endpoint,
            windows: registry_view(before)[k as int].windows,
        },
    ));
    RenameBuiltinTmuxSession::Renamed
}

/// The number a new window gets: one past the largest in use, 0 for none;
/// none when the largest is `u32::MAX`.
pub open spec fn next_window_number(ns: Seq<u32>) -> Option<u32>
    decreases ns.len(),
{
    if ns.len() == 0 {
        Some(0)
    } else {
        match next_window_number(ns.drop_last()) {
            None => None,
            Some(n) => if ns.last() == u32::MAX {
                None
            } else if ns.last() + 1 > n {
                Some((ns.last() + 1) as u32)
            } else {
                Some(n)
            },
        }
    }
}

/// A number that `next_window_number` gives is in use by no window.
pub proof fn lemma_next_window_number_unused(ns: Seq<u32>)
    ensures
        next_window_number(ns) matches Some(n) ==> !ns.contains(n) && forall|i: int| 0 <= i < ns.len() ==> ns[i] < n,
    decreases ns.len(),
{
    if ns.len() > 0 {
        lemma_next_window_number_unused(ns.drop_last());
        if next_window_number(ns) is Some {
            let n = next_window_number(ns).unwrap();
            assert forall|i: int| 0 <= i < ns.len() implies ns[i] < n by {
                if i < ns.len() - 1 {
                    assert(ns.drop_last()[i] == ns[i]);
                }
            }
        }
    }
}

fn next_number(ws: &Vec<(u32, String)>) -> (r: Option<u32>)
    ensures
        r == next_window_number(window_numbers(window_views(ws@))),
{
    let ghost ns = window_numbers(window_views(ws@));
    let mut next: Option<u32> = Some(0);
    let mut k: usize = 0;
    assert(ns.take(0) =~= Seq::<u32>::empty());
    while k < ws.len()
        invariant
            k <= ws@.len(),
            ns == window_numbers(window_views(ws@)),
            ns.len() == ws@.len(),
            next == next_window_number(ns.take(k as int)),
        decreases ws@.len() - k,
    {
        let w = ws[k].0;
        assert(ns.take(k + 1).drop_last() =~= ns.take(k as int));
        assert(ns.take(k + 1).last() == w);
        next = match next {
            None => None,
            Some(n) => if w == u32::MAX {
                None
            } else if w + 1 > n {
                Some(w + 1)
            } else {
                Some(n)
            },
        };
        k += 1;
    }
    assert(ns.take(ws@.len() as int) =~= ns);
    next
}

/// How adding a window to a session went.
pub enum AddBuiltinTmuxWindow {
    /// The window got this number and name.
    Added { index: u32, name: String },
    SessionMissing,
    /// Every window number is in use.
    NumbersExhausted,
}

/// Records a new window in session `session`, numbered after the others
/// and named by its number.
pub fn add_window(sessions: &mut Vec<BuiltinTmuxSession>, session: &str) -> (r: AddBuiltinTmuxWindow)
    ensures
        match position_of(registry_view(old(sessions)@), session@) {
            None => r is SessionMissing && final(sessions)@ == old(sessions)@,
            Some(k) => match next_window_number(window_numbers(registry_view(old(sessions)@)[k].windows)) {
                None => r is NumbersExhausted && final(sessions)@ == old(sessions)@,
                Some(n) => (r matches AddBuiltinTmuxWindow::Added { index, name } && index == n && name@ == decimal(
                    n as nat,
                )) && registry_view(final(sessions)@) == registry_view(old(sessions)@).update(
                    k,
                    SessionView {
                        name: registry_view(old(sessions)@)[k].name,
                        endpoint: registry_view(old(sessions)@)[k].endpoint,
                        windows: registry_view(old(sessions)@)[k].windows.push((n, decimal(n as nat))),
                    },
                ),
            },
        },
{
    let k = match find_session(sessions.as_slice(), session) {
        Some(k) => k,
        None => return AddBuiltinTmuxWindow::SessionMissing,
    };
    let ghost before = sessions@;
    assert(registry_view(before)[k as int].windows == window_views(before[k as int].windows@));
    let n = match next_number(&sessions[k].windows) {
        Some(n) => n,
        None => return AddBuiltinTmuxWindow::NumbersExhausted,
    };
    let mut s = sessions.remove(k);
    let ghost old_ws = s.windows@;
    s.windows.push((n, decimal_string(n as u64)));
    assert(window_views(s.windows@) =~= window_views(old_ws).push((n, decimal(n as nat))));
    sessions.insert(k, s);
    assert(registry_view(sessions@) =~= registry_view(before).update(
        k as int,
        SessionView {
            name: registry_view(before)[k as int].name,
            endpoint: registry_view(before)[k as int].endpoint,
            windows: registry_view(before)[k as int].windows.push((n, decimal(n as nat))),
        },
    ));
    AddBuiltinTmuxWindow::Added { index: n, name: decimal_string(n as u64) }
}

/// The position of window `index` in a session's windows.
pub open spec fn window_position(ws: Seq<(u32, Seq<char>)>, index: u32) -> Option<int> {
    if exists|j: int| 0 <= j < ws.len() && ws[j].0 == index {
        Some(choose|j: int| 0 <= j < ws.len() && ws[j].0 == index && forall|i: int| 0 <= i < j ==> ws[i].0 != index)
    } else {
        None
    }
}

/// How killing a window went.
#[derive(Clone, Copy, Debug, PartialEq, Eq, Structural)]
pub enum KillBuiltinTmuxWindow {
    /// The window is gone; `remaining` windows are left.
    Killed { index: u32, remaining: u32 },
    /// It was the last window: the session is gone too.
    SessionKilled,
    SessionMissing,
    WindowMissing,
}

/// Forgets window `index` of session `session`; forgetting the last
/// window forgets the session.
pub fn kill_window(sessions: &mut Vec<BuiltinTmuxSession>, session: &str, index: u32) -> (r: KillBuiltinTmuxWindow)
    ensures
        match position_of(registry_view(old(sessions)@), session@) {
            None => r == KillBuiltinTmuxWindow::SessionMissing && final(sessions)@ == old(sessions)@,
            Some(k) => {
                let ws = registry_view(old(sessions)@)[k].windows;
                match window_position(ws, index) {
                    None => r == KillBuiltinTmuxWindow::WindowMissing && final(sessions)@ == old(sessions)@,
                    Some(j) => if ws.len() == 1 {
                        r == KillBuiltinTmuxWindow::SessionKilled && final(sessions)@ == old(sessions)@.remove(k)
                    } else {
                        r == (KillBuiltinTmuxWindow::Killed { index, remaining: (ws.len() - 1) as u32 })
                            && registry_view(final(sessions)@) == registry_view(old(sessions)@).update(
                            k,
                            SessionView {
                                name: registry_view(old(sessions)@)[k].name,
                                endpoint: registry_view(old(sessions)@)[k].endpoint,
                                windows: ws.remove(j),
                            },
                        )
                    },
                }
            },
        },
{
    let k = match find_session(sessions.as_slice(), session) {
        Some(k) => k,
        None => return KillBuiltinTmuxWindow::SessionMissing,
    };
    let ghost before = sessions@;
    let ghost ws = registry_view(before)[k as int].windows;
    assert(ws == window_views(before[k as int].windows@));
    let n = sessions[k].windows.len();
    let mut j: usize = 0;
    while j < n
        invariant
            j <= n,
            k < sessions@.len(),
            sessions@ == before,
            n == ws.len(),
            ws == window_views(sessions@[k as int].windows@),
            forall|i: int| 0 <= i < j ==> ws[i].0 != index,
        ensures
            j == n || (j < n && ws[j as int].0 == index),
            forall|i: int| 0 <= i < j ==> ws[i].0 != index,
        decreases n - j,
    {
        if sessions[k].windows[j].0 == index {
            assert(ws[j as int].0 == index);
            break;
        }
        j += 1;
    }
    if j == n {
        assert(window_position(ws, index) is None);
        return KillBuiltinTmuxWindow::WindowMissing;
    }
    assert(ws[j as int].0 == index);
    assert(window_position(ws, index) == Some(j as int)) by {
        let c = choose|c: int| 0 <= c < ws.len() && ws[c].0 == index && forall|i: int| 0 <= i < c ==> ws[i].0 != index;
        if c < j {
        } else if c > j {
            assert(ws[j as int].0 != index);
        }
    }
    if n == 1 {
        sessions.remove(k);
        return KillBuiltinTmuxWindow::SessionKilled;
    }
    let mut s = sessions.remove(k);
    let ghost old_ws = s.windows@;
    s.windows.remove(j);
    assert(window_views(s.windows@) =~= window_views(old_ws).remove(j as int));
    sessions.insert(k, s);
    assert(registry_view(sessions@) =~= registry_view(before).update(
        k as int,
        SessionView {
            name: registry_view(before)[k as int].name,
            endpoint: registry_view(before)[k as int].endpoint,
            windows: ws.remove(j as int),
        },
    ));
    KillBuiltinTmuxWindow::Killed { index, remaining: (n - 1) as u32 }
}


/// The number for a new window or pane: one past the largest in use, 0
/// when none is; none when the largest is `u32::MAX`.
pub fn next_index(numbers: &[u32]) -> (r: Option<u32>)
    ensures
        r == next_window_number(numbers@),
        r matches Some(n) ==> !numbers@.contains(n),
{
    let mut next: Option<u32> = Some(0);
    let mut k: usize = 0;
    assert(numbers@.take(0) =~= Seq::<u32>::empty());
    while k < numbers.len()
        invariant
            k <= numbers@.len(),
            next == next_window_number(numbers@.take(k as int)),
        decreases numbers@.len() - k,
    {
        let w = numbers[k];
        assert(numbers@.take(k + 1).drop_last() =~= numbers@.take(k as int));
        next = match next {
            None => None,
            Some(n) => if w == u32::MAX {
                None
            } else if w + 1 > n {
                Some(w + 1)
            } else {
                Some(n)
            },
        };
        k += 1;
    }
    assert(numbers@.take(numbers@.len() as int) =~= numbers@);
    proof {
        lemma_next_window_number_unused(numbers@);
    }
    next
}


/// How renaming a window went.
#[derive(Clone, Copy, Debug, PartialEq, Eq, Structural)]
pub enum RenameBuiltinTmuxWindow {
    Renamed,
    SessionMissing,
    WindowMissing,
}

/// Renames window `index` of session `session` to `name`.
pub fn rename_window(sessions: &mut Vec<BuiltinTmuxSession>, session: &str, index: u32, name: &str) -> (r:
    RenameBuiltinTmuxWindow)
    ensures
        match position_of(registry_view(old(sessions)@), session@) {
            None => r == RenameBuiltinTmuxWindow::SessionMissing && final(sessions)@ == old(sessions)@,
            Some(k) => {
                let ws = registry_view(old(sessions)@)[k].windows;
                match window_position(ws, index) {
                    None => r == RenameBuiltinTmuxWindow::WindowMissing && final(sessions)@ == old(sessions)@,
                    Some(j) => r == RenameBuiltinTmuxWindow::Renamed && registry_view(final(sessions)@)
                        == registry_view(old(sessions)@).update(
                        k,
                        SessionView {
                            name: registry_view(old(sessions)@)[k].name,
                            endpoint: registry_view(old(sessions)@)[k].endpoint,
                            windows: ws.update(j, (index, name@)),
                        },
                    ),
                }
            },
        },
{
    let k = match find_session(sessions.as_slice(), session) {
        Some(k) => k,
        None => return RenameBuiltinTmuxWindow::SessionMissing,
    };
    let ghost before = sessions@;
    let ghost ws = registry_view(before)[k as int].windows;
    assert(ws == window_views(before[k as int].windows@));
    let n = sessions[k].windows.len();
    let mut j: usize = 0;
    while j < n
        invariant
            j <= n,
            k < sessions@.len(),
            sessions@ == before,
            n == ws.len(),
            ws == window_views(sessions@[k as int].windows@),
            forall|i: int| 0 <= i < j ==> ws[i].0 != index,
        ensures
            j == n || (j < n && ws[j as int].0 == index),
            forall|i: int| 0 <= i < j ==> ws[i].0 != index,
        decreases n - j,
    {
        if sessions[k].windows[j].0 == index {
            assert(ws[j as int].0 == index);
            break;
        }
        j += 1;
    }
    if j == n {
        assert(window_position(ws, index) is None);
        return RenameBuiltinTmuxWindow::WindowMissing;
    }
    assert(window_position(ws, index) == Some(j as int)) by {
        let c = choose|c: int| 0 <= c < ws.len() && ws[c].0 == index && forall|i: int| 0 <= i < c ==> ws[i].0 != index;
        if c > j {
            assert(ws[j as int].0 != index);
        }
    }
    let mut s = sessions.remove(k);
    let ghost old_ws = s.windows@;
    s.windows.remove(j);
    s.windows.insert(j, (index, crate::text::owned(name)));
    assert(window_views(s.windows@) =~= window_views(old_ws).update(j as int, (index, name@)));
    sessions.insert(k, s);
    assert(registry_view(sessions@) =~= registry_view(before).update(
        k as int,
        SessionView {
            name: registry_view(before)[k as int].name,
            endpoint: registry_view(before)[k as int].endpoint,
            windows: ws.update(j as int, (index, name@)),
        },
    ));
    RenameBuiltinTmuxWindow::Renamed
}

} // verus!
