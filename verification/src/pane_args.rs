//! Arguments of the pane commands: `resize-pane`, `select-pane` and
//! `swap-pane`.
use vstd::prelude::*;

use crate::pane_layout::PaneDirection;
use crate::args::{pane_index_spec, target_pane_index_arg};
use crate::error::{TmuxError, TmuxErrorKind};
use crate::ipc::TmuxIpcRequest;
use crate::messages::pane_not_found_hint;
use crate::text::{chars_of, parse_unsigned, parse_unsigned_chars, rsplit_once, rsplit_once_char, skip_chars, str_eq, str_starts_with, views};

verus! {

/// The arguments after `resize-pane`/`resizep`, or all of them.
pub open spec fn resize_start(args: Seq<Seq<char>>) -> int {
    if exists|k: int| 0 <= k < args.len() && (args[k] == "resize-pane"@ || args[k] == "resizep"@) {
        1 + choose|k: int| 0 <= k < args.len() && (args[k] == "resize-pane"@ || args[k] == "resizep"@) && forall|j: int|
            0 <= j < k ==> !(args[j] == "resize-pane"@ || args[j] == "resizep"@)
    } else {
        0
    }
}

/// Where the arguments of `resize-pane` start.
pub fn resize_arguments(args: &[String]) -> (r: usize)
    ensures
        r as int == resize_start(views(args@)),
        r <= args@.len(),
{
    let ghost vs = views(args@);
    let mut k: usize = 0;
    while k < args.len() && !(str_eq(args[k].as_str(), "resize-pane") || str_eq(args[k].as_str(), "resizep"))
        invariant
            k <= args@.len(),
            vs == views(args@),
            forall|j: int| 0 <= j < k ==> !(vs[j] == "resize-pane"@ || vs[j] == "resizep"@),
        decreases args@.len() - k,
    {
        k += 1;
    }
    if k < args.len() {
        proof {
            let c = choose|c: int| 0 <= c < vs.len() && (vs[c] == "resize-pane"@ || vs[c] == "resizep"@) && forall|j: int|
                0 <= j < c ==> !(vs[j] == "resize-pane"@ || vs[j] == "resizep"@);
            assert(0 <= k < vs.len() && (vs[k as int] == "resize-pane"@ || vs[k as int] == "resizep"@));
            if c < k {
                assert(!(vs[c] == "resize-pane"@ || vs[c] == "resizep"@));
            } else if c > k {
                assert(!(vs[k as int] == "resize-pane"@ || vs[k as int] == "resizep"@));
            }
        }
        k + 1
    } else {
        proof {
            assert forall|c: int| 0 <= c < vs.len() implies !(vs[c] == "resize-pane"@ || vs[c] == "resizep"@) by {}
        }
        0
    }
}

/// The direction named by one argument of `resize-pane`.
pub open spec fn resize_direction_of(arg: Seq<char>) -> Option<PaneDirection> {
    if arg == "-L"@ || arg == "--left"@ {
        Some(PaneDirection::Left)
    } else if arg == "-R"@ || arg == "--right"@ {
        Some(PaneDirection::Right)
    } else if arg == "-U"@ || arg == "--up"@ {
        Some(PaneDirection::Up)
    } else if arg == "-D"@ || arg == "--down"@ {
        Some(PaneDirection::Down)
    } else {
        None
    }
}

/// The first direction among the arguments from position `i`.
pub open spec fn first_direction_from(args: Seq<Seq<char>>, i: int, pick: spec_fn(Seq<char>) -> Option<PaneDirection>) -> Option<PaneDirection>
    decreases args.len() - i,
{
    if i < 0 || i >= args.len() {
        None
    } else {
        match pick(args[i]) {
            Some(d) => Some(d),
            None => first_direction_from(args, i + 1, pick),
        }
    }
}

fn resize_direction_of_exec(arg: &str) -> (r: Option<PaneDirection>)
    ensures
        r == resize_direction_of(arg@),
{
    if str_eq(arg, "-L") || str_eq(arg, "--left") {
        Some(PaneDirection::Left)
    } else if str_eq(arg, "-R") || str_eq(arg, "--right") {
        Some(PaneDirection::Right)
    } else if str_eq(arg, "-U") || str_eq(arg, "--up") {
        Some(PaneDirection::Up)
    } else if str_eq(arg, "-D") || str_eq(arg, "--down") {
        Some(PaneDirection::Down)
    } else {
        None
    }
}

/// The direction given to `resize-pane`.
pub fn resize_pane_direction_arg(args: &[String]) -> (r: Option<PaneDirection>)
    ensures
        r == first_direction_from(views(args@), resize_start(views(args@)), |a: Seq<char>| resize_direction_of(a)),
{
    let ghost vs = views(args@);
    let ghost pick = |a: Seq<char>| resize_direction_of(a);
    let start = resize_arguments(args);
    let mut i = start;
    while i < args.len()
        invariant
            start <= i <= args@.len(),
            vs == views(args@),
            start as int == resize_start(vs),
            pick == (|a: Seq<char>| resize_direction_of(a)),
            first_direction_from(vs, start as int, pick) == first_direction_from(vs, i as int, pick),
        decreases args@.len() - i,
    {
        let found = resize_direction_of_exec(args[i].as_str());
        assert(vs[i as int] == args@[i as int]@);
        assert(pick(vs[i as int]) == found);
        match found {
            Some(d) => return Some(d),
            None => {},
        }
        i += 1;
    }
    None
}

/// Scanning state for the adjustment of `resize-pane`.
pub open spec fn adjustment_from(args: Seq<Seq<char>>, i: int, skip: bool) -> u16
    decreases args.len() - i,
{
    if i < 0 || i >= args.len() {
        1
    } else if skip {
        adjustment_from(args, i + 1, false)
    } else if args[i] == "-t"@ || args[i] == "--target"@ || args[i] == "-x"@ || args[i] == "--width"@
        || args[i] == "-y"@ || args[i] == "--height"@ {
        adjustment_from(args, i + 1, true)
    } else if "-"@.is_prefix_of(args[i]) {
        adjustment_from(args, i + 1, false)
    } else {
        match parse_unsigned(args[i], u16::MAX as nat) {
            Some(n) => if n < 1 { 1 } else { n as u16 },
            None => adjustment_from(args, i + 1, false),
        }
    }
}

/// How many cells `resize-pane` moves the border: the first number after
/// the command that is not the value of an option, at least 1; 1 when
/// there is none.
pub fn resize_pane_adjustment_arg(args: &[String]) -> (r: u16)
    ensures
        r == adjustment_from(views(args@), resize_start(views(args@)), false),
{
    let ghost vs = views(args@);
    let start = resize_arguments(args);
    let mut i = start;
    let mut skip = false;
    while i < args.len()
        invariant
            start <= i <= args@.len(),
            vs == views(args@),
            start as int == resize_start(vs),
            adjustment_from(vs, start as int, false) == adjustment_from(vs, i as int, skip),
        decreases args@.len() - i,
    {
        let arg = args[i].as_str();
        if skip {
            skip = false;
        } else if str_eq(arg, "-t") || str_eq(arg, "--target") || str_eq(arg, "-x") || str_eq(arg, "--width")
            || str_eq(arg, "-y") || str_eq(arg, "--height") {
            skip = true;
        } else if str_starts_with(arg, "-") {
        } else {
            let cs = chars_of(arg);
            assert(vs[i as int] == arg@);
            match parse_unsigned_chars(&cs, 65535) {
                Some(n) => {
                    assert(adjustment_from(vs, i as int, skip) == (if n < 1 { 1u16 } else { n as u16 }));
                    return if n < 1 {
                        1
                    } else {
                        n as u16
                    };
                },
                None => {},
            }
        }
        i += 1;
    }
    1
}

/// The direction named by an argument of `select-pane`.
pub open spec fn select_direction_of(arg: Seq<char>) -> Option<PaneDirection> {
    if arg == "-L"@ {
        Some(PaneDirection::Left)
    } else if arg == "-R"@ {
        Some(PaneDirection::Right)
    } else if arg == "-U"@ {
        Some(PaneDirection::Up)
    } else if arg == "-D"@ {
        Some(PaneDirection::Down)
    } else {
        None
    }
}

/// The direction given to `select-pane`.
pub fn pane_direction_arg(args: &[String]) -> (r: Option<PaneDirection>)
    ensures
        r == first_direction_from(views(args@), 0, |a: Seq<char>| select_direction_of(a)),
{
    let ghost vs = views(args@);
    let ghost pick = |a: Seq<char>| select_direction_of(a);
    let mut i: usize = 0;
    while i < args.len()
        invariant
            i <= args@.len(),
            vs == views(args@),
            pick == (|a: Seq<char>| select_direction_of(a)),
            first_direction_from(vs, 0, pick) == first_direction_from(vs, i as int, pick),
        decreases args@.len() - i,
    {
        let arg = args[i].as_str();
        let d = if str_eq(arg, "-L") {
            Some(PaneDirection::Left)
        } else if str_eq(arg, "-R") {
            Some(PaneDirection::Right)
        } else if str_eq(arg, "-U") {
            Some(PaneDirection::Up)
        } else if str_eq(arg, "-D") {
            Some(PaneDirection::Down)
        } else {
            None
        };
        match d {
            Some(d) => return Some(d),
            None => {},
        }
        i += 1;
    }
    None
}

/// The direction of `swap-pane`: the last `-U`/`--up` (backward) or
/// `-D`/`--down` (forward) among the arguments.
pub open spec fn swap_direction_spec(args: Seq<Seq<char>>) -> Option<bool>
    decreases args.len(),
{
    if args.len() == 0 {
        None
    } else if args.last() == "-U"@ || args.last() == "--up"@ {
        Some(false)
    } else if args.last() == "-D"@ || args.last() == "--down"@ {
        Some(true)
    } else {
        swap_direction_spec(args.drop_last())
    }
}

pub fn swap_direction(args: &[String]) -> (r: Option<bool>)
    ensures
        r == swap_direction_spec(views(args@)),
{
    let ghost vs = views(args@);
    let mut direction: Option<bool> = None;
    let mut i: usize = 0;
    assert(vs.take(0) =~= Seq::<Seq<char>>::empty());
    while i < args.len()
        invariant
            i <= args@.len(),
            vs == views(args@),
            direction == swap_direction_spec(vs.take(i as int)),
        decreases args@.len() - i,
    {
        let arg = args[i].as_str();
        assert(vs.take(i + 1).drop_last() =~= vs.take(i as int));
        assert(vs.take(i + 1).last() == arg@);
        if str_eq(arg, "-U") || str_eq(arg, "--up") {
            direction = Some(false);
        } else if str_eq(arg, "-D") || str_eq(arg, "--down") {
            direction = Some(true);
        }
        i += 1;
    }
    assert(vs.take(args@.len() as int) =~= vs);
    direction
}

/// A pane number, alone or at the end of a `session:window.pane` target.
pub open spec fn parse_pane_index_spec(target: Seq<char>) -> Option<u32> {
    let pane = match rsplit_once(target, '.') {
        Some((_, p)) => p,
        None => target,
    };
    match parse_unsigned(pane, u32::MAX as nat) {
        Some(n) => Some(n as u32),
        None => None,
    }
}

pub fn parse_pane_index(target: &str) -> (r: Option<u32>)
    ensures
        r == parse_pane_index_spec(target@),
{
    let cs = chars_of(target);
    let pane = match rsplit_once_char(&cs, '.') {
        Some((_, p)) => p,
        None => cs,
    };
    match parse_unsigned_chars(&pane, 4294967295) {
        Some(n) => Some(n as u32),
        None => None,
    }
}

/// The source pane of `swap-pane`, scanning from position `i`.
pub open spec fn source_pane_from(args: Seq<Seq<char>>, i: int) -> Option<u32>
    decreases args.len() - i,
{
    if i < 0 || i >= args.len() {
        None
    } else if args[i] == "-s"@ || args[i] == "--source-pane"@ {
        if i + 1 < args.len() {
            parse_pane_index_spec(args[i + 1])
        } else {
            source_pane_from(args, i + 1)
        }
    } else if "-s"@.is_prefix_of(args[i]) && args[i].len() > 2 {
        parse_pane_index_spec(args[i].skip(2))
    } else if "--source-pane="@.is_prefix_of(args[i]) {
        parse_pane_index_spec(args[i].skip(14))
    } else {
        source_pane_from(args, i + 1)
    }
}

/// The source pane given with `-s`/`--source-pane`.
pub fn source_pane_index_arg(args: &[String]) -> (r: Option<u32>)
    ensures
        r == source_pane_from(views(args@), 0),
{
    let ghost vs = views(args@);
    let mut i: usize = 0;
    while i < args.len()
        invariant
            i <= args@.len(),
            vs == views(args@),
            source_pane_from(vs, 0) == source_pane_from(vs, i as int),
        decreases args@.len() - i,
    {
        let arg = args[i].as_str();
        let cs = chars_of(arg);
        assert(vs[i as int] == cs@);
        if str_eq(arg, "-s") || str_eq(arg, "--source-pane") {
            if i + 1 < args.len() {
                return parse_pane_index(args[i + 1].as_str());
            }
        } else if str_starts_with(arg, "-s") && cs.len() > 2 {
            let rest = crate::text::string_of(&skip_chars(&cs, 2));
            return parse_pane_index(rest.as_str());
        } else if str_starts_with(arg, "--source-pane=") {
            proof {
                reveal_strlit("--source-pane=");
            }
            let rest = crate::text::string_of(&skip_chars(&cs, 14));
            return parse_pane_index(rest.as_str());
        }
        i += 1;
    }
    None
}

/// The pane numbers contain `pane`, or the error naming the missing pane.
pub fn require_pane(window_index: u32, pane_indexes: &[u32], pane: u32) -> (r: Result<(), TmuxError>)
    ensures
        pane_indexes@.contains(pane) ==> r is Ok,
        !pane_indexes@.contains(pane) ==> (r matches Err(e) && e.kind == TmuxErrorKind::NotFound && e.message@
            == "未找到"@ + "current"@ + "窗格："@ + crate::text::decimal(window_index as nat) + "."@
            + crate::text::decimal(pane as nat)),
{
    let mut k: usize = 0;
    while k < pane_indexes.len()
        invariant
            k <= pane_indexes@.len(),
            forall|j: int| 0 <= j < k ==> pane_indexes@[j] != pane,
        decreases pane_indexes@.len() - k,
    {
        if pane_indexes[k] == pane {
            assert(pane_indexes@[k as int] == pane);
            return Ok(());
        }
        k += 1;
    }
    Err(TmuxError::new(TmuxErrorKind::NotFound, pane_not_found_hint("current", window_index, pane)))
}

/// The pane number of the `-t` target, as the pane commands read it.
pub open spec fn target_pane_spec(args: Seq<Seq<char>>) -> Option<u32> {
    match pane_index_spec(args) {
        Some(p) => Some((p as usize) as u32),
        None => None,
    }
}

fn target_pane(args: &[String]) -> (r: Option<u32>)
    ensures
        r == target_pane_spec(views(args@)),
{
    match target_pane_index_arg(args) {
        Some(p) => Some(p as u32),
        None => None,
    }
}

/// The request of `select-pane` for a window with these panes: a
/// direction, else the target pane (the active pane by default), which
/// must exist.
pub fn select_pane_request(args: &[String], window_index: u32, active_pane: u32, pane_indexes: &[u32]) -> (r: Result<
    TmuxIpcRequest,
    TmuxError,
>)
    ensures
        match first_direction_from(views(args@), 0, |a: Seq<char>| select_direction_of(a)) {
            Some(d) => r == Ok::<TmuxIpcRequest, TmuxError>(
                TmuxIpcRequest::SelectPaneDirection { window: Some(window_index), direction: d },
            ),
            None => {
                let pane = match target_pane_spec(views(args@)) {
                    Some(p) => p,
                    None => active_pane,
                };
                if pane_indexes@.contains(pane) {
                    r == Ok::<TmuxIpcRequest, TmuxError>(
                        TmuxIpcRequest::SelectPane { window: Some(window_index), pane: Some(pane) },
                    )
                } else {
                    r matches Err(e) && e.kind == TmuxErrorKind::NotFound
                }
            },
        },
{
    match pane_direction_arg(args) {
        Some(direction) => return Ok(TmuxIpcRequest::SelectPaneDirection { window: Some(window_index), direction }),
        None => {},
    }
    let pane = match target_pane(args) {
        Some(p) => p,
        None => active_pane,
    };
    match require_pane(window_index, pane_indexes, pane) {
        Ok(()) => Ok(TmuxIpcRequest::SelectPane { window: Some(window_index), pane: Some(pane) }),
        Err(e) => Err(e),
    }
}

/// The request of `swap-pane` for a window with these panes. With `-U` or
/// `-D` the source is `-s` or else the target pane, swapped with its
/// neighbour in that direction; otherwise `-s` is swapped with the target
/// pane. Every pane named must exist.
pub fn swap_pane_request(args: &[String], window_index: u32, pane_indexes: &[u32]) -> (r: Result<
    TmuxIpcRequest,
    TmuxError,
>)
    ensures
        ({
            let direction = swap_direction_spec(views(args@));
            let destination = target_pane_spec(views(args@));
            let source = if direction is Some {
                match source_pane_from(views(args@), 0) {
                    Some(s) => Some(s),
                    None => destination,
                }
            } else {
                source_pane_from(views(args@), 0)
            };
            let target = if direction is Some { None } else { destination };
            let ok = (source matches Some(s) ==> pane_indexes@.contains(s)) && (target matches Some(t)
                ==> pane_indexes@.contains(t));
            if ok {
                r == Ok::<TmuxIpcRequest, TmuxError>(
                    TmuxIpcRequest::SwapPane {
                        window: Some(window_index),
                        source,
                        target,
                        forward: match direction {
                            Some(f) => f,
                            None => true,
                        },
                    },
                )
            } else {
                r matches Err(e) && e.kind == TmuxErrorKind::NotFound
            }
        }),
{
    let direction = swap_direction(args);
    let destination = target_pane(args);
    let source = if direction.is_some() {
        match source_pane_index_arg(args) {
            Some(s) => Some(s),
            None => destination,
        }
    } else {
        source_pane_index_arg(args)
    };
    let target = if direction.is_some() {
        None
    } else {
        destination
    };
    match source {
        Some(s) => match require_pane(window_index, pane_indexes, s) {
            Ok(()) => {},
            Err(e) => return Err(e),
        },
        None => {},
    }
    match target {
        Some(t) => match require_pane(window_index, pane_indexes, t) {
            Ok(()) => {},
            Err(e) => return Err(e),
        },
        None => {},
    }
    let forward = match direction {
        Some(f) => f,
        None => true,
    };
    Ok(TmuxIpcRequest::SwapPane { window: Some(window_index), source, target, forward })
}

/// The pane after the active one, going round; counting from the first
/// pane when the active one is not listed.
pub open spec fn next_pane_spec(active: u32, panes: Seq<u32>) -> Option<u32> {
    if panes.len() == 0 {
        None
    } else {
        let n = panes.len() as int;
        let position: int = if exists|k: int| 0 <= k < n && panes[k] == active {
            choose|k: int| 0 <= k < n && panes[k] == active && forall|j: int| 0 <= j < k ==> panes[j] != active
        } else {
            0
        };
        Some(panes[if position + 1 == n { 0 } else { position + 1 }])
    }
}

/// The pane that "next pane" selects.
pub fn next_pane(active_pane: u32, panes: &[u32]) -> (r: Option<u32>)
    ensures
        r == next_pane_spec(active_pane, panes@),
{
    let r = crate::attach_window::neighbor_window_index(active_pane, panes, true);
    r
}

} // verus!
