//! Choosing the neighbouring pane in a direction.
use vstd::prelude::*;

use crate::pane_layout::{PaneDirection, PaneGeometry, PaneRect, min_int, sat_add16, sat_sub};

verus! {

/// How good a candidate is: (no overlap, gap, inverse overlap, centre
/// offset); smaller is better.
pub type CandidateScore = (u8, u32, u32, u32);

pub open spec fn edge_spec(start: u16, size: u16) -> int {
    sat_add16(start as int, size as int)
}

pub open spec fn max_int(a: int, b: int) -> int {
    if a >= b {
        a
    } else {
        b
    }
}

pub open spec fn overlap_spec(a_start: int, a_end: int, b_start: int, b_end: int) -> int {
    sat_sub(min_int(a_end, b_end), max_int(a_start, b_start))
}

pub open spec fn abs_diff(a: int, b: int) -> int {
    if a >= b {
        a - b
    } else {
        b - a
    }
}

pub open spec fn center_distance_spec(a_start: u16, a_size: u16, b_start: u16, b_size: u16) -> int {
    abs_diff(a_start * 2 + a_size, b_start * 2 + b_size)
}

/// The score of `candidate` as a neighbour of `current` in `direction`,
/// or `None` when it does not lie on that side.
pub open spec fn candidate_score_spec(
    current: PaneRect,
    candidate: PaneRect,
    direction: PaneDirection,
) -> Option<CandidateScore> {
    let current_right = edge_spec(current.x, current.cols);
    let current_bottom = edge_spec(current.y, current.rows);
    let candidate_right = edge_spec(candidate.x, candidate.cols);
    let candidate_bottom = edge_spec(candidate.y, candidate.rows);
    let horizontal_overlap = overlap_spec(current.y as int, current_bottom, candidate.y as int, candidate_bottom);
    let vertical_overlap = overlap_spec(current.x as int, current_right, candidate.x as int, candidate_right);
    let row_center = center_distance_spec(current.y, current.rows, candidate.y, candidate.rows);
    let col_center = center_distance_spec(current.x, current.cols, candidate.x, candidate.cols);
    let found: Option<(int, int, int)> = match direction {
        PaneDirection::Left => if candidate_right <= current.x {
            Some((current.x - candidate_right, horizontal_overlap, row_center))
        } else {
            None
        },
        PaneDirection::Right => if candidate.x >= current_right {
            Some((candidate.x - current_right, horizontal_overlap, row_center))
        } else {
            None
        },
        PaneDirection::Up => if candidate_bottom <= current.y {
            Some((current.y - candidate_bottom, vertical_overlap, col_center))
        } else {
            None
        },
        PaneDirection::Down => if candidate.y >= current_bottom {
            Some((candidate.y - current_bottom, vertical_overlap, col_center))
        } else {
            None
        },
    };
    match found {
        Some((gap, overlap, center)) => Some(
            (
                if overlap == 0 { 1u8 } else { 0u8 },
                gap as u32,
                (u32::MAX - overlap) as u32,
                center as u32,
            ),
        ),
        None => None,
    }
}

/// Lexicographic order on (score, pane number).
pub open spec fn key_le(a: CandidateScore, ai: u32, b: CandidateScore, bi: u32) -> bool {
    a.0 < b.0 || (a.0 == b.0 && (a.1 < b.1 || (a.1 == b.1 && (a.2 < b.2 || (a.2 == b.2 && (a.3
        < b.3 || (a.3 == b.3 && ai <= bi)))))))
}

/// The pane at position `k` qualifies as a neighbour of `current`.
pub open spec fn is_candidate(
    panes: Seq<(u32, PaneRect)>,
    active: u32,
    current: PaneRect,
    direction: PaneDirection,
    k: int,
) -> bool {
    0 <= k < panes.len() && panes[k].0 != active && candidate_score_spec(
        current,
        panes[k].1,
        direction,
    ) is Some
}

/// Position of the first pane numbered `active`.
pub open spec fn active_position(panes: Seq<(u32, PaneRect)>, active: u32) -> Option<int> {
    if exists|k: int| 0 <= k < panes.len() && panes[k].0 == active {
        Some(choose|k: int| 0 <= k < panes.len() && panes[k].0 == active && forall|j: int|
            0 <= j < k ==> panes[j].0 != active)
    } else {
        None
    }
}

/// `r` is the neighbour of `active` in `direction` among `panes`: `None`
/// without an active pane or without a pane on that side, else the pane on
/// that side with the smallest (score, number).
pub open spec fn neighbour_choice(
    panes: Seq<(u32, PaneRect)>,
    active: u32,
    direction: PaneDirection,
    r: Option<u32>,
) -> bool {
    match active_position(panes, active) {
        None => r is None,
        Some(p) => {
            let current = panes[p].1;
            match r {
                None => forall|k: int| !is_candidate(panes, active, current, direction, k),
                Some(i) => exists|k: int|
                    is_candidate(panes, active, current, direction, k) && panes[k].0 == i && forall|j: int|
                        is_candidate(panes, active, current, direction, j) ==> key_le(
                            candidate_score_spec(current, panes[k].1, direction).unwrap(),
                            panes[k].0,
                            candidate_score_spec(current, panes[j].1, direction).unwrap(),
                            panes[j].0,
                        ),
            }
        },
    }
}

fn edge(start: u16, size: u16) -> (r: u16)
    ensures
        r as int == edge_spec(start, size),
{
    if start as u32 + size as u32 > u16::MAX as u32 {
        u16::MAX
    } else {
        start + size
    }
}

fn overlap(a_start: u16, a_end: u16, b_start: u16, b_end: u16) -> (r: u32)
    ensures
        r as int == overlap_spec(a_start as int, a_end as int, b_start as int, b_end as int),
{
    let lo = if a_start >= b_start { a_start } else { b_start };
    let hi = if a_end <= b_end { a_end } else { b_end };
    if hi >= lo {
        (hi - lo) as u32
    } else {
        0
    }
}

fn center_distance(a_start: u16, a_size: u16, b_start: u16, b_size: u16) -> (r: u32)
    ensures
        r as int == center_distance_spec(a_start, a_size, b_start, b_size),
{
    let a = (a_start as u32) * 2 + (a_size as u32);
    let b = (b_start as u32) * 2 + (b_size as u32);
    if a >= b {
        a - b
    } else {
        b - a
    }
}

/// The score of `candidate` as a neighbour of `current` in `direction`.
pub fn candidate_score(current: PaneRect, candidate: PaneRect, direction: PaneDirection) -> (r: Option<
    CandidateScore,
>)
    ensures
        r == candidate_score_spec(current, candidate, direction),
{
    let current_right = edge(current.x, current.cols);
    let current_bottom = edge(current.y, current.rows);
    let candidate_right = edge(candidate.x, candidate.cols);
    let candidate_bottom = edge(candidate.y, candidate.rows);
    let (gap, ov, center): (u32, u32, u32) = match direction {
        PaneDirection::Left => {
            if candidate_right > current.x {
                return None;
            }
            (
                (current.x - candidate_right) as u32,
                overlap(current.y, current_bottom, candidate.y, candidate_bottom),
                center_distance(current.y, current.rows, candidate.y, candidate.rows),
            )
        },
        PaneDirection::Right => {
            if candidate.x < current_right {
                return None;
            }
            (
                (candidate.x - current_right) as u32,
                overlap(current.y, current_bottom, candidate.y, candidate_bottom),
                center_distance(current.y, current.rows, candidate.y, candidate.rows),
            )
        },
        PaneDirection::Up => {
            if candidate_bottom > current.y {
                return None;
            }
            (
                (current.y - candidate_bottom) as u32,
                overlap(current.x, current_right, candidate.x, candidate_right),
                center_distance(current.x, current.cols, candidate.x, candidate.cols),
            )
        },
        PaneDirection::Down => {
            if candidate.y < current_bottom {
                return None;
            }
            (
                (candidate.y - current_bottom) as u32,
                overlap(current.x, current_right, candidate.x, candidate_right),
                center_distance(current.x, current.cols, candidate.x, candidate.cols),
            )
        },
    };
    Some((if ov == 0 { 1u8 } else { 0u8 }, gap, u32::MAX - ov, center))
}

fn key_less_eq(a: CandidateScore, ai: u32, b: CandidateScore, bi: u32) -> (r: bool)
    ensures
        r == key_le(a, ai, b, bi),
{
    a.0 < b.0 || (a.0 == b.0 && (a.1 < b.1 || (a.1 == b.1 && (a.2 < b.2 || (a.2 == b.2 && (a.3
        < b.3 || (a.3 == b.3 && ai <= bi)))))))
}

/// The pane next to `active` in `direction`: among the panes on that
/// side, the one with the smallest (score, number).
pub fn neighboring_pane(geometry: &PaneGeometry, active: u32, direction: PaneDirection) -> (r: Option<
    u32,
>)
    ensures
        neighbour_choice(geometry.panes@, active, direction, r),
{
    let ghost panes = geometry.panes@;
    let mut p: usize = 0;
    while p < geometry.panes.len()
        invariant
            p <= geometry.panes.len(),
            panes == geometry.panes@,
            forall|j: int| 0 <= j < p ==> panes[j].0 != active,
        ensures
            p <= geometry.panes.len(),
            panes == geometry.panes@,
            forall|j: int| 0 <= j < p ==> panes[j].0 != active,
            p == geometry.panes.len() || panes[p as int].0 == active,
        decreases geometry.panes.len() - p,
    {
        if geometry.panes[p].0 == active {
            break;
        }
        p += 1;
    }
    if p == geometry.panes.len() {
        return None;
    }
    proof {
        assert(panes[p as int].0 == active);
        assert(0 <= p < panes.len() && panes[p as int].0 == active && forall|j: int|
            0 <= j < p ==> panes[j].0 != active);
        let q = active_position(panes, active).unwrap();
        if q < p {
            assert(panes[q].0 == active);
        }
        if q > p {
            assert(panes[p as int].0 != active);
        }
        assert(q == p);
    }
    let current = geometry.panes[p].1;
    let mut best: Option<(CandidateScore, u32, usize)> = None;
    let mut k: usize = 0;
    while k < geometry.panes.len()
        invariant
            k <= geometry.panes.len(),
            panes == geometry.panes@,
            match best {
                None => forall|j: int| 0 <= j < k ==> !is_candidate(panes, active, current, direction, j),
                Some((s, i, pos)) => pos < k && is_candidate(panes, active, current, direction, pos as int)
                    && panes[pos as int].0 == i
                    && s == candidate_score_spec(current, panes[pos as int].1, direction).unwrap()
                    && forall|j: int| 0 <= j < k && is_candidate(panes, active, current, direction, j)
                        ==> key_le(
                        s,
                        i,
                        candidate_score_spec(current, panes[j].1, direction).unwrap(),
                        panes[j].0,
                    ),
            },
        decreases geometry.panes.len() - k,
    {
        let (index, rect) = geometry.panes[k];
        if index != active {
            if let Some(score) = candidate_score(current, rect, direction) {
                let better = match best {
                    None => true,
                    Some((s, i, _)) => !key_less_eq(s, i, score, index),
                };
                if better {
                    best = Some((score, index, k));
                }
            }
        }
        k += 1;
    }
    match best {
        Some((s, i, pos)) => {
            assert(is_candidate(panes, active, current, direction, pos as int) && panes[pos as int].0 == i
                && forall|j: int|
                is_candidate(panes, active, current, direction, j) ==> key_le(
                    candidate_score_spec(current, panes[pos as int].1, direction).unwrap(),
                    panes[pos as int].0,
                    candidate_score_spec(current, panes[j].1, direction).unwrap(),
                    panes[j].0,
                ));
            Some(i)
        },
        None => None,
    }
}

} // verus!
