//! Moving the split boundary next to a pane, one step at a time.
use vstd::prelude::*;

use crate::pane_layout::{
    PaneDirection, PaneLayout, PaneRect, SplitDirection, clamp_int, sat_add16, sat_sub,
    split_rects, split_rects_spec,
};

verus! {

/// The split axis a movement acts on.
pub open spec fn movement_axis(movement: PaneDirection) -> SplitDirection {
    match movement {
        PaneDirection::Left | PaneDirection::Right => SplitDirection::Horizontal,
        PaneDirection::Up | PaneDirection::Down => SplitDirection::Vertical,
    }
}

impl PaneLayout {
    /// Moves the nearest boundary of `target` along `movement` by
    /// `adjustment` cells; `false` when no boundary moved.
    pub open spec fn resize_boundary_spec(
        self,
        target: u32,
        movement: PaneDirection,
        adjustment: u16,
        area: PaneRect,
    ) -> (PaneLayout, bool)
        decreases self,
    {
        match self {
            PaneLayout::Pane(_) => (self, false),
            PaneLayout::Split { direction, ratio, first, second } => {
                let (fa, _, sa) = split_rects_spec(area, direction, ratio);
                let in_first = first.leaves().contains(target);
                let in_second = second.leaves().contains(target);
                if !in_first && !in_second {
                    (self, false)
                } else {
                    let (nf, ns, nested) = if in_first {
                        let (f2, n) = first.resize_boundary_spec(target, movement, adjustment, fa);
                        (f2, *second, n)
                    } else {
                        let (s2, n) = second.resize_boundary_spec(target, movement, adjustment, sa);
                        (*first, s2, n)
                    };
                    let axis = movement_axis(movement);
                    let available = match axis {
                        SplitDirection::Horizontal => sat_sub(area.cols as int, 1),
                        SplitDirection::Vertical => sat_sub(area.rows as int, 1),
                    };
                    let first_size = match axis {
                        SplitDirection::Horizontal => fa.cols as int,
                        SplitDirection::Vertical => fa.rows as int,
                    };
                    let moved = match movement {
                        PaneDirection::Left | PaneDirection::Up => sat_sub(first_size, adjustment as int),
                        PaneDirection::Right | PaneDirection::Down => sat_add16(
                            first_size,
                            adjustment as int,
                        ),
                    };
                    let desired = clamp_int(moved, 1, available - 1);
                    let unchanged = PaneLayout::Split {
                        direction,
                        ratio,
                        first: Box::new(nf),
                        second: Box::new(ns),
                    };
                    if nested || direction != axis || available < 2 {
                        (unchanged, nested)
                    } else if desired == first_size {
                        (unchanged, false)
                    } else {
                        let next = (desired * 1000 + available - 1) / available;
                        (
                            PaneLayout::Split {
                                direction,
                                ratio: clamp_int(next, 1, 999) as u16,
                                first: Box::new(nf),
                                second: Box::new(ns),
                            },
                            true,
                        )
                    }
                }
            },
        }
    }

    fn resize_boundary(
        self,
        target: u32,
        movement: PaneDirection,
        adjustment: u16,
        area: PaneRect,
    ) -> (r: (PaneLayout, bool))
        ensures
            r == self.resize_boundary_spec(target, movement, adjustment, area),
        decreases self,
    {
        match self {
            PaneLayout::Pane(i) => (PaneLayout::Pane(i), false),
            PaneLayout::Split { direction, ratio, first, second } => {
                let (first_area, _, second_area) = split_rects(area, direction, ratio);
                let in_first = first.contains(target);
                let in_second = second.contains(target);
                if !in_first && !in_second {
                    return (PaneLayout::Split { direction, ratio, first, second }, false);
                }
                let (nf, ns, nested) = if in_first {
                    let (f2, n) = (*first).resize_boundary(target, movement, adjustment, first_area);
                    (f2, *second, n)
                } else {
                    let (s2, n) = (*second).resize_boundary(target, movement, adjustment, second_area);
                    (*first, s2, n)
                };
                let axis = match movement {
                    PaneDirection::Left | PaneDirection::Right => SplitDirection::Horizontal,
                    PaneDirection::Up | PaneDirection::Down => SplitDirection::Vertical,
                };
                let available: u16 = match axis {
                    SplitDirection::Horizontal => if area.cols >= 1 { area.cols - 1 } else { 0 },
                    SplitDirection::Vertical => if area.rows >= 1 { area.rows - 1 } else { 0 },
                };
                if nested || direction != axis || available < 2 {
                    return (
                        PaneLayout::Split { direction, ratio, first: Box::new(nf), second: Box::new(ns) },
                        nested,
                    );
                }
                let first_size: u16 = match axis {
                    SplitDirection::Horizontal => first_area.cols,
                    SplitDirection::Vertical => first_area.rows,
                };
                let moved: u16 = match movement {
                    PaneDirection::Left | PaneDirection::Up => if first_size >= adjustment {
                        first_size - adjustment
                    } else {
                        0
                    },
                    PaneDirection::Right | PaneDirection::Down => if first_size as u32
                        + adjustment as u32 > u16::MAX as u32 {
                        u16::MAX
                    } else {
                        first_size + adjustment
                    },
                };
                let desired: u16 = if moved < 1 {
                    1
                } else if moved > available - 1 {
                    available - 1
                } else {
                    moved
                };
                if desired == first_size {
                    return (
                        PaneLayout::Split { direction, ratio, first: Box::new(nf), second: Box::new(ns) },
                        false,
                    );
                }
                let next: u32 = ((desired as u32) * 1000 + (available as u32) - 1) / (available as u32);
                let r: u16 = if next < 1 {
                    1
                } else if next > 999 {
                    999
                } else {
                    next as u16
                };
                (
                    PaneLayout::Split { direction, ratio: r, first: Box::new(nf), second: Box::new(ns) },
                    true,
                )
            },
        }
    }

    /// Moves the boundary of pane `target` in an `area_cols` by
    /// `area_rows` window along `movement` by `adjustment` (at least one)
    /// cells; `false` (and no change) when none moved.
    pub fn resize_pane_direction(
        &mut self,
        target: u32,
        movement: PaneDirection,
        adjustment: u16,
        area_cols: u16,
        area_rows: u16,
    ) -> (r: bool)
        ensures
            ({
                let adj = if adjustment < 1 { 1u16 } else { adjustment };
                let res = old(self).resize_boundary_spec(
                    target,
                    movement,
                    adj,
                    PaneRect { x: 0, y: 0, cols: area_cols, rows: area_rows },
                );
                *final(self) == res.0 && r == res.1
            }),
    {
        let adj = if adjustment < 1 { 1u16 } else { adjustment };
        let mut cur = PaneLayout::Pane(0);
        std::mem::swap(&mut cur, self);
        let (next, moved) = cur.resize_boundary(
            target,
            movement,
            adj,
            PaneRect { x: 0, y: 0, cols: area_cols, rows: area_rows },
        );
        *self = next;
        moved
    }
}

/// Moving a boundary keeps the panes and their order, keeps ratios valid,
/// and changes nothing when it reports no change.
pub proof fn lemma_resize_boundary(
    l: PaneLayout,
    target: u32,
    movement: PaneDirection,
    adjustment: u16,
    area: PaneRect,
)
    ensures
        l.resize_boundary_spec(target, movement, adjustment, area).0.leaves() == l.leaves(),
        l.wf() ==> l.resize_boundary_spec(target, movement, adjustment, area).0.wf(),
        !l.resize_boundary_spec(target, movement, adjustment, area).1 ==> l.resize_boundary_spec(
            target,
            movement,
            adjustment,
            area,
        ).0 == l,
    decreases l,
{
    match l {
        PaneLayout::Pane(_) => {},
        PaneLayout::Split { direction, ratio, first, second } => {
            let (fa, _, sa) = split_rects_spec(area, direction, ratio);
            lemma_resize_boundary(*first, target, movement, adjustment, fa);
            lemma_resize_boundary(*second, target, movement, adjustment, sa);
        },
    }
}

} // verus!
