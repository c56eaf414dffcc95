//! The pane layout of a window: a binary tree of splits whose leaves are
//! pane numbers, and the rectangles it assigns to panes.
use vstd::prelude::*;

verus! {

/// How a split divides its area: `Horizontal` puts the halves side by side
/// (it divides the columns), `Vertical` stacks them (it divides the rows).
#[derive(Clone, Copy, Debug, PartialEq, Eq, Structural)]
pub enum SplitDirection {
    Horizontal,
    Vertical,
}

/// A movement or neighbour direction between panes.
#[derive(Clone, Copy, Debug, PartialEq, Eq, Structural)]
pub enum PaneDirection {
    Left,
    Right,
    Up,
    Down,
}

/// A rectangle of terminal cells.
#[derive(Clone, Copy, Debug, PartialEq, Eq, Structural)]
pub struct PaneRect {
    pub x: u16,
    pub y: u16,
    pub cols: u16,
    pub rows: u16,
}

/// The one-cell line drawn between the two halves of a split.
#[derive(Clone, Copy, Debug, PartialEq, Eq, Structural)]
pub struct PaneSeparator {
    pub rect: PaneRect,
}

/// The rectangles of every pane, in layout order, and the visible separators.
pub struct PaneGeometry {
    pub panes: Vec<(u32, PaneRect)>,
    pub separators: Vec<PaneSeparator>,
}

/// A layout tree. `ratio` is the share of the usable size given to
/// `first`, in thousandths.
#[derive(Debug, PartialEq, Eq)]
pub enum PaneLayout {
    Pane(u32),
    Split { direction: SplitDirection, ratio: u16, first: Box<PaneLayout>, second: Box<PaneLayout> },
}

pub open spec fn sat_sub(a: int, b: int) -> int {
    if a >= b {
        a - b
    } else {
        0
    }
}

pub open spec fn sat_add16(a: int, b: int) -> int {
    if a + b > u16::MAX {
        u16::MAX as int
    } else {
        a + b
    }
}

pub open spec fn min_int(a: int, b: int) -> int {
    if a <= b {
        a
    } else {
        b
    }
}

pub open spec fn clamp_int(v: int, lo: int, hi: int) -> int {
    if v < lo {
        lo
    } else if v > hi {
        hi
    } else {
        v
    }
}

/// The size given to the first half of `total` usable cells.
pub open spec fn split_size_spec(total: int, ratio: int) -> int {
    if total <= 1 {
        total
    } else {
        clamp_int(total * ratio / 1000, 1, total - 1)
    }
}

/// The first area, the separator and the second area of a split.
pub open spec fn split_rects_spec(area: PaneRect, direction: SplitDirection, ratio: u16) -> (
    PaneRect,
    PaneSeparator,
    PaneRect,
) {
    match direction {
        SplitDirection::Horizontal => {
            let usable = sat_sub(area.cols as int, 1);
            let first_cols = split_size_spec(usable, ratio as int);
            let second_cols = sat_sub(usable, first_cols);
            (
                PaneRect { cols: first_cols as u16, ..area },
                PaneSeparator {
                    rect: PaneRect {
                        x: sat_add16(area.x as int, first_cols) as u16,
                        y: area.y,
                        cols: min_int(area.cols as int, 1) as u16,
                        rows: area.rows,
                    },
                },
                PaneRect {
                    x: sat_add16(sat_add16(area.x as int, first_cols), 1) as u16,
                    cols: second_cols as u16,
                    ..area
                },
            )
        },
        SplitDirection::Vertical => {
            let usable = sat_sub(area.rows as int, 1);
            let first_rows = split_size_spec(usable, ratio as int);
            let second_rows = sat_sub(usable, first_rows);
            (
                PaneRect { rows: first_rows as u16, ..area },
                PaneSeparator {
                    rect: PaneRect {
                        x: area.x,
                        y: sat_add16(area.y as int, first_rows) as u16,
                        cols: area.cols,
                        rows: min_int(area.rows as int, 1) as u16,
                    },
                },
                PaneRect {
                    y: sat_add16(sat_add16(area.y as int, first_rows), 1) as u16,
                    rows: second_rows as u16,
                    ..area
                },
            )
        },
    }
}

impl PaneLayout {
    /// The pane numbers in layout order.
    pub open spec fn leaves(self) -> Seq<u32>
        decreases self,
    {
        match self {
            PaneLayout::Pane(i) => seq![i],
            PaneLayout::Split { first, second, .. } => first.leaves() + second.leaves(),
        }
    }

    /// Every split ratio lies in `1..=999`.
    pub open spec fn wf(self) -> bool
        decreases self,
    {
        match self {
            PaneLayout::Pane(_) => true,
            PaneLayout::Split { ratio, first, second, .. } => 1 <= ratio <= 999 && first.wf()
                && second.wf(),
        }
    }

    /// The layout with the first pane `target` split into `target` and `index`.
    pub open spec fn split_spec(self, target: u32, index: u32, direction: SplitDirection) -> Option<
        PaneLayout,
    >
        decreases self,
    {
        match self {
            PaneLayout::Pane(current) => if current == target {
                Some(
                    PaneLayout::Split {
                        direction,
                        ratio: 500,
                        first: Box::new(PaneLayout::Pane(current)),
                        second: Box::new(PaneLayout::Pane(index)),
                    },
                )
            } else {
                None
            },
            PaneLayout::Split { direction: d, ratio, first, second } => match first.split_spec(
                target,
                index,
                direction,
            ) {
                Some(f) => Some(
                    PaneLayout::Split { direction: d, ratio, first: Box::new(f), second },
                ),
                None => match second.split_spec(target, index, direction) {
                    Some(s) => Some(
                        PaneLayout::Split { direction: d, ratio, first, second: Box::new(s) },
                    ),
                    None => None,
                },
            },
        }
    }

    /// The layout without the panes numbered `target`; `None` if nothing is left.
    pub open spec fn without_spec(self, target: u32) -> Option<PaneLayout>
        decreases self,
    {
        match self {
            PaneLayout::Pane(index) => if index == target {
                None
            } else {
                Some(PaneLayout::Pane(index))
            },
            PaneLayout::Split { direction, ratio, first, second } => match (
                first.without_spec(target),
                second.without_spec(target),
            ) {
                (Some(f), Some(s)) => Some(
                    PaneLayout::Split { direction, ratio, first: Box::new(f), second: Box::new(s) },
                ),
                (Some(l), None) => Some(l),
                (None, Some(l)) => Some(l),
                (None, None) => None,
            },
        }
    }

    /// The layout with the pane numbers `source` and `target` exchanged.
    pub open spec fn swap_spec(self, source: u32, target: u32) -> PaneLayout
        decreases self,
    {
        match self {
            PaneLayout::Pane(index) => if index == source {
                PaneLayout::Pane(target)
            } else if index == target {
                PaneLayout::Pane(source)
            } else {
                PaneLayout::Pane(index)
            },
            PaneLayout::Split { direction, ratio, first, second } => PaneLayout::Split {
                direction,
                ratio,
                first: Box::new(first.swap_spec(source, target)),
                second: Box::new(second.swap_spec(source, target)),
            },
        }
    }

    /// The panes and separators that `area` is divided into.
    pub open spec fn geometry_spec(self, area: PaneRect) -> (Seq<(u32, PaneRect)>, Seq<PaneSeparator>)
        decreases self,
    {
        match self {
            PaneLayout::Pane(index) => (seq![(index, area)], Seq::empty()),
            PaneLayout::Split { direction, ratio, first, second } => {
                let (fa, sep, sa) = split_rects_spec(area, direction, ratio);
                let (fp, fs) = first.geometry_spec(fa);
                let (sp, ss) = second.geometry_spec(sa);
                let mid = if sep.rect.cols > 0 && sep.rect.rows > 0 {
                    seq![sep]
                } else {
                    Seq::empty()
                };
                (fp + sp, fs + mid + ss)
            },
        }
    }

    /// Moves the split boundary nearest to `target` along `axis` so that
    /// `target` gets `desired` cells; `false` when no split could change.
    pub open spec fn resize_axis_spec(
        self,
        target: u32,
        desired: u16,
        axis: SplitDirection,
        area: PaneRect,
    ) -> (PaneLayout, bool)
        decreases self,
    {
        match self {
            PaneLayout::Pane(_) => (self, false),
            PaneLayout::Split { direction, ratio, first, second } => {
                let (fa, _, sa) = split_rects_spec(area, direction, ratio);
                let in_first = first.leaves().contains(target);
                let in_second = second.leaves().contains(target);
                if !in_first && !in_second {
                    (self, false)
                } else {
                    let (nf, ns, nested) = if in_first {
                        let (f2, n) = first.resize_axis_spec(target, desired, axis, fa);
                        (f2, *second, n)
                    } else {
                        let (s2, n) = second.resize_axis_spec(target, desired, axis, sa);
                        (*first, s2, n)
                    };
                    let available = match axis {
                        SplitDirection::Horizontal => sat_sub(area.cols as int, 1),
                        SplitDirection::Vertical => sat_sub(area.rows as int, 1),
                    };
                    if nested || direction != axis || available < 2 {
                        (
                            PaneLayout::Split {
                                direction,
                                ratio,
                                first: Box::new(nf),
                                second: Box::new(ns),
                            },
                            nested,
                        )
                    } else {
                        let d = clamp_int(desired as int, 1, available - 1);
                        let first_size = if in_first {
                            d
                        } else {
                            available - d
                        };
                        let r = clamp_int(first_size * 1000 / available, 1, 999);
                        (
                            PaneLayout::Split {
                                direction,
                                ratio: r as u16,
                                first: Box::new(nf),
                                second: Box::new(ns),
                            },
                            true,
                        )
                    }
                }
            },
        }
    }
}

/// The size given to the first half of `total` usable cells.
pub fn split_size(total: u16, ratio: u16) -> (r: u16)
    ensures
        r as int == split_size_spec(total as int, ratio as int),
        total > 1 ==> 1 <= r < total,
        total <= 1 ==> r == total,
{
    if total <= 1 {
        return total;
    }
    assert((total as u32) * (ratio as u32) <= 0xffff * 0xffff) by (nonlinear_arith)
        requires
            total <= 0xffff,
            ratio <= 0xffff,
    {
    }
    let v: u32 = (total as u32) * (ratio as u32) / 1000;
    let hi: u32 = (total - 1) as u32;
    if v < 1 {
        1
    } else if v > hi {
        hi as u16
    } else {
        v as u16
    }
}

fn sat_sub_u16(a: u16, b: u16) -> (r: u16)
    ensures
        r as int == sat_sub(a as int, b as int),
{
    if a >= b {
        a - b
    } else {
        0
    }
}

fn sat_add_u16(a: u16, b: u16) -> (r: u16)
    ensures
        r as int == sat_add16(a as int, b as int),
{
    if a as u32 + b as u32 > u16::MAX as u32 {
        u16::MAX
    } else {
        a + b
    }
}

fn min_u16(a: u16, b: u16) -> (r: u16)
    ensures
        r as int == min_int(a as int, b as int),
{
    if a <= b {
        a
    } else {
        b
    }
}

/// Divides `area` between the two halves of a split.
pub fn split_rects(area: PaneRect, direction: SplitDirection, ratio: u16) -> (r: (
    PaneRect,
    PaneSeparator,
    PaneRect,
))
    ensures
        r == split_rects_spec(area, direction, ratio),
{
    match direction {
        SplitDirection::Horizontal => {
            let usable = sat_sub_u16(area.cols, 1);
            let first_cols = split_size(usable, ratio);
            let second_cols = sat_sub_u16(usable, first_cols);
            let sep_x = sat_add_u16(area.x, first_cols);
            (
                PaneRect { x: area.x, y: area.y, cols: first_cols, rows: area.rows },
                PaneSeparator {
                    rect: PaneRect { x: sep_x, y: area.y, cols: min_u16(area.cols, 1), rows: area.rows },
                },
                PaneRect { x: sat_add_u16(sep_x, 1), y: area.y, cols: second_cols, rows: area.rows },
            )
        },
        SplitDirection::Vertical => {
            let usable = sat_sub_u16(area.rows, 1);
            let first_rows = split_size(usable, ratio);
            let second_rows = sat_sub_u16(usable, first_rows);
            let sep_y = sat_add_u16(area.y, first_rows);
            (
                PaneRect { x: area.x, y: area.y, cols: area.cols, rows: first_rows },
                PaneSeparator {
                    rect: PaneRect { x: area.x, y: sep_y, cols: area.cols, rows: min_u16(area.rows, 1) },
                },
                PaneRect { x: area.x, y: sat_add_u16(sep_y, 1), cols: area.cols, rows: second_rows },
            )
        },
    }
}

impl PaneLayout {
    /// A layout holding the single pane `index`.
    pub fn new(index: u32) -> (r: PaneLayout)
        ensures
            r == PaneLayout::Pane(index),
            r.leaves() == seq![index],
            r.wf(),
    {
        PaneLayout::Pane(index)
    }

    /// Whether pane `target` is part of the layout.
    pub fn contains(&self, target: u32) -> (r: bool)
        ensures
            r == self.leaves().contains(target),
        decreases self,
    {
        match self {
            PaneLayout::Pane(index) => {
                proof {
                    if *index != target {
                        assert(!self.leaves().contains(target)) by {
                            assert(self.leaves() =~= seq![*index]);
                        }
                    } else {
                        assert(self.leaves()[0] == target);
                    }
                }
                *index == target
            },
            PaneLayout::Split { first, second, .. } => {
                let a = first.contains(target);
                let b = second.contains(target);
                proof {
                    let l = self.leaves();
                    let fl = first.leaves();
                    let sl = second.leaves();
                    assert(l == fl + sl);
                    if a {
                        let k = choose|k: int| 0 <= k < fl.len() && fl[k] == target;
                        assert(l[k] == target);
                    } else if b {
                        let k = choose|k: int| 0 <= k < sl.len() && sl[k] == target;
                        assert(l[fl.len() + k] == target);
                    } else {
                        assert forall|k: int| 0 <= k < l.len() implies l[k] != target by {
                            if k < fl.len() {
                                assert(l[k] == fl[k]);
                            } else {
                                assert(l[k] == sl[k - fl.len()]);
                            }
                        }
                    }
                }
                a || b
            },
        }
    }

    /// Appends the pane numbers in layout order.
    pub fn collect_indexes(&self, indexes: &mut Vec<u32>)
        ensures
            final(indexes)@ == old(indexes)@ + self.leaves(),
        decreases self,
    {
        match self {
            PaneLayout::Pane(index) => {
                indexes.push(*index);
                assert(final(indexes)@ =~= old(indexes)@ + self.leaves());
            },
            PaneLayout::Split { first, second, .. } => {
                first.collect_indexes(indexes);
                second.collect_indexes(indexes);
                assert(final(indexes)@ =~= old(indexes)@ + self.leaves());
            },
        }
    }

    /// The pane numbers in layout order.
    pub fn pane_indexes(&self) -> (r: Vec<u32>)
        ensures
            r@ == self.leaves(),
    {
        let mut indexes: Vec<u32> = Vec::new();
        self.collect_indexes(&mut indexes);
        assert(indexes@ =~= self.leaves());
        indexes
    }

    fn split_owned(self, target: u32, index: u32, direction: SplitDirection) -> (r: (
        PaneLayout,
        bool,
    ))
        ensures
            r.1 == self.split_spec(target, index, direction) is Some,
            r.1 ==> self.split_spec(target, index, direction) == Some(r.0),
            !r.1 ==> r.0 == self,
        decreases self,
    {
        match self {
            PaneLayout::Pane(current) => {
                if current == target {
                    (
                        PaneLayout::Split {
                            direction,
                            ratio: 500,
                            first: Box::new(PaneLayout::Pane(current)),
                            second: Box::new(PaneLayout::Pane(index)),
                        },
                        true,
                    )
                } else {
                    (PaneLayout::Pane(current), false)
                }
            },
            PaneLayout::Split { direction: d, ratio, first, second } => {
                let (f, done) = (*first).split_owned(target, index, direction);
                if done {
                    (PaneLayout::Split { direction: d, ratio, first: Box::new(f), second }, true)
                } else {
                    let (s, done2) = (*second).split_owned(target, index, direction);
                    (
                        PaneLayout::Split {
                            direction: d,
                            ratio,
                            first: Box::new(f),
                            second: Box::new(s),
                        },
                        done2,
                    )
                }
            },
        }
    }

    /// Splits the first pane numbered `target`, placing the new pane
    /// `index` after it; `false` (and no change) if there is no such pane.
    pub fn split(&mut self, target: u32, index: u32, direction: SplitDirection) -> (r: bool)
        ensures
            r == old(self).split_spec(target, index, direction) is Some,
            r ==> old(self).split_spec(target, index, direction) == Some(*final(self)),
            !r ==> *final(self) == *old(self),
    {
        let mut cur = PaneLayout::Pane(0);
        std::mem::swap(&mut cur, self);
        let (next, done) = cur.split_owned(target, index, direction);
        *self = next;
        done
    }

    fn without(self, target: u32) -> (r: Option<PaneLayout>)
        ensures
            r == self.without_spec(target),
        decreases self,
    {
        match self {
            PaneLayout::Pane(index) => {
                if index == target {
                    None
                } else {
                    Some(PaneLayout::Pane(index))
                }
            },
            PaneLayout::Split { direction, ratio, first, second } => {
                let f = (*first).without(target);
                let s = (*second).without(target);
                match (f, s) {
                    (Some(f), Some(s)) => Some(
                        PaneLayout::Split {
                            direction,
                            ratio,
                            first: Box::new(f),
                            second: Box::new(s),
                        },
                    ),
                    (Some(l), None) => Some(l),
                    (None, Some(l)) => Some(l),
                    (None, None) => None,
                }
            },
        }
    }

    /// Removes the pane `target`; `false` (and no change) when it is absent
    /// or is the only pane left.
    pub fn remove(&mut self, target: u32) -> (r: bool)
        ensures
            r == (old(self).leaves().contains(target) && old(self).without_spec(target) is Some),
            r ==> old(self).without_spec(target) == Some(*final(self)),
            !old(self).leaves().contains(target) ==> *final(self) == *old(self),
            old(self).leaves().contains(target) && old(self).without_spec(target) is None
                ==> *final(self) == PaneLayout::Pane(target),
    {
        if !self.contains(target) {
            return false;
        }
        let mut cur = PaneLayout::Pane(target);
        std::mem::swap(&mut cur, self);
        match cur.without(target) {
            Some(next) => {
                *self = next;
                true
            },
            None => {
                *self = PaneLayout::Pane(target);
                false
            },
        }
    }

    fn swap_indexes(self, source: u32, target: u32) -> (r: PaneLayout)
        ensures
            r == self.swap_spec(source, target),
        decreases self,
    {
        match self {
            PaneLayout::Pane(index) => {
                if index == source {
                    PaneLayout::Pane(target)
                } else if index == target {
                    PaneLayout::Pane(source)
                } else {
                    PaneLayout::Pane(index)
                }
            },
            PaneLayout::Split { direction, ratio, first, second } => PaneLayout::Split {
                direction,
                ratio,
                first: Box::new((*first).swap_indexes(source, target)),
                second: Box::new((*second).swap_indexes(source, target)),
            },
        }
    }

    /// Exchanges the panes `source` and `target`; `false` (and no change)
    /// unless both are present.
    pub fn swap_panes(&mut self, source: u32, target: u32) -> (r: bool)
        ensures
            r == (old(self).leaves().contains(source) && old(self).leaves().contains(target)),
            r ==> *final(self) == old(self).swap_spec(source, target),
            !r ==> *final(self) == *old(self),
    {
        if source == target {
            let r = self.contains(source);
            proof {
                if r {
                    lemma_swap_same(*self, source);
                }
            }
            return r;
        }
        if !self.contains(source) || !self.contains(target) {
            return false;
        }
        let mut cur = PaneLayout::Pane(0);
        std::mem::swap(&mut cur, self);
        *self = cur.swap_indexes(source, target);
        true
    }

    fn fill_geometry(&self, area: PaneRect, geometry: &mut PaneGeometry)
        ensures
            final(geometry).panes@ == old(geometry).panes@ + self.geometry_spec(area).0,
            final(geometry).separators@ == old(geometry).separators@ + self.geometry_spec(area).1,
        decreases self,
    {
        match self {
            PaneLayout::Pane(index) => {
                geometry.panes.push((*index, area));
                assert(geometry.panes@ =~= old(geometry).panes@ + self.geometry_spec(area).0);
                assert(geometry.separators@ =~= old(geometry).separators@ + self.geometry_spec(
                    area,
                ).1);
            },
            PaneLayout::Split { direction, ratio, first, second } => {
                let (first_area, separator, second_area) = split_rects(area, *direction, *ratio);
                first.fill_geometry(first_area, geometry);
                let ghost mid_sep = geometry.separators@;
                if separator.rect.cols > 0 && separator.rect.rows > 0 {
                    geometry.separators.push(separator);
                }
                let ghost after_sep = geometry.separators@;
                second.fill_geometry(second_area, geometry);
                assert(geometry.panes@ =~= old(geometry).panes@ + self.geometry_spec(area).0);
                assert(geometry.separators@ =~= old(geometry).separators@ + self.geometry_spec(
                    area,
                ).1);
            },
        }
    }

    /// The pane rectangles and separators of a `cols` by `rows` window.
    pub fn geometry(&self, cols: u16, rows: u16) -> (r: PaneGeometry)
        ensures
            r.panes@ == self.geometry_spec(PaneRect { x: 0, y: 0, cols, rows }).0,
            r.separators@ == self.geometry_spec(PaneRect { x: 0, y: 0, cols, rows }).1,
    {
        let mut geometry = PaneGeometry { panes: Vec::new(), separators: Vec::new() };
        self.fill_geometry(PaneRect { x: 0, y: 0, cols, rows }, &mut geometry);
        assert(geometry.panes@ =~= self.geometry_spec(PaneRect { x: 0, y: 0, cols, rows }).0);
        assert(geometry.separators@ =~= self.geometry_spec(PaneRect { x: 0, y: 0, cols, rows }).1);
        geometry
    }

    fn resize_axis(self, target: u32, desired: u16, axis: SplitDirection, area: PaneRect) -> (r: (
        PaneLayout,
        bool,
    ))
        ensures
            r == self.resize_axis_spec(target, desired, axis, area),
        decreases self,
    {
        match self {
            PaneLayout::Pane(i) => (PaneLayout::Pane(i), false),
            PaneLayout::Split { direction, ratio, first, second } => {
                let (first_area, _, second_area) = split_rects(area, direction, ratio);
                let in_first = first.contains(target);
                let in_second = second.contains(target);
                if !in_first && !in_second {
                    return (PaneLayout::Split { direction, ratio, first, second }, false);
                }
                let (nf, ns, nested) = if in_first {
                    let (f2, n) = (*first).resize_axis(target, desired, axis, first_area);
                    (f2, *second, n)
                } else {
                    let (s2, n) = (*second).resize_axis(target, desired, axis, second_area);
                    (*first, s2, n)
                };
                let available: u16 = match axis {
                    SplitDirection::Horizontal => sat_sub_u16(area.cols, 1),
                    SplitDirection::Vertical => sat_sub_u16(area.rows, 1),
                };
                if nested || direction != axis || available < 2 {
                    return (
                        PaneLayout::Split { direction, ratio, first: Box::new(nf), second: Box::new(ns) },
                        nested,
                    );
                }
                let d: u16 = if desired < 1 {
                    1
                } else if desired > available - 1 {
                    available - 1
                } else {
                    desired
                };
                let first_size: u16 = if in_first {
                    d
                } else {
                    available - d
                };
                let raw: u32 = (first_size as u32) * 1000 / (available as u32);
                let r: u16 = if raw < 1 {
                    1
                } else if raw > 999 {
                    999
                } else {
                    raw as u16
                };
                (
                    PaneLayout::Split { direction, ratio: r, first: Box::new(nf), second: Box::new(ns) },
                    true,
                )
            },
        }
    }

    /// Sets the width (`cols`) and height (`rows`) of pane `target` in an
    /// `area_cols` by `area_rows` window, as far as its splits allow.
    pub fn resize_pane(
        &mut self,
        target: u32,
        cols: Option<u16>,
        rows: Option<u16>,
        area_cols: u16,
        area_rows: u16,
    ) -> (r: bool)
        ensures
            ({
                let area = PaneRect { x: 0, y: 0, cols: area_cols, rows: area_rows };
                let (l1, w) = match cols {
                    Some(v) => old(self).resize_axis_spec(target, v, SplitDirection::Horizontal, area),
                    None => (*old(self), false),
                };
                let (l2, h) = match rows {
                    Some(v) => l1.resize_axis_spec(target, v, SplitDirection::Vertical, area),
                    None => (l1, false),
                };
                *final(self) == l2 && r == (w || h)
            }),
    {
        let area = PaneRect { x: 0, y: 0, cols: area_cols, rows: area_rows };
        let mut cur = PaneLayout::Pane(0);
        std::mem::swap(&mut cur, self);
        let (l1, w) = match cols {
            Some(v) => cur.resize_axis(target, v, SplitDirection::Horizontal, area),
            None => (cur, false),
        };
        let (l2, h) = match rows {
            Some(v) => l1.resize_axis(target, v, SplitDirection::Vertical, area),
            None => (l1, false),
        };
        *self = l2;
        w || h
    }
}

proof fn lemma_swap_same(l: PaneLayout, source: u32)
    ensures
        l.swap_spec(source, source) == l,
    decreases l,
{
    match l {
        PaneLayout::Pane(_) => {},
        PaneLayout::Split { first, second, .. } => {
            lemma_swap_same(*first, source);
            lemma_swap_same(*second, source);
        },
    }
}


/// Position of the first `t` in `s`.
pub open spec fn first_pos(s: Seq<u32>, t: u32) -> Option<int>
    decreases s.len(),
{
    if s.len() == 0 {
        None
    } else if s[0] == t {
        Some(0)
    } else {
        match first_pos(s.skip(1), t) {
            Some(i) => Some(i + 1),
            None => None,
        }
    }
}

/// `s` with `index` inserted right after the first `target`.
pub open spec fn insert_after_first(s: Seq<u32>, target: u32, index: u32) -> Seq<u32> {
    match first_pos(s, target) {
        Some(p) => s.take(p + 1).push(index) + s.skip(p + 1),
        None => s,
    }
}

/// `s` with every `a` replaced by `b` and every `b` by `a`.
pub open spec fn swap_values(s: Seq<u32>, a: u32, b: u32) -> Seq<u32> {
    s.map_values(|x: u32| if x == a { b } else if x == b { a } else { x })
}

proof fn lemma_first_pos_contains(s: Seq<u32>, t: u32)
    ensures
        (first_pos(s, t) is Some) == s.contains(t),
        first_pos(s, t) matches Some(p) ==> 0 <= p < s.len() && s[p] == t,
    decreases s.len(),
{
    if s.len() > 0 && s[0] != t {
        lemma_first_pos_contains(s.skip(1), t);
        if s.contains(t) {
            let k = choose|k: int| 0 <= k < s.len() && s[k] == t;
            assert(s.skip(1)[k - 1] == t);
        }
        if s.skip(1).contains(t) {
            let k = choose|k: int| 0 <= k < s.skip(1).len() && s.skip(1)[k] == t;
            assert(s[k + 1] == t);
        }
    } else if s.len() > 0 {
        assert(s[0] == t);
    }
}

proof fn lemma_first_pos_concat(a: Seq<u32>, b: Seq<u32>, t: u32)
    ensures
        first_pos(a + b, t) == match first_pos(a, t) {
            Some(p) => Some(p),
            None => match first_pos(b, t) {
                Some(q) => Some(q + a.len()),
                None => None,
            },
        },
    decreases a.len(),
{
    if a.len() == 0 {
        assert(a + b =~= b);
    } else {
        assert((a + b)[0] == a[0]);
        if a[0] != t {
            assert((a + b).skip(1) =~= a.skip(1) + b);
            lemma_first_pos_concat(a.skip(1), b, t);
        }
    }
}

/// Splitting succeeds exactly when `target` is present, and the new pane
/// follows the first `target` in layout order.
pub proof fn lemma_split_leaves(l: PaneLayout, target: u32, index: u32, direction: SplitDirection)
    ensures
        (l.split_spec(target, index, direction) is Some) == l.leaves().contains(target),
        l.split_spec(target, index, direction) matches Some(n) ==> n.leaves() == insert_after_first(
            l.leaves(),
            target,
            index,
        ),
    decreases l,
{
    lemma_first_pos_contains(l.leaves(), target);
    match l {
        PaneLayout::Pane(c) => {
            if c == target {
                let n = l.split_spec(target, index, direction).unwrap();
                assert(PaneLayout::Pane(c).leaves() == seq![c]);
                assert(PaneLayout::Pane(index).leaves() == seq![index]);
                assert(n.leaves() =~= seq![c, index]);
                assert(l.leaves().take(1).push(index) + l.leaves().skip(1) =~= seq![c, index]);
            }
        },
        PaneLayout::Split { first, second, .. } => {
            lemma_split_leaves(*first, target, index, direction);
            lemma_split_leaves(*second, target, index, direction);
            lemma_first_pos_contains(first.leaves(), target);
            lemma_first_pos_contains(second.leaves(), target);
            lemma_first_pos_concat(first.leaves(), second.leaves(), target);
            let fl = first.leaves();
            let sl = second.leaves();
            if fl.contains(target) {
                let k = choose|k: int| 0 <= k < fl.len() && fl[k] == target;
                assert(l.leaves()[k] == target);
                let p = first_pos(fl, target).unwrap();
                let nf = first.split_spec(target, index, direction).unwrap();
                assert(nf.leaves() + sl =~= (fl + sl).take(p + 1).push(index) + (fl + sl).skip(
                    p + 1,
                ));
            } else if sl.contains(target) {
                let k = choose|k: int| 0 <= k < sl.len() && sl[k] == target;
                assert(l.leaves()[fl.len() + k] == target);
                let q = first_pos(sl, target).unwrap();
                let ns = second.split_spec(target, index, direction).unwrap();
                assert(fl + ns.leaves() =~= (fl + sl).take(q + fl.len() + 1).push(index) + (fl
                    + sl).skip(q + fl.len() + 1));
            } else {
                assert forall|k: int| 0 <= k < l.leaves().len() implies l.leaves()[k] != target by {
                    if k < fl.len() {
                        assert(l.leaves()[k] == fl[k]);
                    } else {
                        assert(l.leaves()[k] == sl[k - fl.len()]);
                    }
                }
            }
        },
    }
}

/// Removing keeps every other pane, in order; nothing is left exactly when
/// every pane is `target`.
pub proof fn lemma_without_leaves(l: PaneLayout, target: u32)
    ensures
        match l.without_spec(target) {
            Some(n) => n.leaves() == l.leaves().filter(|x: u32| x != target) && n.leaves().len() > 0,
            None => l.leaves().filter(|x: u32| x != target).len() == 0,
        },
    decreases l,
{
    reveal_with_fuel(Seq::filter, 2);
    match l {
        PaneLayout::Pane(c) => {
            assert(seq![c].drop_last() =~= Seq::<u32>::empty());
            assert(Seq::<u32>::empty().filter(|x: u32| x != target) =~= Seq::<u32>::empty());
            if c != target {
                assert(l.leaves().filter(|x: u32| x != target) =~= seq![c]);
            }
        },
        PaneLayout::Split { first, second, .. } => {
            lemma_without_leaves(*first, target);
            lemma_without_leaves(*second, target);
            Seq::filter_distributes_over_add(first.leaves(), second.leaves(), |x: u32| x != target);
            match (first.without_spec(target), second.without_spec(target)) {
                (Some(f), Some(s)) => {},
                (Some(f), None) => {
                    assert(f.leaves() + Seq::<u32>::empty() =~= f.leaves());
                    assert(first.leaves().filter(|x: u32| x != target) + second.leaves().filter(
                        |x: u32| x != target,
                    ) =~= f.leaves());
                },
                (None, Some(s)) => {
                    assert(first.leaves().filter(|x: u32| x != target) + second.leaves().filter(
                        |x: u32| x != target,
                    ) =~= s.leaves());
                },
                (None, None) => {},
            }
        },
    }
}

/// Swapping exchanges the two pane numbers wherever they occur.
pub proof fn lemma_swap_leaves(l: PaneLayout, source: u32, target: u32)
    ensures
        l.swap_spec(source, target).leaves() == swap_values(l.leaves(), source, target),
        l.wf() ==> l.swap_spec(source, target).wf(),
    decreases l,
{
    match l {
        PaneLayout::Pane(c) => {
            assert(l.swap_spec(source, target).leaves() =~= swap_values(l.leaves(), source, target));
        },
        PaneLayout::Split { first, second, .. } => {
            lemma_swap_leaves(*first, source, target);
            lemma_swap_leaves(*second, source, target);
            assert(l.swap_spec(source, target).leaves() =~= swap_values(l.leaves(), source, target));
        },
    }
}

/// Splitting and removing keep ratios valid.
pub proof fn lemma_split_without_wf(l: PaneLayout, target: u32, index: u32, direction: SplitDirection)
    requires
        l.wf(),
    ensures
        l.split_spec(target, index, direction) matches Some(n) ==> n.wf(),
        l.without_spec(target) matches Some(n) ==> n.wf(),
    decreases l,
{
    match l {
        PaneLayout::Pane(c) => {
            assert(PaneLayout::Pane(c).wf());
            assert(PaneLayout::Pane(index).wf());
        },
        PaneLayout::Split { first, second, .. } => {
            lemma_split_without_wf(*first, target, index, direction);
            lemma_split_without_wf(*second, target, index, direction);
        },
    }
}

/// The geometry lists one rectangle per pane, in layout order.
pub proof fn lemma_geometry_leaves(l: PaneLayout, area: PaneRect)
    ensures
        l.geometry_spec(area).0.map_values(|p: (u32, PaneRect)| p.0) == l.leaves(),
    decreases l,
{
    match l {
        PaneLayout::Pane(c) => {
            assert(l.geometry_spec(area).0.map_values(|p: (u32, PaneRect)| p.0) =~= l.leaves());
        },
        PaneLayout::Split { direction, ratio, first, second } => {
            let (fa, _, sa) = split_rects_spec(area, direction, ratio);
            lemma_geometry_leaves(*first, fa);
            lemma_geometry_leaves(*second, sa);
            assert(l.geometry_spec(area).0.map_values(|p: (u32, PaneRect)| p.0) =~= l.leaves());
        },
    }
}

/// Resizing keeps the panes and their order, keeps ratios valid, and
/// changes nothing when it reports no change.
pub proof fn lemma_resize_axis(
    l: PaneLayout,
    target: u32,
    desired: u16,
    axis: SplitDirection,
    area: PaneRect,
)
    ensures
        l.resize_axis_spec(target, desired, axis, area).0.leaves() == l.leaves(),
        l.wf() ==> l.resize_axis_spec(target, desired, axis, area).0.wf(),
        !l.resize_axis_spec(target, desired, axis, area).1 ==> l.resize_axis_spec(
            target,
            desired,
            axis,
            area,
        ).0 == l,
    decreases l,
{
    match l {
        PaneLayout::Pane(_) => {},
        PaneLayout::Split { direction, ratio, first, second } => {
            let (fa, _, sa) = split_rects_spec(area, direction, ratio);
            lemma_resize_axis(*first, target, desired, axis, fa);
            lemma_resize_axis(*second, target, desired, axis, sa);
        },
    }
}
} // verus!
