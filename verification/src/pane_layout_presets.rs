//! The preset layouts that `select-layout`-style cycling goes through.
use vstd::prelude::*;

use crate::pane_layout::{PaneLayout, SplitDirection};

verus! {

/// The preset layouts, in cycling order.
#[derive(Clone, Copy, Debug, PartialEq, Eq, Structural)]
pub enum PaneLayoutPreset {
    EvenHorizontal,
    EvenVertical,
    MainHorizontal,
    MainVertical,
    Tiled,
}

/// The ratio given to the head of `count` equal parts.
pub open spec fn equal_ratio(count: int) -> int {
    let r = 1000int / count;
    if r < 1 {
        1
    } else if r > 999 {
        999
    } else {
        r
    }
}

/// Layouts combined into a right-leaning chain of equal splits.
pub open spec fn combine_spec(layouts: Seq<PaneLayout>, direction: SplitDirection) -> Option<PaneLayout>
    decreases layouts.len(),
{
    if layouts.len() == 0 {
        None
    } else if layouts.len() == 1 {
        Some(layouts[0])
    } else {
        match combine_spec(layouts.skip(1), direction) {
            Some(rest) => Some(
                PaneLayout::Split {
                    direction,
                    ratio: equal_ratio(layouts.len() as int) as u16,
                    first: Box::new(layouts[0]),
                    second: Box::new(rest),
                },
            ),
            None => None,
        }
    }
}

/// One pane per index.
pub open spec fn panes_of(indexes: Seq<u32>) -> Seq<PaneLayout> {
    indexes.map_values(|i: u32| PaneLayout::Pane(i))
}

/// Equal parts along `direction`.
pub open spec fn even_spec(indexes: Seq<u32>, direction: SplitDirection) -> Option<PaneLayout> {
    combine_spec(panes_of(indexes), direction)
}

/// A main pane taking 60% along `primary`, the others evenly along `secondary`.
pub open spec fn main_spec(
    indexes: Seq<u32>,
    primary: SplitDirection,
    secondary: SplitDirection,
) -> Option<PaneLayout> {
    if indexes.len() == 0 {
        None
    } else if indexes.len() == 1 {
        Some(PaneLayout::Pane(indexes[0]))
    } else {
        match even_spec(indexes.skip(1), secondary) {
            Some(rest) => Some(
                PaneLayout::Split {
                    direction: primary,
                    ratio: 600,
                    first: Box::new(PaneLayout::Pane(indexes[0])),
                    second: Box::new(rest),
                },
            ),
            None => None,
        }
    }
}

/// The smallest column count whose square holds `count` panes.
pub open spec fn is_tiled_columns(count: int, columns: int) -> bool {
    columns >= 1 && columns * columns >= count && (columns == 1 || (columns - 1) * (columns - 1)
        < count)
}

/// For each pane count there is exactly one tiled column count, so a layout
/// stated through some column count that meets `is_tiled_columns` is fixed.
pub proof fn lemma_tiled_columns_unique(count: int, a: int, b: int)
    requires
        is_tiled_columns(count, a),
        is_tiled_columns(count, b),
    ensures
        a == b,
{
    if a < b {
        assert(a * a <= (b - 1) * (b - 1)) by (nonlinear_arith)
            requires
                1 <= a <= b - 1,
        ;
    } else if b < a {
        assert(b * b <= (a - 1) * (a - 1)) by (nonlinear_arith)
            requires
                1 <= b <= a - 1,
        ;
    }
}

/// Rows of at most `columns` panes, each laid out horizontally.
pub open spec fn tiled_rows(indexes: Seq<u32>, columns: int) -> Seq<PaneLayout>
    decreases indexes.len(),
{
    if indexes.len() == 0 || columns <= 0 {
        Seq::empty()
    } else if indexes.len() <= columns {
        seq![even_spec(indexes, SplitDirection::Horizontal).unwrap()]
    } else {
        seq![even_spec(indexes.take(columns), SplitDirection::Horizontal).unwrap()] + tiled_rows(
            indexes.skip(columns),
            columns,
        )
    }
}

/// Rows stacked vertically, each split horizontally.
pub open spec fn tiled_spec(indexes: Seq<u32>, columns: int) -> Option<PaneLayout> {
    if indexes.len() == 0 {
        None
    } else {
        combine_spec(tiled_rows(indexes, columns), SplitDirection::Vertical)
    }
}

/// The layout a preset gives the panes `indexes`.
pub open spec fn preset_spec(indexes: Seq<u32>, preset: PaneLayoutPreset, columns: int) -> Option<
    PaneLayout,
> {
    match preset {
        PaneLayoutPreset::EvenHorizontal => even_spec(indexes, SplitDirection::Horizontal),
        PaneLayoutPreset::EvenVertical => even_spec(indexes, SplitDirection::Vertical),
        PaneLayoutPreset::MainHorizontal => main_spec(
            indexes,
            SplitDirection::Vertical,
            SplitDirection::Horizontal,
        ),
        PaneLayoutPreset::MainVertical => main_spec(
            indexes,
            SplitDirection::Horizontal,
            SplitDirection::Vertical,
        ),
        PaneLayoutPreset::Tiled => tiled_spec(indexes, columns),
    }
}

/// The panes of several layouts, one layout after the other.
pub open spec fn leaves_of_all(layouts: Seq<PaneLayout>) -> Seq<u32>
    decreases layouts.len(),
{
    if layouts.len() == 0 {
        Seq::empty()
    } else {
        layouts[0].leaves() + leaves_of_all(layouts.skip(1))
    }
}

pub open spec fn all_wf(layouts: Seq<PaneLayout>) -> bool {
    forall|k: int| 0 <= k < layouts.len() ==> (#[trigger] layouts[k]).wf()
}

impl PaneLayoutPreset {
    /// The preset that follows in the cycle.
    pub fn next(self) -> (r: PaneLayoutPreset)
        ensures
            r == match self {
                PaneLayoutPreset::EvenHorizontal => PaneLayoutPreset::EvenVertical,
                PaneLayoutPreset::EvenVertical => PaneLayoutPreset::MainHorizontal,
                PaneLayoutPreset::MainHorizontal => PaneLayoutPreset::MainVertical,
                PaneLayoutPreset::MainVertical => PaneLayoutPreset::Tiled,
                PaneLayoutPreset::Tiled => PaneLayoutPreset::EvenHorizontal,
            },
    {
        match self {
            PaneLayoutPreset::EvenHorizontal => PaneLayoutPreset::EvenVertical,
            PaneLayoutPreset::EvenVertical => PaneLayoutPreset::MainHorizontal,
            PaneLayoutPreset::MainHorizontal => PaneLayoutPreset::MainVertical,
            PaneLayoutPreset::MainVertical => PaneLayoutPreset::Tiled,
            PaneLayoutPreset::Tiled => PaneLayoutPreset::EvenHorizontal,
        }
    }
}

/// Combines layouts into a chain of equal splits.
pub fn combine_equal(layouts: Vec<PaneLayout>, direction: SplitDirection) -> (r: Option<PaneLayout>)
    ensures
        r == combine_spec(layouts@, direction),
    decreases layouts.len(),
{
    let mut layouts = layouts;
    if layouts.len() == 0 {
        return None;
    }
    if layouts.len() == 1 {
        return layouts.pop();
    }
    let count = layouts.len();
    let ghost all = layouts@;
    let first = layouts.remove(0);
    assert(layouts@ =~= all.skip(1));
    let raw: usize = 1000 / count;
    let ratio: u16 = if raw < 1 {
        1
    } else if raw > 999 {
        999
    } else {
        raw as u16
    };
    match combine_equal(layouts, direction) {
        Some(rest) => Some(
            PaneLayout::Split { direction, ratio, first: Box::new(first), second: Box::new(rest) },
        ),
        None => None,
    }
}

/// Panes `indexes` in equal parts along `direction`.
pub fn even_layout(indexes: &[u32], direction: SplitDirection) -> (r: Option<PaneLayout>)
    ensures
        r == even_spec(indexes@, direction),
{
    let mut panes: Vec<PaneLayout> = Vec::new();
    let mut i: usize = 0;
    while i < indexes.len()
        invariant
            i <= indexes.len(),
            panes@ == panes_of(indexes@.take(i as int)),
        decreases indexes.len() - i,
    {
        panes.push(PaneLayout::Pane(indexes[i]));
        assert(panes_of(indexes@.take(i + 1)) =~= panes_of(indexes@.take(i as int)).push(
            PaneLayout::Pane(indexes@[i as int]),
        ));
        i += 1;
    }
    assert(indexes@.take(indexes.len() as int) =~= indexes@);
    combine_equal(panes, direction)
}

/// A main pane and the others evenly beside or below it.
pub fn main_layout(indexes: &[u32], primary: SplitDirection, secondary: SplitDirection) -> (r: Option<
    PaneLayout,
>)
    ensures
        r == main_spec(indexes@, primary, secondary),
{
    if indexes.len() == 0 {
        return None;
    }
    let main = indexes[0];
    if indexes.len() == 1 {
        return Some(PaneLayout::Pane(main));
    }
    let rest = slice_tail(indexes, 1);
    match even_layout(&rest, secondary) {
        Some(l) => Some(
            PaneLayout::Split {
                direction: primary,
                ratio: 600,
                first: Box::new(PaneLayout::Pane(main)),
                second: Box::new(l),
            },
        ),
        None => None,
    }
}

fn slice_tail(s: &[u32], start: usize) -> (r: Vec<u32>)
    requires
        start <= s.len(),
    ensures
        r@ == s@.skip(start as int),
{
    slice_range(s, start, s.len())
}

fn slice_range(s: &[u32], start: usize, end: usize) -> (r: Vec<u32>)
    requires
        start <= end <= s.len(),
    ensures
        r@ == s@.subrange(start as int, end as int),
{
    let mut out: Vec<u32> = Vec::new();
    let mut i = start;
    while i < end
        invariant
            start <= i <= end <= s.len(),
            out@ == s@.subrange(start as int, i as int),
        decreases end - i,
    {
        out.push(s[i]);
        assert(s@.subrange(start as int, i as int).push(s@[i as int]) =~= s@.subrange(
            start as int,
            i + 1,
        ));
        i += 1;
    }
    out
}

/// The smallest column count whose square holds `count` panes.
pub fn tiled_columns(count: usize) -> (r: usize)
    ensures
        is_tiled_columns(count as int, r as int),
{
    let mut columns: usize = 1;
    loop
        invariant_except_break
            1 <= columns,
            columns <= count || columns == 1,
            columns == 1 || (columns - 1) * (columns - 1) < count,
        ensures
            is_tiled_columns(count as int, columns as int),
        decreases count - columns,
    {
        let done = match columns.checked_mul(columns) {
            Some(p) => p >= count,
            None => true,
        };
        if done {
            break;
        }
        assert(columns < count) by (nonlinear_arith)
            requires
                columns * columns < count,
                columns >= 1,
        {
        }
        columns = columns + 1;
    }
    columns
}

/// Rows of at most `columns` panes stacked vertically.
pub fn tiled_layout(indexes: &[u32]) -> (r: Option<PaneLayout>)
    ensures
        exists|c: int| is_tiled_columns(indexes@.len() as int, c) && r == tiled_spec(indexes@, c),
{
    let columns = tiled_columns(indexes.len());
    if indexes.len() == 0 {
        assert(is_tiled_columns(indexes@.len() as int, columns as int) && tiled_spec(
            indexes@,
            columns as int,
        ) is None);
        return None;
    }
    let mut rows: Vec<PaneLayout> = Vec::new();
    let mut start: usize = 0;
    assert(indexes@.skip(0) =~= indexes@);
    assert(rows@ + tiled_rows(indexes@, columns as int) =~= tiled_rows(indexes@, columns as int));
    while start < indexes.len()
        invariant
            columns >= 1,
            start <= indexes.len(),
            rows@ + tiled_rows(indexes@.skip(start as int), columns as int) == tiled_rows(
                indexes@,
                columns as int,
            ),
        decreases indexes.len() - start,
    {
        let end = if indexes.len() - start <= columns {
            indexes.len()
        } else {
            start + columns
        };
        let row = slice_range(indexes, start, end);
        let layout = even_layout(&row, SplitDirection::Horizontal);
        proof {
            lemma_even_some(row@, SplitDirection::Horizontal);
            let rest = indexes@.skip(start as int);
            if rest.len() <= columns {
                assert(row@ =~= rest);
                assert(indexes@.skip(end as int) =~= Seq::<u32>::empty());
            } else {
                assert(row@ =~= rest.take(columns as int));
                assert(rest.skip(columns as int) =~= indexes@.skip(end as int));
            }
        }
        let ghost before = rows@;
        rows.push(layout.unwrap());
        proof {
            let rest = indexes@.skip(start as int);
            let c = columns as int;
            assert(tiled_rows(rest, c) =~= seq![layout.unwrap()] + tiled_rows(indexes@.skip(end as int), c));
            assert(rows@ + tiled_rows(indexes@.skip(end as int), c) =~= before + tiled_rows(rest, c));
        }
        start = end;
    }
    assert(indexes@.skip(indexes.len() as int) =~= Seq::<u32>::empty());
    assert(rows@ + Seq::<PaneLayout>::empty() =~= rows@);
    assert(rows@ == tiled_rows(indexes@, columns as int));
    let r = combine_equal(rows, SplitDirection::Vertical);
    assert(is_tiled_columns(indexes@.len() as int, columns as int) && r == tiled_spec(
        indexes@,
        columns as int,
    ));
    r
}

pub proof fn lemma_combine_some(layouts: Seq<PaneLayout>, direction: SplitDirection)
    ensures
        (combine_spec(layouts, direction) is Some) == (layouts.len() > 0),
        combine_spec(layouts, direction) matches Some(l) ==> l.leaves() == leaves_of_all(layouts)
            && (all_wf(layouts) ==> l.wf()),
    decreases layouts.len(),
{
    if layouts.len() == 1 {
        assert(layouts.skip(1) =~= Seq::<PaneLayout>::empty());
        assert(leaves_of_all(layouts.skip(1)) =~= Seq::<u32>::empty());
        assert(layouts[0].leaves() + Seq::<u32>::empty() =~= layouts[0].leaves());
    } else if layouts.len() > 1 {
        lemma_combine_some(layouts.skip(1), direction);
        if all_wf(layouts) {
            assert forall|k: int| 0 <= k < layouts.skip(1).len() implies (
            #[trigger] layouts.skip(1)[k]).wf() by {
                assert(layouts.skip(1)[k] == layouts[k + 1]);
            }
            assert(layouts[0].wf());
        }
    }
}

pub proof fn lemma_even_some(indexes: Seq<u32>, direction: SplitDirection)
    ensures
        (even_spec(indexes, direction) is Some) == (indexes.len() > 0),
        even_spec(indexes, direction) matches Some(l) ==> l.leaves() == indexes && l.wf(),
{
    lemma_combine_some(panes_of(indexes), direction);
    lemma_leaves_of_panes(indexes);
    assert forall|k: int| 0 <= k < panes_of(indexes).len() implies (
    #[trigger] panes_of(indexes)[k]).wf() by {}
}

proof fn lemma_leaves_of_panes(indexes: Seq<u32>)
    ensures
        leaves_of_all(panes_of(indexes)) == indexes,
    decreases indexes.len(),
{
    if indexes.len() > 0 {
        lemma_leaves_of_panes(indexes.skip(1));
        assert(panes_of(indexes).skip(1) =~= panes_of(indexes.skip(1)));
        assert(panes_of(indexes)[0].leaves() == seq![indexes[0]]);
        assert(seq![indexes[0]] + indexes.skip(1) =~= indexes);
    } else {
        assert(panes_of(indexes) =~= Seq::<PaneLayout>::empty());
    }
}

proof fn lemma_leaves_of_all_concat(a: Seq<PaneLayout>, b: Seq<PaneLayout>)
    ensures
        leaves_of_all(a + b) == leaves_of_all(a) + leaves_of_all(b),
    decreases a.len(),
{
    if a.len() == 0 {
        assert(a + b =~= b);
        assert(Seq::<u32>::empty() + leaves_of_all(b) =~= leaves_of_all(b));
    } else {
        assert((a + b).skip(1) =~= a.skip(1) + b);
        lemma_leaves_of_all_concat(a.skip(1), b);
        assert(leaves_of_all(a + b) =~= leaves_of_all(a) + leaves_of_all(b));
    }
}

proof fn lemma_tiled_rows(indexes: Seq<u32>, columns: int)
    requires
        columns >= 1,
    ensures
        leaves_of_all(tiled_rows(indexes, columns)) == indexes,
        all_wf(tiled_rows(indexes, columns)),
        (tiled_rows(indexes, columns).len() > 0) == (indexes.len() > 0),
    decreases indexes.len(),
{
    if indexes.len() == 0 {
        assert(indexes =~= Seq::<u32>::empty());
        assert(tiled_rows(indexes, columns) =~= Seq::<PaneLayout>::empty());
    } else if indexes.len() <= columns {
        lemma_even_some(indexes, SplitDirection::Horizontal);
        let row = even_spec(indexes, SplitDirection::Horizontal).unwrap();
        let rows = tiled_rows(indexes, columns);
        assert(rows =~= seq![row]);
        assert(seq![row][0] == row);
        assert(leaves_of_all(Seq::<PaneLayout>::empty()) == Seq::<u32>::empty());
        assert(rows.skip(1) =~= Seq::<PaneLayout>::empty());
        assert(row.leaves() + Seq::<u32>::empty() =~= indexes);
    } else {
        lemma_even_some(indexes.take(columns), SplitDirection::Horizontal);
        lemma_tiled_rows(indexes.skip(columns), columns);
        let row = even_spec(indexes.take(columns), SplitDirection::Horizontal).unwrap();
        let rest = tiled_rows(indexes.skip(columns), columns);
        lemma_leaves_of_all_concat(seq![row], rest);
        assert(seq![row].skip(1) =~= Seq::<PaneLayout>::empty());
        assert(seq![row][0] == row);
        assert(leaves_of_all(Seq::<PaneLayout>::empty()) == Seq::<u32>::empty());
        assert(leaves_of_all(seq![row]) =~= row.leaves());
        assert(indexes.take(columns) + indexes.skip(columns) =~= indexes);
        let rows = tiled_rows(indexes, columns);
        assert forall|k: int| 0 <= k < rows.len() implies (#[trigger] rows[k]).wf() by {
            if k > 0 {
                assert(rows[k] == rest[k - 1]);
            }
        }
    }
}

/// Every preset keeps exactly the given panes, in the given order, and is
/// available exactly when there is at least one pane.
pub proof fn lemma_preset_leaves(indexes: Seq<u32>, preset: PaneLayoutPreset, columns: int)
    requires
        is_tiled_columns(indexes.len() as int, columns),
    ensures
        (preset_spec(indexes, preset, columns) is Some) == (indexes.len() > 0),
        preset_spec(indexes, preset, columns) matches Some(l) ==> l.leaves() == indexes && l.wf(),
{
    match preset {
        PaneLayoutPreset::EvenHorizontal => {
            lemma_even_some(indexes, SplitDirection::Horizontal);
            assert(preset_spec(indexes, preset, columns) == even_spec(indexes, SplitDirection::Horizontal));
            assert(preset_spec(indexes, preset, columns) matches Some(l) ==> l.leaves() == indexes && l.wf());
        },
        PaneLayoutPreset::EvenVertical => {
            lemma_even_some(indexes, SplitDirection::Vertical);
            assert(preset_spec(indexes, preset, columns) == even_spec(indexes, SplitDirection::Vertical));
            assert(preset_spec(indexes, preset, columns) matches Some(l) ==> l.leaves() == indexes && l.wf());
        },
        PaneLayoutPreset::MainHorizontal => {
            lemma_even_some(indexes.skip(1), SplitDirection::Horizontal);
            if indexes.len() > 1 {
                let l = main_spec(indexes, SplitDirection::Vertical, SplitDirection::Horizontal).unwrap();
                assert(PaneLayout::Pane(indexes[0]).leaves() == seq![indexes[0]]);
                assert(PaneLayout::Pane(indexes[0]).wf());
                assert(l.leaves() =~= indexes);
            } else if indexes.len() == 1 {
                assert(PaneLayout::Pane(indexes[0]).leaves() =~= indexes);
                assert(PaneLayout::Pane(indexes[0]).wf());
            }
            assert(preset_spec(indexes, preset, columns) matches Some(l) ==> l.leaves() == indexes && l.wf());
        },
        PaneLayoutPreset::MainVertical => {
            lemma_even_some(indexes.skip(1), SplitDirection::Vertical);
            if indexes.len() > 1 {
                let l = main_spec(indexes, SplitDirection::Horizontal, SplitDirection::Vertical).unwrap();
                assert(PaneLayout::Pane(indexes[0]).leaves() == seq![indexes[0]]);
                assert(PaneLayout::Pane(indexes[0]).wf());
                assert(l.leaves() =~= indexes);
            } else if indexes.len() == 1 {
                assert(PaneLayout::Pane(indexes[0]).leaves() =~= indexes);
                assert(PaneLayout::Pane(indexes[0]).wf());
            }
            assert(preset_spec(indexes, preset, columns) matches Some(l) ==> l.leaves() == indexes && l.wf());
        },
        PaneLayoutPreset::Tiled => {
            lemma_tiled_rows(indexes, columns);
            lemma_combine_some(tiled_rows(indexes, columns), SplitDirection::Vertical);
        },
    }
}

impl PaneLayout {
    /// The layout `preset` gives the panes `indexes` (`None` when there are none).
    pub fn from_preset(indexes: &[u32], preset: PaneLayoutPreset) -> (r: Option<PaneLayout>)
        ensures
            exists|c: int| is_tiled_columns(indexes@.len() as int, c) && r == preset_spec(
                indexes@,
                preset,
                c,
            ),
            (r is Some) == (indexes@.len() > 0),
            r matches Some(l) ==> l.leaves() == indexes@ && l.wf(),
    {
        let columns = tiled_columns(indexes.len());
        let r = match preset {
            PaneLayoutPreset::EvenHorizontal => even_layout(indexes, SplitDirection::Horizontal),
            PaneLayoutPreset::EvenVertical => even_layout(indexes, SplitDirection::Vertical),
            PaneLayoutPreset::MainHorizontal => main_layout(
                indexes,
                SplitDirection::Vertical,
                SplitDirection::Horizontal,
            ),
            PaneLayoutPreset::MainVertical => main_layout(
                indexes,
                SplitDirection::Horizontal,
                SplitDirection::Vertical,
            ),
            PaneLayoutPreset::Tiled => tiled_layout(indexes),
        };
        proof {
            let c = if preset == PaneLayoutPreset::Tiled {
                choose|c: int| is_tiled_columns(indexes@.len() as int, c) && r == tiled_spec(
                    indexes@,
                    c,
                )
            } else {
                columns as int
            };
            assert(is_tiled_columns(indexes@.len() as int, c) && r == preset_spec(indexes@, preset, c));
            lemma_preset_leaves(indexes@, preset, c);
        }
        r
    }
}

} // verus!
