//! The window list shown on the status line, and which window a column of
//! it belongs to.
use vstd::prelude::*;

use crate::attach_mouse::{clipped_end, clipped_end_spec, width16};
use crate::attach_status::{window_label, window_label_spec};
use crate::display_width::text_width;
use crate::text::{chars_of, concat2, join_strings, join_with, occurs_at, string_of, views};

verus! {

/// Where one window label lies on the status line: columns
/// `start..end`.
#[derive(Clone, Copy, Debug, PartialEq, Eq, Structural)]
pub struct TmuxWindowListHit {
    pub index: u32,
    pub start: u16,
    pub end: u16,
}

/// The window labels of a shown window list.
pub struct TmuxWindowListLayout {
    pub hits: Vec<TmuxWindowListHit>,
}

/// The first hit covering `column`, from position `k` on.
pub open spec fn hit_at(hits: Seq<TmuxWindowListHit>, column: u16, k: int) -> Option<u32>
    decreases hits.len() - k,
{
    if k < 0 || k >= hits.len() {
        None
    } else if hits[k].start <= column && column < hits[k].end {
        Some(hits[k].index)
    } else {
        hit_at(hits, column, k + 1)
    }
}

impl TmuxWindowListLayout {
    /// The window whose label covers `column`.
    pub fn window_at(&self, column: u16) -> (r: Option<u32>)
        ensures
            r == hit_at(self.hits@, column, 0),
    {
        let mut k: usize = 0;
        while k < self.hits.len()
            invariant
                k <= self.hits@.len(),
                hit_at(self.hits@, column, 0) == hit_at(self.hits@, column, k as int),
            decreases self.hits@.len() - k,
        {
            let h = self.hits[k];
            if h.start <= column && column < h.end {
                return Some(h.index);
            }
            k += 1;
        }
        None
    }
}

/// The first position from `i` on where `needle` occurs in `hay`.
pub open spec fn find_from(hay: Seq<char>, needle: Seq<char>, i: int) -> Option<int>
    decreases hay.len() + 1 - i,
{
    if i < 0 || i + needle.len() > hay.len() {
        None
    } else if occurs_at(hay, needle, i) {
        Some(i)
    } else {
        find_from(hay, needle, i + 1)
    }
}

fn find_chars_from(hay: &Vec<char>, needle: &Vec<char>, from: usize) -> (r: Option<usize>)
    requires
        from <= hay@.len(),
    ensures
        match r {
            Some(p) => find_from(hay@, needle@, from as int) == Some(p as int) && p + needle@.len() <= hay@.len(),
            None => find_from(hay@, needle@, from as int) is None,
        },
{
    let hl = hay.len();
    let nl = needle.len();
    if nl > hl {
        return None;
    }
    let mut i = from;
    while i <= hl - nl
        invariant
            from <= i,
            hl == hay@.len(),
            nl == needle@.len(),
            nl <= hl,
            find_from(hay@, needle@, from as int) == find_from(hay@, needle@, i as int),
        decreases hay@.len() - i,
    {
        let mut j: usize = 0;
        let mut ok = true;
        while j < needle.len()
            invariant
                j <= needle@.len(),
                hl == hay@.len(),
                nl == needle@.len(),
                i + needle@.len() <= hay@.len(),
                ok == (forall|t: int| 0 <= t < j ==> hay@[i + t] == needle@[t]),
            decreases needle@.len() - j,
        {
            if hay[i + j] != needle[j] {
                ok = false;
            }
            j += 1;
        }
        assert(ok == occurs_at(hay@, needle@, i as int)) by {
            if ok {
                assert(hay@.subrange(i as int, i + needle@.len()) =~= needle@);
            } else {
                let t = choose|t: int| 0 <= t < j && hay@[i + t] != needle@[t];
                assert(hay@.subrange(i as int, i + needle@.len())[t] != needle@[t]);
            }
        }
        if ok {
            return Some(i);
        }
        i += 1;
    }
    None
}

/// The hits of the labels `labels[..k]` placed on `status`, and where the
/// search for the next label starts.
pub open spec fn layout_state(
    status: Seq<char>,
    labels: Seq<(u32, Seq<char>)>,
    max_width: Option<u16>,
    k: int,
) -> (Seq<TmuxWindowListHit>, int)
    decreases k,
{
    if k <= 0 {
        (Seq::empty(), 0)
    } else {
        let (hits, search) = layout_state(status, labels, max_width, k - 1);
        let (index, label) = labels[k - 1];
        match find_from(status, label, search) {
            None => (hits, search),
            Some(p) => {
                let start = width16(status.take(p));
                let end = clipped_end_spec(start, width16(label), max_width);
                let next = p + label.len();
                if start < end {
                    (hits.push(TmuxWindowListHit { index, start: start as u16, end: end as u16 }), next)
                } else {
                    (hits, next)
                }
            },
        }
    }
}

/// Places each label on the status line, searching for it after the
/// previous one.
pub fn layout_window_labels(status: &str, labels: &[(u32, String)], max_width: Option<u16>) -> (r: TmuxWindowListLayout)
    ensures
        r.hits@ == layout_state(
            status@,
            labels@.map_values(|l: (u32, String)| (l.0, l.1@)),
            max_width,
            labels@.len() as int,
        ).0,
{
    let ghost ls = labels@.map_values(|l: (u32, String)| (l.0, l.1@));
    let cs = chars_of(status);
    let mut hits: Vec<TmuxWindowListHit> = Vec::new();
    let mut search: usize = 0;
    let mut k: usize = 0;
    while k < labels.len()
        invariant
            k <= labels@.len(),
            cs@ == status@,
            ls == labels@.map_values(|l: (u32, String)| (l.0, l.1@)),
            search <= cs@.len(),
            layout_state(status@, ls, max_width, k as int) == (hits@, search as int),
        decreases labels@.len() - k,
    {
        let index = labels[k].0;
        let label = chars_of(labels[k].1.as_str());
        assert(ls[k as int] == (index, label@));
        match find_chars_from(&cs, &label, search) {
            None => {},
            Some(p) => {
                let prefix = string_of(&crate::text::slice_chars(&cs, 0, p));
                assert(prefix@ =~= cs@.take(p as int));
                let start = text_width(prefix.as_str());
                let width = text_width(labels[k].1.as_str());
                let end = clipped_end(start, width, max_width);
                if start < end {
                    hits.push(TmuxWindowListHit { index, start, end });
                }
                let n = cs.len();
                assert(p + label@.len() <= n);
                search = p + label.len();
            },
        }
        k += 1;
    }
    TmuxWindowListLayout { hits }
}

/// The label of a window in the window list, `window` standing for a
/// missing name.
pub fn format_window(index: u32, active_window: u32, name: Option<&String>) -> (r: String)
    ensures
        r@ == window_label_spec(index, active_window, match name {
            Some(n) => n@,
            None => "window"@,
        }),
{
    match name {
        Some(n) => window_label(index, active_window, n.as_str()),
        None => window_label(index, active_window, "window"),
    }
}

/// The window list line and where each label lies on it.
pub fn format_window_list_status(
    active_window: u32,
    indexes: &[u32],
    names: &[String],
    max_width: Option<u16>,
) -> (r: (String, TmuxWindowListLayout))
    ensures
        r.0@ == "tmux 窗口 | "@ + join_with(
            crate::attach_status::window_labels_spec(active_window, indexes@, views(names@), "window"@),
            " "@,
        ),
{
    let mut labels: Vec<(u32, String)> = Vec::new();
    let mut texts: Vec<String> = Vec::new();
    let mut k: usize = 0;
    while k < indexes.len()
        invariant
            k <= indexes@.len(),
            views(texts@) == crate::attach_status::window_labels_spec(active_window, indexes@, views(names@), "window"@).take(
                k as int,
            ),
        decreases indexes@.len() - k,
    {
        let label = if k < names.len() {
            format_window(indexes[k], active_window, Some(&names[k]))
        } else {
            format_window(indexes[k], active_window, None)
        };
        let ghost before = texts@;
        texts.push(label.clone());
        labels.push((indexes[k], label));
        proof {
            assert(views(texts@) =~= views(before).push(texts@[k as int]@));
            assert(crate::attach_status::window_labels_spec(active_window, indexes@, views(names@), "window"@).take(
                k + 1,
            ) =~= crate::attach_status::window_labels_spec(active_window, indexes@, views(names@), "window"@).take(
                k as int,
            ).push(texts@[k as int]@));
        }
        k += 1;
    }
    proof {
        assert(crate::attach_status::window_labels_spec(active_window, indexes@, views(names@), "window"@).take(
            k as int,
        ) =~= crate::attach_status::window_labels_spec(active_window, indexes@, views(names@), "window"@));
    }
    let windows = join_strings(&texts, " ");
    let status = concat2("tmux 窗口 | ", windows.as_str());
    let layout = layout_window_labels(status.as_str(), &labels, max_width);
    (status, layout)
}

} // verus!
