//! The find-window prompt of an attached client: which window a query
//! picks, and what each key does to the prompt.
use vstd::prelude::*;

use crate::attach_keys::{is_key_press, is_press, KeyInput};
use crate::attach_prompt::{edit_prompt, edit_prompt_spec, PromptAction};
use crate::text::{
    chars_of, concat2, contains_chars, contains_seq, decimal, decimal_string, str_eq, string_of,
    trim, trim_chars, views,
};

verus! {

/// `str::to_lowercase` of the characters `s`: Unicode lower-case mapping.
pub uninterp spec fn lowercase(s: Seq<char>) -> Seq<char>;

/// Lower-cases a string: calls `str::to_lowercase`, which the
/// documentation defines by the Unicode lower-case mapping of each
/// character. The contract only names its result, `lowercase` of the
/// characters, which depends on them alone.
#[verifier::external_body]
fn to_lowercase(s: &str) -> (r: String)
    ensures
        r@ == lowercase(s@),
{
    s.to_lowercase()
}

/// Whether the window at `position` matches the (lower-cased) query: its
/// number spelled out equals it, or its lower-cased name contains it.
pub open spec fn window_matches(indexes: Seq<u32>, lowered_names: Seq<Seq<char>>, query: Seq<char>, position: int) -> bool {
    decimal(indexes[position] as nat) == query || (position < lowered_names.len() && contains_seq(
        lowered_names[position],
        query,
    ))
}

/// The first matching position, trying `start + offset` (wrapping) for
/// `offset` from `offset` up to the number of windows.
pub open spec fn find_match_from(
    indexes: Seq<u32>,
    lowered_names: Seq<Seq<char>>,
    query: Seq<char>,
    start: int,
    offset: int,
) -> Option<int>
    decreases indexes.len() + 1 - offset,
{
    if offset < 1 || offset > indexes.len() {
        None
    } else {
        let p = (start + offset) % (indexes.len() as int);
        if window_matches(indexes, lowered_names, query, p) {
            Some(p)
        } else {
            find_match_from(indexes, lowered_names, query, start, offset + 1)
        }
    }
}

/// Position of the active window, or the last position when it is absent.
pub open spec fn active_position(active: u32, indexes: Seq<u32>) -> int {
    if exists|k: int| 0 <= k < indexes.len() && indexes[k] == active {
        choose|k: int| 0 <= k < indexes.len() && indexes[k] == active && forall|j: int| 0 <= j < k ==> indexes[j] != active
    } else {
        indexes.len() - 1
    }
}

/// The window a query selects: the first match after the active window,
/// going round.
pub open spec fn matching_window_spec(
    active: u32,
    indexes: Seq<u32>,
    lowered_names: Seq<Seq<char>>,
    query: Seq<char>,
) -> Option<u32> {
    if indexes.len() == 0 {
        None
    } else {
        match find_match_from(indexes, lowered_names, query, active_position(active, indexes), 1) {
            Some(p) => Some(indexes[p]),
            None => None,
        }
    }
}

/// The window a lower-cased query selects among windows whose names are
/// already lower-cased.
pub fn matching_window_lowered(
    active: u32,
    indexes: &[u32],
    lowered_names: &[String],
    query: &str,
) -> (r: Option<u32>)
    ensures
        r == matching_window_spec(active, indexes@, views(lowered_names@), query@),
{
    let n = indexes.len();
    if n == 0 {
        return None;
    }
    let ghost names = views(lowered_names@);
    let mut k: usize = 0;
    while k < n && indexes[k] != active
        invariant
            k <= n,
            n == indexes@.len(),
            forall|j: int| 0 <= j < k ==> indexes@[j] != active,
        decreases n - k,
    {
        k += 1;
    }
    let start: usize = if k < n {
        k
    } else {
        n - 1
    };
    proof {
        if k < n {
            let c = choose|c: int| 0 <= c < indexes@.len() && indexes@[c] == active && forall|j: int| 0 <= j < c ==> indexes@[j] != active;
            assert(0 <= k < n && indexes@[k as int] == active && forall|j: int| 0 <= j < k ==> indexes@[j] != active);
            if c < k {
                assert(indexes@[c] != active);
            } else if c > k {
                assert(indexes@[k as int] != active);
            }
        } else {
            assert forall|c: int| 0 <= c < indexes@.len() implies indexes@[c] != active by {}
        }
        assert(start == active_position(active, indexes@));
    }
    let q = chars_of(query);
    let mut c: usize = 0;
    while c < n
        invariant
            c <= n,
            n == indexes@.len(),
            n > 0,
            start < n,
            start as int == active_position(active, indexes@),
            q@ == query@,
            names == views(lowered_names@),
            find_match_from(indexes@, names, query@, start as int, 1) == find_match_from(
                indexes@,
                names,
                query@,
                start as int,
                c + 1,
            ),
        decreases n - c,
    {
        let offset = c + 1;
        let p: usize = if offset >= n - start {
            start - (n - offset)
        } else {
            start + offset
        };
        proof {
            let sum: int = start + offset;
            if sum < n {
                assert(sum % (n as int) == sum) by (nonlinear_arith)
                    requires 0 <= sum < n;
            } else {
                assert(sum % (n as int) == sum - n) by (nonlinear_arith)
                    requires n <= sum < 2 * n;
            }
            assert(p as int == (start + offset) % (n as int));
        }
        let spelled = decimal_string(indexes[p] as u64);
        let by_number = str_eq(spelled.as_str(), query);
        let by_name = if p < lowered_names.len() {
            let hay = chars_of(lowered_names[p].as_str());
            proof {
                assert(names[p as int] == hay@);
            }
            contains_chars(&hay, &q)
        } else {
            false
        };
        proof {
            assert(window_matches(indexes@, names, query@, p as int) == (by_number || by_name));
        }
        if by_number || by_name {
            assert(find_match_from(indexes@, names, query@, start as int, c + 1) == Some(p as int));
            return Some(indexes[p]);
        }
        c += 1;
    }
    None
}

/// The window a query selects, comparing case-insensitively.
pub fn matching_window(active: u32, indexes: &[u32], names: &[String], query: &str) -> (r: Option<u32>)
    ensures
        r == matching_window_spec(
            active,
            indexes@,
            views(names@).map_values(|n: Seq<char>| lowercase(n)),
            lowercase(query@),
        ),
{
    let lowered_query = to_lowercase(query);
    let mut lowered: Vec<String> = Vec::new();
    let mut i: usize = 0;
    while i < names.len()
        invariant
            i <= names@.len(),
            views(lowered@) == views(names@).take(i as int).map_values(|n: Seq<char>| lowercase(n)),
        decreases names@.len() - i,
    {
        let l = to_lowercase(names[i].as_str());
        let ghost before = lowered@;
        lowered.push(l);
        proof {
            assert(views(lowered@) =~= views(before).push(l@));
            assert(views(names@).take(i + 1).map_values(|n: Seq<char>| lowercase(n)) =~= views(names@).take(
                i as int,
            ).map_values(|n: Seq<char>| lowercase(n)).push(lowercase(names@[i as int]@)));
        }
        i += 1;
    }
    proof {
        assert(views(names@).take(i as int) =~= views(names@));
    }
    matching_window_lowered(active, indexes, &lowered, lowered_query.as_str())
}

/// What a find-window key did.
#[derive(Clone, Copy, Debug, PartialEq, Eq, Structural)]
pub enum FindWindowResult {
    Inactive,
    Handled,
    Selected(u32),
}

/// What the client does after a key reached the find-window prompt.
pub enum FindStep {
    /// The prompt is closed; the key goes on to normal handling, after
    /// the current status is shown again when `refresh` is set.
    Inactive { refresh: bool },
    /// Handled; show this status text.
    Render(String),
    /// Handled; show the current status again.
    RenderCurrent,
    /// Search the windows for this query, then call `finish`.
    Search(String),
}

/// The find-window prompt: its text while open, and the message left
/// after a search that found nothing.
pub struct FindWindowState {
    pub input: Option<String>,
    pub message: Option<String>,
}

/// The status line while the prompt is open.
pub open spec fn find_prompt_spec(input: Seq<char>) -> Seq<char> {
    "tmux find | "@ + input
}

/// The message after a search that found nothing.
pub open spec fn find_no_match_spec(query: Seq<char>) -> Seq<char> {
    "未找到匹配的窗口："@ + query
}

pub fn find_prompt_hint(input: &str) -> (r: String)
    ensures
        r@ == find_prompt_spec(input@),
{
    concat2("tmux find | ", input)
}

impl FindWindowState {
    pub fn new() -> (r: FindWindowState)
        ensures
            r.input is None,
            r.message is None,
    {
        FindWindowState { input: None, message: None }
    }

    /// Opens the prompt with empty text; gives the status line to show.
    pub fn begin(&mut self) -> (r: String)
        ensures
            final(self).input matches Some(i) && i@.len() == 0,
            final(self).message is None,
            r@ == find_prompt_spec(Seq::empty()),
    {
        self.message = None;
        let empty = String::new();
        let r = find_prompt_hint(empty.as_str());
        self.input = Some(empty);
        r
    }

    pub fn is_active(&self) -> (r: bool)
        ensures
            r == self.input is Some,
    {
        self.input.is_some()
    }

    /// The status line the prompt wants shown, if any.
    pub fn status_override(&self) -> (r: Option<String>)
        ensures
            match self.input {
                Some(i) => r matches Some(s) && s@ == find_prompt_spec(i@),
                None => match self.message {
                    Some(m) => r matches Some(s) && s@ == m@,
                    None => r is None,
                },
            },
    {
        match &self.input {
            Some(i) => Some(find_prompt_hint(i.as_str())),
            None => match &self.message {
                Some(m) => Some(m.clone()),
                None => None,
            },
        }
    }

    /// Applies a key to the prompt.
    pub fn handle_key(&mut self, key: &KeyInput) -> (r: FindStep)
        ensures
            !is_press(*key) ==> *final(self) == *old(self) && (r matches FindStep::Inactive { refresh } && !refresh),
            is_press(*key) && old(self).input is None ==> final(self).input is None && final(self).message is None
                && (r matches FindStep::Inactive { refresh } && refresh == old(self).message is Some),
            is_press(*key) && old(self).input is Some ==> {
                let (text, action) = edit_prompt_spec(*key, old(self).input.unwrap()@);
                match action {
                    None => (final(self).input matches Some(i) && i@ == text) && (r matches FindStep::Render(s)
                        && s@ == find_prompt_spec(text)),
                    Some(None) => final(self).input is None && r is RenderCurrent,
                    Some(Some(q)) => final(self).input is None && (if trim(q).len() == 0 {
                        r is RenderCurrent
                    } else {
                        r matches FindStep::Search(s) && s@ == trim(q)
                    }),
                }
            },
    {
        if !is_key_press(key) {
            return FindStep::Inactive { refresh: false };
        }
        let mut input = match self.input.take() {
            Some(i) => i,
            None => {
                let had = self.message.is_some();
                self.message = None;
                return FindStep::Inactive { refresh: had };
            },
        };
        match edit_prompt(key, &mut input) {
            PromptAction::Editing => {
                let s = find_prompt_hint(input.as_str());
                self.input = Some(input);
                FindStep::Render(s)
            },
            PromptAction::Cancel => FindStep::RenderCurrent,
            PromptAction::Execute(query) => {
                let t = trim_chars(&chars_of(query.as_str()));
                if t.len() == 0 {
                    FindStep::RenderCurrent
                } else {
                    FindStep::Search(string_of(&t))
                }
            },
        }
    }

    /// Ends a search: the window to select, or the message to show when
    /// nothing matched.
    pub fn finish(&mut self, active: u32, indexes: &[u32], names: &[String], query: &str) -> (r: Result<
        (u32, FindWindowResult),
        String,
    >)
        ensures
            match matching_window_spec(
                active,
                indexes@,
                views(names@).map_values(|n: Seq<char>| lowercase(n)),
                lowercase(query@),
            ) {
                Some(index) => r == Ok::<(u32, FindWindowResult), String>(
                    (index, if index == active { FindWindowResult::Handled } else { FindWindowResult::Selected(active) }),
                ) && final(self).message == old(self).message,
                None => r matches Err(m) && m@ == find_no_match_spec(query@) && (final(self).message matches Some(
                    x,
                ) && x@ == m@),
            },
            final(self).input == old(self).input,
    {
        match matching_window(active, indexes, names, query) {
            Some(index) => Ok(
                (index, if index == active { FindWindowResult::Handled } else { FindWindowResult::Selected(active) }),
            ),
            None => {
                let m = concat2("未找到匹配的窗口：", query);
                self.message = Some(m.clone());
                Err(m)
            },
        }
    }
}

} // verus!
