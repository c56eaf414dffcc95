//! Copy mode: a cursor moving over the recent output of a pane, a
//! selection between an anchor and the cursor, and the text it copies.
use vstd::prelude::*;

use crate::attach_keys::{is_key_press, is_press, KeyCode, KeyInput};
use crate::display_width::{char_width, fit_prefix, fit_spec, fit_to_width};
use crate::text::{decimal, extend_bytes, push_char, push_decimal, push_str};
use vstd::string::StringSliceAdditionalSpecFns;

verus! {

/// How copy mode ended, or that it goes on.
pub enum TmuxCopyResult {
    Continue,
    Cancel,
    Copy(Vec<u8>),
}

/// A mouse button.
#[derive(Clone, Copy, Debug, PartialEq, Eq, Structural)]
pub enum MouseButton {
    Left,
    Right,
    Middle,
}

/// What a mouse event reports.
#[derive(Clone, Copy, Debug, PartialEq, Eq, Structural)]
pub enum MouseKind {
    Down(MouseButton),
    Up(MouseButton),
    Drag(MouseButton),
    Moved,
    ScrollUp,
    ScrollDown,
    ScrollLeft,
    ScrollRight,
}

#[derive(Clone, Copy, Debug, PartialEq, Eq, Structural)]
pub struct MouseInput {
    pub kind: MouseKind,
    pub column: u16,
    pub row: u16,
}

/// Copy mode over `lines`, shown in a `cols` x `rows` terminal whose last
/// row is the status line.
pub struct TmuxCopyMode {
    pub lines: Vec<Vec<char>>,
    pub top: usize,
    pub cursor_line: usize,
    pub cursor_col: usize,
    pub anchor: Option<(usize, usize)>,
    pub cols: u16,
    pub rows: u16,
}

/// `(line, col)` positions in reading order.
pub open spec fn pos_le(a: (usize, usize), b: (usize, usize)) -> bool {
    a.0 < b.0 || (a.0 == b.0 && a.1 <= b.1)
}

/// The last line number, 0 when there are no lines.
pub open spec fn last_line(n: nat) -> int {
    if n == 0 { 0 } else { n - 1 }
}

pub open spec fn line_len(lines: Seq<Vec<char>>, i: int) -> int {
    if 0 <= i < lines.len() { lines[i]@.len() as int } else { 0 }
}

pub open spec fn min_int(a: int, b: int) -> int {
    if a <= b { a } else { b }
}

/// The first row shown after scrolling so that the cursor line is
/// visible, keeping the view inside the text.
pub open spec fn visible_top(top: int, cursor: int, data_rows: int, n: nat) -> int {
    let visible = if data_rows < 1 { 1 } else { data_rows };
    let t = if cursor < top {
        cursor
    } else if cursor >= top + visible {
        cursor + 1 - visible
    } else {
        top
    };
    let bound = if n >= visible { n - visible } else { 0 };
    min_int(t, bound)
}

/// The characters from `start` to `end` (both included, in reading
/// order), lines joined by new lines.
pub open spec fn selection_from(lines: Seq<Vec<char>>, start: (usize, usize), end: (usize, usize), i: int) -> Seq<char>
    decreases end.0 + 1 - i,
{
    if i > end.0 {
        Seq::empty()
    } else {
        let rest = selection_from(lines, start, end, i + 1);
        if i >= lines.len() {
            rest
        } else {
            let line = lines[i]@;
            let from: int = if i == start.0 { start.1 as int } else { 0 };
            let to: int = if i == end.0 { end.1 + 1 } else { line.len() as int };
            let a = min_int(from, line.len() as int);
            let b = if to < from { a } else { min_int(to, line.len() as int) };
            let part = line.subrange(a, if b < a { a } else { b });
            if i < end.0 {
                part.push('\n') + rest
            } else {
                part + rest
            }
        }
    }
}

/// The scrolled view shows the cursor line.
proof fn lemma_visible_top(top: int, cursor: int, data_rows: int, n: nat)
    requires
        0 <= top,
        0 <= cursor <= last_line(n),
    ensures
        ({
            let t = visible_top(top, cursor, data_rows, n);
            let visible = if data_rows < 1 { 1 } else { data_rows };
            0 <= t <= cursor < t + visible
        }),
{
}

impl TmuxCopyMode {
    pub open spec fn n(&self) -> nat {
        self.lines@.len()
    }

    pub open spec fn data_rows_spec(&self) -> int {
        if self.rows >= 1 { self.rows - 1 } else { 0 }
    }

    /// The cursor is on a line (or at 0 without lines) and the terminal
    /// has at least two rows.
    pub open spec fn in_text(&self) -> bool {
        &&& self.cursor_line <= last_line(self.n())
        &&& self.cursor_col <= line_len(self.lines@, self.cursor_line as int)
        &&& self.rows >= 2
        &&& self.cols >= 1
        &&& self.lines@.len() < usize::MAX
    }

    /// How many text rows are shown: all but the status row, at least one.
    pub open spec fn visible_rows(&self) -> int {
        if self.data_rows_spec() < 1 { 1 } else { self.data_rows_spec() }
    }

    /// The cursor is in the text and on a shown row.
    pub open spec fn wf(&self) -> bool {
        &&& self.in_text()
        &&& self.top <= self.cursor_line
        &&& self.cursor_line < self.top + self.visible_rows()
    }

    /// The selected characters, lines joined by new lines; the anchor and
    /// the cursor cell are both included.
    pub open spec fn selected_spec(&self) -> Seq<char> {
        selection_from(self.lines@, self.selection_ends().0, self.selection_ends().1, self.selection_ends().0.0 as int)
    }

    /// The line `delta` lines from the cursor, kept inside the text.
    pub open spec fn line_moved(&self, delta: int) -> int {
        min_int(
            if self.cursor_line + delta < 0 {
                0
            } else if self.cursor_line + delta > usize::MAX {
                usize::MAX as int
            } else {
                self.cursor_line + delta
            },
            last_line(self.n()),
        )
    }

    /// One character left, or to the end of the line above.
    pub open spec fn left_of(&self) -> (int, int) {
        if self.cursor_col > 0 {
            (self.cursor_line as int, self.cursor_col - 1)
        } else if self.cursor_line > 0 {
            (self.cursor_line - 1, line_len(self.lines@, self.cursor_line - 1))
        } else {
            (self.cursor_line as int, self.cursor_col as int)
        }
    }

    /// One character right, or to the start of the line below.
    pub open spec fn right_of(&self) -> (int, int) {
        if self.cursor_col < line_len(self.lines@, self.cursor_line as int) {
            (self.cursor_line as int, self.cursor_col + 1)
        } else if self.cursor_line + 1 < self.n() {
            (self.cursor_line + 1, 0)
        } else {
            (self.cursor_line as int, self.cursor_col as int)
        }
    }

    /// Where a key sends the cursor: arrows and `h j k l` by one, page
    /// keys by a screen, Home/`0` and End/`$` to the ends of the line,
    /// `g` and `G` to the first and last line; other keys leave it.
    pub open spec fn key_target(&self, key: KeyInput) -> (int, int) {
        let col = self.cursor_col as int;
        match key.code {
            KeyCode::Up => (self.line_moved(-1), col),
            KeyCode::Down => (self.line_moved(1), col),
            KeyCode::Left => self.left_of(),
            KeyCode::Right => self.right_of(),
            KeyCode::PageUp => (self.line_moved(-self.data_rows_spec()), col),
            KeyCode::PageDown => (self.line_moved(self.data_rows_spec()), col),
            KeyCode::Home => (self.cursor_line as int, 0),
            KeyCode::End => (self.cursor_line as int, line_len(self.lines@, self.cursor_line as int)),
            KeyCode::Char(c) => if c == 'k' {
                (self.line_moved(-1), col)
            } else if c == 'j' {
                (self.line_moved(1), col)
            } else if c == 'h' {
                self.left_of()
            } else if c == 'l' {
                self.right_of()
            } else if c == '0' {
                (self.cursor_line as int, 0)
            } else if c == '$' {
                (self.cursor_line as int, line_len(self.lines@, self.cursor_line as int))
            } else if c == 'g' {
                (0, col)
            } else if c == 'G' {
                (last_line(self.n()), col)
            } else {
                (self.cursor_line as int, col)
            },
            _ => (self.cursor_line as int, col),
        }
    }

    /// The selection's ends in reading order.
    pub open spec fn selection_ends(&self) -> ((usize, usize), (usize, usize)) {
        let cursor = (self.cursor_line, self.cursor_col);
        let anchor = match self.anchor {
            Some(a) => a,
            None => cursor,
        };
        if pos_le(anchor, cursor) { (anchor, cursor) } else { (cursor, anchor) }
    }

    /// Copy mode over `lines`, the cursor at the start of the last line.
    pub fn from_lines(lines: Vec<Vec<char>>, cols: u16, rows: u16) -> (r: TmuxCopyMode)
        requires
            lines@.len() < usize::MAX,
        ensures
            r.wf(),
            r.lines@ == lines@,
            r.cols == if cols < 1 { 1 } else { cols },
            r.rows == if rows < 2 { 2 } else { rows },
            r.cursor_line == last_line(lines@.len()),
            r.cursor_col == 0,
            r.anchor is None,
            r.top as int == visible_top(0, r.cursor_line as int, r.data_rows_spec(), lines@.len()),
    {
        let cols = if cols < 1 {
            1
        } else {
            cols
        };
        let rows = if rows < 2 {
            2
        } else {
            rows
        };
        let n = lines.len();
        let cursor_line = if n == 0 {
            0
        } else {
            n - 1
        };
        let mut mode = TmuxCopyMode { lines, top: 0, cursor_line, cursor_col: 0, anchor: None, cols, rows };
        mode.ensure_visible();
        mode
    }

    /// Rows for text: all but the status line.
    pub fn data_rows(&self) -> (r: u16)
        ensures
            r == self.data_rows_spec(),
    {
        if self.rows >= 1 {
            self.rows - 1
        } else {
            0
        }
    }

    /// The number of characters of the cursor line.
    pub fn current_line_len(&self) -> (r: usize)
        ensures
            r == line_len(self.lines@, self.cursor_line as int),
    {
        if self.cursor_line < self.lines.len() {
            self.lines[self.cursor_line].len()
        } else {
            0
        }
    }

    fn last(&self) -> (r: usize)
        ensures
            r == last_line(self.n()),
    {
        if self.lines.len() == 0 {
            0
        } else {
            self.lines.len() - 1
        }
    }

    /// Moves the cursor `delta` lines, staying inside the text.
    fn move_vertical(&mut self, delta: i64)
        ensures
            final(self).cursor_line == min_int(
                if old(self).cursor_line + delta < 0 {
                    0
                } else if old(self).cursor_line + delta > usize::MAX {
                    usize::MAX as int
                } else {
                    old(self).cursor_line + delta
                },
                last_line(old(self).n()),
            ),
            final(self).cursor_col == old(self).cursor_col,
            final(self).lines == old(self).lines,
            final(self).top == old(self).top,
            final(self).anchor == old(self).anchor,
            final(self).cols == old(self).cols,
            final(self).rows == old(self).rows,
    {
        let moved: usize = if delta < 0 {
            let back = (0i64 - (delta + 1)) as u64 + 1;
            if back as u128 > self.cursor_line as u128 {
                0
            } else {
                self.cursor_line - back as usize
            }
        } else {
            let ahead = delta as u64;
            if ahead as u128 > (usize::MAX - self.cursor_line) as u128 {
                usize::MAX
            } else {
                self.cursor_line + ahead as usize
            }
        };
        let last = self.last();
        self.cursor_line = if moved < last {
            moved
        } else {
            last
        };
    }

    /// One character left, or to the end of the line above.
    fn move_left(&mut self)
        requires
            old(self).in_text(),
        ensures
            if old(self).cursor_col > 0 {
                final(self).cursor_col == old(self).cursor_col - 1 && final(self).cursor_line == old(self).cursor_line
            } else if old(self).cursor_line > 0 {
                final(self).cursor_line == old(self).cursor_line - 1 && final(self).cursor_col == line_len(
                    old(self).lines@,
                    old(self).cursor_line - 1,
                )
            } else {
                final(self).cursor_line == old(self).cursor_line && final(self).cursor_col == old(self).cursor_col
            },
            final(self).lines == old(self).lines,
            final(self).top == old(self).top,
            final(self).anchor == old(self).anchor,
            final(self).cols == old(self).cols,
            final(self).rows == old(self).rows,
            final(self).in_text(),
    {
        if self.cursor_col > 0 {
            self.cursor_col -= 1;
        } else if self.cursor_line > 0 {
            self.cursor_line -= 1;
            self.cursor_col = self.current_line_len();
        }
    }

    /// One character right, or to the start of the line below.
    fn move_right(&mut self)
        requires
            old(self).in_text(),
        ensures
            if old(self).cursor_col < line_len(old(self).lines@, old(self).cursor_line as int) {
                final(self).cursor_col == old(self).cursor_col + 1 && final(self).cursor_line == old(self).cursor_line
            } else if old(self).cursor_line + 1 < old(self).n() {
                final(self).cursor_line == old(self).cursor_line + 1 && final(self).cursor_col == 0
            } else {
                final(self).cursor_line == old(self).cursor_line && final(self).cursor_col == old(self).cursor_col
            },
            final(self).lines == old(self).lines,
            final(self).top == old(self).top,
            final(self).anchor == old(self).anchor,
            final(self).cols == old(self).cols,
            final(self).rows == old(self).rows,
            final(self).in_text(),
    {
        if self.cursor_col < self.current_line_len() {
            self.cursor_col += 1;
        } else if self.cursor_line + 1 < self.lines.len() {
            self.cursor_line += 1;
            self.cursor_col = 0;
        }
    }

    /// Brings the cursor back inside the text.
    fn clamp_cursor(&mut self)
        ensures
            final(self).cursor_line == min_int(old(self).cursor_line as int, last_line(old(self).n())),
            final(self).cursor_col == min_int(
                old(self).cursor_col as int,
                line_len(old(self).lines@, final(self).cursor_line as int),
            ),
            final(self).lines == old(self).lines,
            final(self).top == old(self).top,
            final(self).anchor == old(self).anchor,
            final(self).cols == old(self).cols,
            final(self).rows == old(self).rows,
    {
        let last = self.last();
        if self.cursor_line > last {
            self.cursor_line = last;
        }
        let len = self.current_line_len();
        if self.cursor_col > len {
            self.cursor_col = len;
        }
    }

    /// Scrolls so that the cursor line is shown.
    fn ensure_visible(&mut self)
        ensures
            old(self).in_text() ==> final(self).wf(),
            final(self).top as int == visible_top(
                old(self).top as int,
                old(self).cursor_line as int,
                old(self).data_rows_spec(),
                old(self).n(),
            ),
            final(self).cursor_line == old(self).cursor_line,
            final(self).cursor_col == old(self).cursor_col,
            final(self).lines == old(self).lines,
            final(self).anchor == old(self).anchor,
            final(self).cols == old(self).cols,
            final(self).rows == old(self).rows,
    {
        let rows = self.data_rows() as usize;
        let visible: usize = if rows < 1 {
            1
        } else {
            rows
        };
        let mut top = self.top;
        if self.cursor_line < top {
            top = self.cursor_line;
        } else if self.cursor_line as u128 >= top as u128 + visible as u128 {
            top = self.cursor_line - visible + 1;
        }
        let n = self.lines.len();
        let bound = if n >= visible {
            n - visible
        } else {
            0
        };
        self.top = if top < bound {
            top
        } else {
            bound
        };
        proof {
            if old(self).in_text() {
                lemma_visible_top(old(self).top as int, self.cursor_line as int, self.data_rows_spec(), self.n());
            }
        }
    }

    /// A new terminal size.
    pub fn resize(&mut self, cols: u16, rows: u16)
        requires
            old(self).wf(),
        ensures
            final(self).wf(),
            final(self).cols == if cols < 1 { 1 } else { cols },
            final(self).rows == if rows < 2 { 2 } else { rows },
            final(self).cursor_line == old(self).cursor_line,
            final(self).cursor_col == old(self).cursor_col,
            final(self).lines == old(self).lines,
            final(self).anchor == old(self).anchor,
            final(self).top as int == visible_top(
                old(self).top as int,
                old(self).cursor_line as int,
                final(self).data_rows_spec(),
                old(self).n(),
            ),
    {
        self.cols = if cols < 1 {
            1
        } else {
            cols
        };
        self.rows = if rows < 2 {
            2
        } else {
            rows
        };
        self.ensure_visible();
    }

    /// Whether `(line, col)` lies in the selection.
    pub fn is_selected(&self, line: usize, col: usize) -> (r: bool)
        ensures
            r == (self.anchor is Some && pos_le(self.selection_ends().0, (line, col)) && pos_le(
                (line, col),
                self.selection_ends().1,
            )),
    {
        let anchor = match self.anchor {
            Some(a) => a,
            None => return false,
        };
        let cursor = (self.cursor_line, self.cursor_col);
        let le = anchor.0 < cursor.0 || (anchor.0 == cursor.0 && anchor.1 <= cursor.1);
        let (start, end) = if le {
            (anchor, cursor)
        } else {
            (cursor, anchor)
        };
        let after_start = start.0 < line || (start.0 == line && start.1 <= col);
        let before_end = line < end.0 || (line == end.0 && col <= end.1);
        after_start && before_end
    }

    /// The selected characters, lines joined by new lines.
    pub fn selected_text(&self) -> (r: Vec<char>)
        ensures
            r@ == selection_from(self.lines@, self.selection_ends().0, self.selection_ends().1, self.selection_ends().0.0 as int),
    {
        let cursor = (self.cursor_line, self.cursor_col);
        let anchor = match self.anchor {
            Some(a) => a,
            None => cursor,
        };
        let le = anchor.0 < cursor.0 || (anchor.0 == cursor.0 && anchor.1 <= cursor.1);
        let (start, end) = if le {
            (anchor, cursor)
        } else {
            (cursor, anchor)
        };
        let ghost lines = self.lines@;
        let mut acc: Vec<char> = Vec::new();
        let mut line_index: usize = end.0;
        loop
            invariant_except_break
                acc@ == selection_from(lines, start, end, line_index + 1),
            invariant
                start.0 <= end.0,
                start.0 <= line_index <= end.0,
                lines == self.lines@,
            ensures
                acc@ == selection_from(lines, start, end, start.0 as int),
            decreases line_index,
        {
            let mut piece: Vec<char> = Vec::new();
            if line_index < self.lines.len() {
                let line = &self.lines[line_index];
                let from: usize = if line_index == start.0 {
                    start.1
                } else {
                    0
                };
                let to: usize = if line_index == end.0 {
                    if end.1 == usize::MAX { usize::MAX } else { end.1 + 1 }
                } else {
                    line.len()
                };
                let a = if from < line.len() {
                    from
                } else {
                    line.len()
                };
                let b = if to < from {
                    a
                } else if to < line.len() {
                    to
                } else {
                    line.len()
                };
                let b = if b < a {
                    a
                } else {
                    b
                };
                let mut k = a;
                while k < b
                    invariant
                        a <= k <= b <= line@.len(),
                        piece@ == line@.subrange(a as int, k as int),
                    decreases b - k,
                {
                    piece.push(line[k]);
                    assert(line@.subrange(a as int, k + 1) =~= line@.subrange(a as int, k as int).push(line@[k as int]));
                    k += 1;
                }
                if line_index < end.0 {
                    piece.push('\n');
                }
                let mut k2: usize = 0;
                while k2 < acc.len()
                    invariant
                        k2 <= acc@.len(),
                        a <= b <= line@.len(),
                        piece@ == (if line_index < end.0 {
                            line@.subrange(a as int, b as int).push('\n')
                        } else {
                            line@.subrange(a as int, b as int)
                        }) + acc@.take(k2 as int),
                    decreases acc@.len() - k2,
                {
                    piece.push(acc[k2]);
                    assert(acc@.take(k2 + 1) =~= acc@.take(k2 as int).push(acc@[k2 as int]));
                    k2 += 1;
                }
                assert(acc@.take(acc@.len() as int) =~= acc@);
                proof {
                    if end.1 == usize::MAX && line_index == end.0 {
                        assert(b == line@.len() || b == a);
                    }
                }
                acc = piece;
            }
            proof {
                assert(acc@ == selection_from(lines, start, end, line_index as int));
            }
            if line_index == start.0 {
                break;
            }
            line_index -= 1;
        }
        acc
    }

    /// Handles a key: moves the cursor, sets the anchor, copies or leaves.
    pub fn handle_key(&mut self, key: &KeyInput) -> (r: TmuxCopyResult)
        requires
            old(self).wf(),
        ensures
            final(self).wf(),
            final(self).lines == old(self).lines,
            final(self).cols == old(self).cols,
            final(self).rows == old(self).rows,
            !is_press(*key) ==> r is Continue && *final(self) == *old(self),
            is_press(*key) && (key.code == KeyCode::Esc || key.code == KeyCode::Char('q')) ==> r is Cancel
                && *final(self) == *old(self),
            r is Cancel ==> is_press(*key) && (key.code == KeyCode::Esc || key.code == KeyCode::Char('q')),
            is_press(*key) && (key.code == KeyCode::Enter || key.code == KeyCode::Char(' ')) ==> if old(self).anchor is None {
                r is Continue && final(self).anchor == Some((old(self).cursor_line, old(self).cursor_col))
            } else {
                (r matches TmuxCopyResult::Copy(b) && b@ == vstd::utf8::encode_utf8(old(self).selected_spec()))
                    && *final(self) == *old(self)
            },
            r is Copy ==> is_press(*key) && (key.code == KeyCode::Enter || key.code == KeyCode::Char(' '))
                && old(self).anchor is Some,
            r is Continue && is_press(*key) ==> ({
                let (l, c) = old(self).key_target(*key);
                let line = min_int(l, last_line(old(self).n()));
                &&& final(self).cursor_line == line
                &&& final(self).cursor_col == min_int(c, line_len(old(self).lines@, line))
                &&& final(self).top as int == visible_top(old(self).top as int, line, old(self).data_rows_spec(), old(self).n())
            }),
            r is Continue && is_press(*key) && !(key.code == KeyCode::Enter || key.code == KeyCode::Char(' ')) ==> final(self).anchor == old(self).anchor,
    {
        if !is_key_press(key) {
            return TmuxCopyResult::Continue;
        }
        match key.code {
            KeyCode::Esc => return TmuxCopyResult::Cancel,
            KeyCode::Up => self.move_vertical(-1),
            KeyCode::Down => self.move_vertical(1),
            KeyCode::Left => self.move_left(),
            KeyCode::Right => self.move_right(),
            KeyCode::PageUp => {
                let rows = self.data_rows() as i64;
                self.move_vertical(0 - rows);
            },
            KeyCode::PageDown => {
                let rows = self.data_rows() as i64;
                self.move_vertical(rows);
            },
            KeyCode::Home => self.cursor_col = 0,
            KeyCode::End => self.cursor_col = self.current_line_len(),
            KeyCode::Enter => {
                if self.anchor.is_none() {
                    self.anchor = Some((self.cursor_line, self.cursor_col));
                } else {
                    return TmuxCopyResult::Copy(utf8_bytes(&self.selected_text()));
                }
            },
            KeyCode::Char(c) => {
                if c == 'q' {
                    return TmuxCopyResult::Cancel;
                } else if c == 'k' {
                    self.move_vertical(-1);
                } else if c == 'j' {
                    self.move_vertical(1);
                } else if c == 'h' {
                    self.move_left();
                } else if c == 'l' {
                    self.move_right();
                } else if c == '0' {
                    self.cursor_col = 0;
                } else if c == '$' {
                    self.cursor_col = self.current_line_len();
                } else if c == 'g' {
                    self.cursor_line = 0;
                } else if c == 'G' {
                    self.cursor_line = self.last();
                } else if c == ' ' {
                    if self.anchor.is_none() {
                        self.anchor = Some((self.cursor_line, self.cursor_col));
                    } else {
                        return TmuxCopyResult::Copy(utf8_bytes(&self.selected_text()));
                    }
                }
            },
            _ => {},
        }
        self.clamp_cursor();
        self.ensure_visible();
        TmuxCopyResult::Continue
    }

    /// Handles a mouse event; whether it changed anything.
    pub fn handle_mouse(&mut self, event: MouseInput) -> (r: bool)
        requires
            old(self).wf(),
        ensures
            final(self).wf(),
            final(self).lines == old(self).lines,
            final(self).anchor == old(self).anchor,
            !r ==> *final(self) == *old(self),
            r <==> (event.kind == MouseKind::ScrollUp || event.kind == MouseKind::ScrollDown || (event.kind
                == MouseKind::Down(MouseButton::Left) && (event.row as int) < old(self).data_rows_spec()
                && event.column < old(self).cols)),
    {
        match event.kind {
            MouseKind::ScrollUp => self.move_vertical(-3),
            MouseKind::ScrollDown => self.move_vertical(3),
            MouseKind::Down(MouseButton::Left) => {
                if event.row < self.data_rows() && event.column < self.cols {
                    let line = if self.top as u128 + event.row as u128 > usize::MAX as u128 {
                        usize::MAX
                    } else {
                        self.top + event.row as usize
                    };
                    let last = self.last();
                    self.cursor_line = if line < last {
                        line
                    } else {
                        last
                    };
                    let len = self.current_line_len();
                    let col = event.column as usize;
                    self.cursor_col = if col < len {
                        col
                    } else {
                        len
                    };
                } else {
                    return false;
                }
            },
            _ => return false,
        }
        self.clamp_cursor();
        self.ensure_visible();
        true
    }
}

/// The cursor movement to `row`, `col` (counted from 0).
pub open spec fn move_to_text(row: nat, col: nat) -> Seq<char> {
    "\x1b["@ + decimal(row + 1) + ";"@ + decimal(col + 1) + "H"@
}

fn push_move_to(out: &mut String, row: u16, col: u16)
    requires
        row < u16::MAX,
        col < u16::MAX,
    ensures
        final(out)@ == old(out)@ + move_to_text(row as nat, col as nat),
{
    push_str(out, "\x1b[");
    push_decimal(out, row as u64 + 1);
    push_str(out, ";");
    push_decimal(out, col as u64 + 1);
    push_str(out, "H");
}

/// The status of copy mode: the cursor line, the number of lines and
/// whether a selection is being made.
pub open spec fn copy_status_spec(line: nat, total: nat, selecting: bool) -> Seq<char> {
    "tmux copy | "@ + decimal(line) + "/"@ + decimal(total) + if selecting {
        " | 选择中"@
    } else {
        Seq::empty()
    }
}

pub fn copy_status_text(line: usize, total: usize, selecting: bool) -> (r: String)
    ensures
        r@ == copy_status_spec(line as nat, total as nat, selecting),
{
    let mut s = String::new();
    push_str(&mut s, "tmux copy | ");
    push_decimal(&mut s, line as u64);
    push_str(&mut s, "/");
    push_decimal(&mut s, total as u64);
    if selecting {
        push_str(&mut s, " | 选择中");
    }
    proof {
        if !selecting {
            assert(s@ =~= copy_status_spec(line as nat, total as nat, selecting));
        }
    }
    s
}

impl TmuxCopyMode {
    /// Whether the character `k` of line `i` is drawn in reverse video: it
    /// is selected or under the cursor.
    pub open spec fn cell_styled(&self, i: usize, k: usize) -> bool {
        (self.anchor is Some && pos_le(self.selection_ends().0, (i, k)) && pos_le((i, k), self.selection_ends().1))
            || (i == self.cursor_line && k == self.cursor_col)
    }

    /// The first `n` characters of `line` (line `i`), with a switch of
    /// video mode before each character whose style differs from the one
    /// before it.
    pub open spec fn styled_text(&self, line: Seq<char>, i: usize, n: nat) -> Seq<char>
        decreases n,
    {
        if n == 0 {
            Seq::empty()
        } else {
            let k = (n - 1) as nat;
            let prev = k > 0 && self.cell_styled(i, (k - 1) as usize);
            let cur = self.cell_styled(i, k as usize);
            self.styled_text(line, i, k) + (if cur == prev {
                Seq::empty()
            } else if cur {
                "\x1b[7m"@
            } else {
                "\x1b[0m"@
            }) + seq![line[k as int]]
        }
    }

    /// Line `i` as drawn: the characters that fit in the width, and a
    /// cursor block past the end when the cursor is there.
    pub open spec fn line_text(&self, i: usize) -> Seq<char> {
        let line = self.lines@[i as int]@;
        self.styled_text(line, i, fit_prefix(line, self.cols as nat).0) + if i == self.cursor_line
            && self.cursor_col >= line.len() {
            "\x1b[7m \x1b[0m"@
        } else {
            Seq::empty()
        }
    }

    /// The first `r` text rows of the screen.
    pub open spec fn rows_text(&self, r: nat) -> Seq<char>
        decreases r,
    {
        if r == 0 {
            Seq::empty()
        } else {
            let row = (r - 1) as nat;
            let li = self.top + row;
            self.rows_text(row) + move_to_text(row, 0) + (if li < self.lines@.len() {
                self.line_text(li as usize)
            } else {
                Seq::empty()
            }) + "\x1b[0m"@
        }
    }

    /// The status row.
    pub open spec fn status_text(&self) -> Seq<char> {
        let line: nat = if self.cursor_line == usize::MAX { usize::MAX as nat } else { (self.cursor_line + 1) as nat };
        let row: nat = if self.rows >= 1 { (self.rows - 1) as nat } else { 0 };
        move_to_text(row, 0) + "\x1b[30;46m"@ + fit_spec(
            copy_status_spec(line, self.lines@.len(), self.anchor is Some),
            self.cols as nat,
        ) + "\x1b[K\x1b[0m"@
    }

    /// The whole screen of copy mode.
    pub open spec fn frame_text(&self) -> Seq<char> {
        "\x1b[?25l\x1b[0m\x1b[2J\x1b[H"@ + self.rows_text(self.data_rows_spec() as nat) + self.status_text()
    }

    fn render_line(&self, out: &mut String, i: usize)
        requires
            i < self.lines@.len(),
        ensures
            final(out)@ == old(out)@ + self.line_text(i),
    {
        let line = &self.lines[i];
        let ghost cs = line@;
        let ghost width = self.cols as nat;
        let ghost start = out@;
        let mut used: usize = 0;
        let mut styled = false;
        let mut shown: usize = 0;
        let mut fits = true;
        let mut k: usize = 0;
        assert(cs.take(0) =~= Seq::<char>::empty());
        while k < line.len()
            invariant
                k <= cs.len(),
                cs == self.lines@[i as int]@,
                *line == self.lines@[i as int],
                width == self.cols as nat,
                used <= width,
                fit_prefix(cs.take(k as int), width) == (shown as nat, used as nat),
                shown <= k,
                fits ==> shown == k,
                !fits ==> shown < k,
                out@ == start + self.styled_text(cs, i, shown as nat),
                styled == (shown > 0 && self.cell_styled(i, (shown - 1) as usize)),
            decreases cs.len() - k,
        {
            let c = line[k];
            let w = match char_width(c) {
                Some(w) => w,
                None => 0,
            };
            assert(cs.take(k + 1).drop_last() =~= cs.take(k as int));
            assert(cs.take(k + 1).last() == c);
            if fits && w <= (self.cols as usize) - used {
                let selected = self.is_selected(i, k);
                let cursor = i == self.cursor_line && k == self.cursor_col;
                let next = selected || cursor;
                let ghost before = out@;
                if next != styled {
                    if next {
                        push_str(out, "\x1b[7m");
                    } else {
                        push_str(out, "\x1b[0m");
                    }
                }
                push_char(out, c);
                proof {
                    let mid: Seq<char> = if next == styled {
                        Seq::empty()
                    } else if next {
                        "\x1b[7m"@
                    } else {
                        "\x1b[0m"@
                    };
                    assert(out@ =~= before + mid + seq![c]);
                    assert(cs[k as int] == c);
                }
                styled = next;
                used = used + w;
                shown = shown + 1;
            } else {
                fits = false;
            }
            k += 1;
        }
        assert(cs.take(cs.len() as int) =~= cs);
        if i == self.cursor_line && self.cursor_col >= line.len() {
            push_str(out, "\x1b[7m \x1b[0m");
        }
        proof {
            if !(i == self.cursor_line && self.cursor_col >= cs.len()) {
                assert(out@ =~= old(out)@ + self.line_text(i));
            }
        }
    }

    /// The bytes that draw copy mode: its text rows, the selection and
    /// cursor in reverse video, and the status row.
    pub fn render_frame(&self) -> (r: Vec<u8>)
        ensures
            r@ == vstd::utf8::encode_utf8(self.frame_text()),
    {
        let mut s = String::new();
        push_str(&mut s, "\x1b[?25l\x1b[0m\x1b[2J\x1b[H");
        let data_rows = self.data_rows();
        let mut row: u16 = 0;
        while row < data_rows
            invariant
                row <= data_rows,
                data_rows == self.data_rows_spec(),
                s@ == "\x1b[?25l\x1b[0m\x1b[2J\x1b[H"@ + self.rows_text(row as nat),
            decreases data_rows - row,
        {
            let ghost before = s@;
            push_move_to(&mut s, row, 0);
            let li = self.top.saturating_add(row as usize);
            if li < self.lines.len() {
                self.render_line(&mut s, li);
            }
            push_str(&mut s, "\x1b[0m");
            proof {
                let line_part: Seq<char> = if self.top + row < self.lines@.len() {
                    self.line_text((self.top + row) as usize)
                } else {
                    Seq::empty()
                };
                assert(s@ =~= before + move_to_text(row as nat, 0) + line_part + "\x1b[0m"@);
            }
            row = row + 1;
        }
        let ghost rows_part = s@;
        let status_row: u16 = if self.rows >= 1 {
            self.rows - 1
        } else {
            0
        };
        push_move_to(&mut s, status_row, 0);
        push_str(&mut s, "\x1b[30;46m");
        let line = self.cursor_line.saturating_add(1);
        let status = copy_status_text(line, self.lines.len(), self.anchor.is_some());
        let fitted = fit_to_width(status.as_str(), self.cols as usize);
        push_str(&mut s, fitted.as_str());
        push_str(&mut s, "\x1b[K\x1b[0m");
        assert(s@ =~= rows_part + self.status_text());
        let mut out: Vec<u8> = Vec::new();
        extend_bytes(&mut out, s.as_str().as_bytes());
        out
    }
}

/// Character lines as plain values.
pub open spec fn line_views(ls: Seq<Vec<char>>) -> Seq<Seq<char>> {
    ls.map_values(|l: Vec<char>| l@)
}

/// The lines of output text: split at `\n`, with `\r` left out; there is
/// always at least one (possibly empty) line.
pub open spec fn text_lines(text: Seq<char>) -> Seq<Seq<char>>
    decreases text.len(),
{
    if text.len() == 0 {
        seq![Seq::empty()]
    } else {
        let ls = text_lines(text.drop_last());
        let c = text.last();
        if c == '\n' {
            ls.push(Seq::empty())
        } else if c == '\r' {
            ls
        } else {
            ls.update(ls.len() - 1, ls.last().push(c))
        }
    }
}

proof fn lemma_text_lines_nonempty(text: Seq<char>)
    ensures
        text_lines(text).len() >= 1,
    decreases text.len(),
{
    if text.len() > 0 {
        lemma_text_lines_nonempty(text.drop_last());
    }
}

/// Splits output text into the lines copy mode moves over.
pub fn replay_lines(text: &str) -> (r: Vec<Vec<char>>)
    ensures
        line_views(r@) == text_lines(text@),
{
    let cs = crate::text::chars_of(text);
    let mut done: Vec<Vec<char>> = Vec::new();
    let mut current: Vec<char> = Vec::new();
    let mut k: usize = 0;
    assert(cs@.take(0) =~= Seq::<char>::empty());
    assert(line_views(done@).push(current@) =~= seq![Seq::<char>::empty()]);
    while k < cs.len()
        invariant
            k <= cs@.len(),
            cs@ == text@,
            line_views(done@).push(current@) == text_lines(cs@.take(k as int)),
        decreases cs@.len() - k,
    {
        let c = cs[k];
        let ghost before = cs@.take(k as int);
        assert(cs@.take(k + 1).drop_last() =~= before);
        assert(cs@.take(k + 1).last() == c);
        proof {
            lemma_text_lines_nonempty(before);
        }
        if c == '\n' {
            let line = current;
            done.push(line);
            current = Vec::new();
            assert(line_views(done@).push(current@) =~= text_lines(before).push(Seq::empty()));
        } else if c == '\r' {
        } else {
            let ghost old_current = current@;
            current.push(c);
            assert(line_views(done@).push(current@) =~= text_lines(before).update(
                text_lines(before).len() - 1,
                old_current.push(c),
            ));
        }
        k += 1;
    }
    assert(cs@.take(cs@.len() as int) =~= cs@);
    let ghost dv = line_views(done@);
    done.push(current);
    assert(line_views(done@) =~= dv.push(done@.last()@));
    done
}

/// The UTF-8 encoding of the characters `cs`.
pub fn utf8_bytes(cs: &Vec<char>) -> (r: Vec<u8>)
    ensures
        r@ == vstd::utf8::encode_utf8(cs@),
{
    let mut s = String::new();
    let mut i: usize = 0;
    while i < cs.len()
        invariant
            i <= cs@.len(),
            s@ == cs@.take(i as int),
        decreases cs@.len() - i,
    {
        crate::text::push_char(&mut s, cs[i]);
        assert(cs@.take(i as int).push(cs@[i as int]) =~= cs@.take(i + 1));
        i += 1;
    }
    assert(cs@.take(cs@.len() as int) =~= cs@);
    let mut v: Vec<u8> = Vec::new();
    crate::text::extend_bytes(&mut v, s.as_str().as_bytes());
    v
}

} // verus!
