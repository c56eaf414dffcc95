//! Display widths of text in terminal columns, from the `unicode-width`
//! crate.
use vstd::prelude::*;

use unicode_width::{UnicodeWidthChar, UnicodeWidthStr};
use crate::text::{chars_of, push_char};

verus! {

/// `UnicodeWidthStr::width` of a string: its width in columns.
pub uninterp spec fn str_width_spec(s: Seq<char>) -> nat;

/// `UnicodeWidthChar::width` of a character from U+00A0 on, read from the
/// crate's Unicode tables.
pub uninterp spec fn table_width(c: char) -> nat;

/// A printable ASCII character.
pub open spec fn is_ascii_printable(c: char) -> bool {
    '\u{20}' <= c && c <= '\u{7e}'
}

/// A character whose width the Unicode tables give.
pub open spec fn from_table(c: char) -> bool {
    '\u{a0}' <= c
}

/// `UnicodeWidthChar::width` of a character: none for the control
/// characters U+0000..U+001F and U+007F..U+009F, one column for the rest
/// of ASCII, the table width from U+00A0 on.
pub open spec fn char_width_spec(c: char) -> Option<usize> {
    if is_ascii_printable(c) {
        Some(1usize)
    } else if from_table(c) {
        Some(table_width(c) as usize)
    } else {
        None
    }
}

/// The width of a string in columns: calls `UnicodeWidthStr::width` of
/// the `unicode-width` crate. The contract only names its result,
/// `str_width_spec` of the characters, which depends on them alone.
#[verifier::external_body]
pub(crate) fn str_width(s: &str) -> (r: usize)
    ensures
        r as nat == str_width_spec(s@),
{
    UnicodeWidthStr::width(s)
}

/// The width of a character in columns: calls `UnicodeWidthChar::width`
/// of the `unicode-width` crate. The contract claims what its source does
/// before consulting its tables: `None` below U+0020 and from U+007F to
/// U+009F, one column for the rest of ASCII, and from U+00A0 on the table
/// width, which it only names (`table_width`).
#[verifier::external_body]
pub(crate) fn char_width(c: char) -> (r: Option<usize>)
    ensures
        r == if is_ascii_printable(c) {
            Some(1usize)
        } else if from_table(c) {
            Some(table_width(c) as usize)
        } else {
            None::<usize>
        },
{
    UnicodeWidthChar::width(c)
}

/// The width of a string, kept to `u16::MAX`.
pub fn text_width(text: &str) -> (r: u16)
    ensures
        r as nat == if str_width_spec(text@) > u16::MAX { u16::MAX as nat } else { str_width_spec(text@) },
{
    let w = str_width(text);
    if w > 65535 {
        65535
    } else {
        w as u16
    }
}

/// How many leading characters of `cs` fit in `width` columns, counting
/// control characters as zero wide, and how many columns they use.
pub open spec fn fit_prefix(cs: Seq<char>, width: nat) -> (nat, nat)
    decreases cs.len(),
{
    if cs.len() == 0 {
        (0, 0)
    } else {
        let (n, used) = fit_prefix(cs.drop_last(), width);
        let w: nat = match char_width_spec(cs.last()) {
            Some(w) => w as nat,
            None => 0,
        };
        if n == cs.len() - 1 && used + w <= width {
            (n + 1, used + w)
        } else {
            (n, used)
        }
    }
}

/// `text` cut to `width` columns and padded with spaces up to it.
pub open spec fn fit_spec(text: Seq<char>, width: nat) -> Seq<char> {
    let (n, used) = fit_prefix(text, width);
    text.take(n as int) + Seq::new((width - used) as nat, |i: int| ' ')
}

/// Cuts `text` to `width` columns and pads it with spaces.
pub fn fit_to_width(text: &str, width: usize) -> (r: String)
    ensures
        r@ == fit_spec(text@, width as nat),
{
    let cs = chars_of(text);
    let mut out = String::new();
    let mut used: usize = 0;
    let mut k: usize = 0;
    let mut fits = true;
    while k < cs.len()
        invariant
            k <= cs@.len(),
            cs@ == text@,
            used <= width,
            fit_prefix(cs@.take(k as int), width as nat) == (if fits { k as nat } else { out@.len() }, used as nat),
            out@ == cs@.take(out@.len() as int),
            out@.len() <= k,
            fits ==> out@.len() == k,
            !fits ==> out@.len() < k,
        decreases cs@.len() - k,
    {
        let c = cs[k];
        let w = match char_width(c) {
            Some(w) => w,
            None => 0,
        };
        assert(cs@.take(k + 1).drop_last() =~= cs@.take(k as int));
        assert(cs@.take(k + 1).last() == c);
        if fits && w <= width - used {
            push_char(&mut out, c);
            used = used + w;
            assert(out@ =~= cs@.take(k + 1));
        } else {
            fits = false;
        }
        k += 1;
    }
    assert(cs@.take(cs@.len() as int) =~= cs@);
    let ghost kept = out@;
    let mut pad = used;
    while pad < width
        invariant
            used <= pad <= width,
            out@ == kept + Seq::new((pad - used) as nat, |i: int| ' '),
        decreases width - pad,
    {
        push_char(&mut out, ' ');
        assert(kept + Seq::new((pad + 1 - used) as nat, |i: int| ' ') =~= (kept + Seq::new(
            (pad - used) as nat,
            |i: int| ' ',
        )).push(' '));
        pad += 1;
    }
    out
}


/// How many leading characters of `cs` fit in `width` columns.
pub fn fit_count(cs: &[char], width: usize) -> (r: usize)
    ensures
        r as nat == fit_prefix(cs@, width as nat).0,
        r <= cs@.len(),
{
    let mut used: usize = 0;
    let mut shown: usize = 0;
    let mut fits = true;
    let mut k: usize = 0;
    while k < cs.len()
        invariant
            k <= cs@.len(),
            used <= width,
            fit_prefix(cs@.take(k as int), width as nat) == (shown as nat, used as nat),
            shown <= k,
            fits ==> shown == k,
            !fits ==> shown < k,
        decreases cs@.len() - k,
    {
        let c = cs[k];
        let w = match char_width(c) {
            Some(w) => w,
            None => 0,
        };
        assert(cs@.take(k + 1).drop_last() =~= cs@.take(k as int));
        assert(cs@.take(k + 1).last() == c);
        if fits && w <= width - used {
            used = used + w;
            shown = shown + 1;
        } else {
            fits = false;
        }
        k += 1;
    }
    assert(cs@.take(cs@.len() as int) =~= cs@);
    shown
}

} // verus!
