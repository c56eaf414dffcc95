//! Arguments of the paste-buffer commands.
use vstd::prelude::*;

use crate::text::{chars_of, join_strings, join_with, skip_chars, str_eq, str_starts_with, string_of, views};

verus! {

/// The buffer name given with `-b`, `-bNAME`, `--buffer-name NAME` or
/// `--buffer-name=NAME`, scanning from position `i`; an empty name is none.
pub open spec fn buffer_name_from(args: Seq<Seq<char>>, i: int) -> Option<Seq<char>>
    decreases args.len() - i,
{
    if i < 0 || i >= args.len() {
        None
    } else if args[i] == "-b"@ || args[i] == "--buffer-name"@ {
        if i + 1 < args.len() && args[i + 1].len() > 0 {
            Some(args[i + 1])
        } else {
            None
        }
    } else if "-b"@.is_prefix_of(args[i]) && args[i].len() > 2 {
        Some(args[i].skip(2))
    } else if "--buffer-name="@.is_prefix_of(args[i]) {
        if args[i].len() > 14 {
            Some(args[i].skip(14))
        } else {
            None
        }
    } else {
        buffer_name_from(args, i + 1)
    }
}

/// The name of the buffer a command is about.
pub fn buffer_name_arg(args: &[String]) -> (r: Option<String>)
    ensures
        match r {
            Some(v) => buffer_name_from(views(args@), 0) == Some(v@),
            None => buffer_name_from(views(args@), 0) is None,
        },
{
    let ghost vs = views(args@);
    let mut i: usize = 0;
    while i < args.len()
        invariant
            i <= args.len(),
            vs == views(args@),
            buffer_name_from(vs, 0) == buffer_name_from(vs, i as int),
        decreases args.len() - i,
    {
        let arg = args[i].as_str();
        let cs = chars_of(arg);
        assert(vs[i as int] == cs@);
        if str_eq(arg, "-b") || str_eq(arg, "--buffer-name") {
            if i + 1 < args.len() && chars_of(args[i + 1].as_str()).len() > 0 {
                return Some(args[i + 1].clone());
            }
            return None;
        }
        if str_starts_with(arg, "-b") && cs.len() > 2 {
            return Some(string_of(&skip_chars(&cs, 2)));
        }
        if str_starts_with(arg, "--buffer-name=") {
            proof {
                reveal_strlit("--buffer-name=");
            }
            if cs.len() > 14 {
                return Some(string_of(&skip_chars(&cs, 14)));
            }
            return None;
        }
        i += 1;
    }
    None
}

/// Options of `set-buffer` that take the next argument.
pub open spec fn option_consumes_value_spec(arg: Seq<char>) -> bool {
    arg == "-t"@ || arg == "--target-session"@ || arg == "-b"@ || arg == "--buffer-name"@
}

/// Options of `set-buffer` written with their value.
pub open spec fn inline_option_spec(arg: Seq<char>) -> bool {
    "-t"@.is_prefix_of(arg) || "--target-session="@.is_prefix_of(arg) || "-b"@.is_prefix_of(arg)
        || "--buffer-name="@.is_prefix_of(arg)
}

pub fn option_consumes_value(arg: &str) -> (r: bool)
    ensures
        r == option_consumes_value_spec(arg@),
{
    str_eq(arg, "-t") || str_eq(arg, "--target-session") || str_eq(arg, "-b") || str_eq(arg, "--buffer-name")
}

pub fn inline_option(arg: &str) -> (r: bool)
    ensures
        r == inline_option_spec(arg@),
{
    str_starts_with(arg, "-t") || str_starts_with(arg, "--target-session=") || str_starts_with(arg, "-b")
        || str_starts_with(arg, "--buffer-name=")
}

/// Scanning state for the data of `set-buffer`.
pub struct BufferDataScan {
    pub seen_command: bool,
    pub skip_next: bool,
    pub literal: bool,
    pub payload: Seq<Seq<char>>,
}

/// One step: arguments up to `set-buffer`/`setb` are ignored; after `--`
/// everything is data; before it, options (and the values of `-t` and
/// `-b`) are dropped.
pub open spec fn buffer_data_step(st: BufferDataScan, arg: Seq<char>) -> BufferDataScan {
    if st.skip_next {
        BufferDataScan { skip_next: false, ..st }
    } else if !st.seen_command {
        BufferDataScan { seen_command: arg == "set-buffer"@ || arg == "setb"@, ..st }
    } else if st.literal {
        BufferDataScan { payload: st.payload.push(arg), ..st }
    } else if arg == "--"@ {
        BufferDataScan { literal: true, ..st }
    } else if option_consumes_value_spec(arg) {
        BufferDataScan { skip_next: true, ..st }
    } else if inline_option_spec(arg) || arg == "-a"@ || arg == "--append"@ || "-"@.is_prefix_of(arg) {
        st
    } else {
        BufferDataScan { payload: st.payload.push(arg), ..st }
    }
}

pub open spec fn buffer_data_scan(args: Seq<Seq<char>>) -> BufferDataScan
    decreases args.len(),
{
    if args.len() == 0 {
        BufferDataScan { seen_command: false, skip_next: false, literal: false, payload: Seq::empty() }
    } else {
        buffer_data_step(buffer_data_scan(args.drop_last()), args.last())
    }
}

/// The data of `set-buffer`: its words joined by spaces, if any.
pub fn buffer_data_arg(args: &[String]) -> (r: Option<String>)
    ensures
        match r {
            Some(v) => buffer_data_scan(views(args@)).payload.len() > 0 && v@ == join_with(
                buffer_data_scan(views(args@)).payload,
                " "@,
            ),
            None => buffer_data_scan(views(args@)).payload.len() == 0,
        },
{
    let ghost vs = views(args@);
    let mut seen_command = false;
    let mut skip_next = false;
    let mut literal = false;
    let mut payload: Vec<String> = Vec::new();
    let mut i: usize = 0;
    assert(vs.take(0) =~= Seq::<Seq<char>>::empty());
    assert(views(payload@) =~= Seq::<Seq<char>>::empty());
    while i < args.len()
        invariant
            i <= args.len(),
            vs == views(args@),
            buffer_data_scan(vs.take(i as int)) == (BufferDataScan {
                seen_command,
                skip_next,
                literal,
                payload: views(payload@),
            }),
        decreases args.len() - i,
    {
        let arg = args[i].as_str();
        assert(vs.take(i + 1).drop_last() =~= vs.take(i as int));
        assert(vs.take(i + 1).last() == arg@);
        let ghost before = payload@;
        if skip_next {
            skip_next = false;
        } else if !seen_command {
            seen_command = str_eq(arg, "set-buffer") || str_eq(arg, "setb");
        } else if literal {
            payload.push(args[i].clone());
            assert(views(payload@) =~= views(before).push(arg@));
        } else if str_eq(arg, "--") {
            literal = true;
        } else if option_consumes_value(arg) {
            skip_next = true;
        } else if inline_option(arg) || str_eq(arg, "-a") || str_eq(arg, "--append") || str_starts_with(arg, "-") {
        } else {
            payload.push(args[i].clone());
            assert(views(payload@) =~= views(before).push(arg@));
        }
        i += 1;
    }
    assert(vs.take(args.len() as int) =~= vs);
    if payload.len() == 0 {
        None
    } else {
        Some(join_strings(&payload, " "))
    }
}

} // verus!
