//! Command-line argument extraction for the tmux-compatible commands.
//!
//! Every parser is specified by a spec function over the views of the
//! arguments (`views(args@)`), so callers reason about plain sequences.
use vstd::prelude::*;

use crate::text::{
    all_ws, chars_of, first_word, first_word_chars, is_blank, join_strings, join_with, parse_unsigned,
    parse_unsigned_chars, rsplit_once, rsplit_once_char, skip_chars, split_once, split_once_char,
    starts_with, str_eq, str_starts_with, string_of, trim, trim_chars, views,
};

verus! {

/// `arg` equals one of the given names.
pub open spec fn is_one_of(arg: Seq<char>, names: Seq<Seq<char>>) -> bool {
    exists|k: int| 0 <= k < names.len() && names[k] == arg
}

/// The value of a `short`/`long` option, scanning from position `i`:
/// `-x value`, `--long value`, `-xvalue` or `--long=value`.
pub open spec fn named_arg_from(
    args: Seq<Seq<char>>,
    i: int,
    short: Seq<char>,
    long: Seq<char>,
) -> Option<Seq<char>>
    decreases args.len() - i,
{
    if i < 0 || i >= args.len() {
        None
    } else if args[i] == short || args[i] == long {
        if i + 1 < args.len() {
            Some(args[i + 1])
        } else {
            None
        }
    } else if short.is_prefix_of(args[i]) && args[i].len() > short.len() {
        Some(args[i].skip(short.len() as int))
    } else if long.push('=').is_prefix_of(args[i]) {
        Some(args[i].skip(long.len() as int + 1))
    } else {
        named_arg_from(args, i + 1, short, long)
    }
}

pub open spec fn named_arg_spec(args: Seq<Seq<char>>, short: Seq<char>, long: Seq<char>) -> Option<
    Seq<char>,
> {
    named_arg_from(args, 0, short, long)
}

/// The session part of a `session:window.pane` target.
pub open spec fn session_part(target: Seq<char>) -> Seq<char> {
    match split_once(target, ':') {
        Some((session, _)) => session,
        None => target,
    }
}

/// `selector` names a window: trimmed, and with a numeric `.pane` suffix removed.
pub open spec fn normalized_window_selector_spec(selector: Seq<char>) -> Option<Seq<char>> {
    let t = trim(selector);
    if t.len() == 0 {
        None
    } else {
        match rsplit_once(t, '.') {
            Some((window, pane)) => if parse_unsigned(pane, usize::MAX as nat) is Some {
                if window.len() == 0 {
                    Some(seq!['.'])
                } else {
                    Some(window)
                }
            } else {
                Some(t)
            },
            None => Some(t),
        }
    }
}

/// The window selector of the `-t` target, if it names one.
pub open spec fn window_selector_spec(args: Seq<Seq<char>>) -> Option<Seq<char>> {
    match named_arg_spec(args, "-t"@, "--target-session"@) {
        Some(target) => match split_once(target, ':') {
            Some((_, selector)) => normalized_window_selector_spec(selector),
            None => None,
        },
        None => None,
    }
}

/// The pane number of the `-t` target (`session:window.pane`).
pub open spec fn pane_index_spec(args: Seq<Seq<char>>) -> Option<nat> {
    match named_arg_spec(args, "-t"@, "--target-session"@) {
        Some(target) => match split_once(target, ':') {
            Some((_, selector)) => match rsplit_once(selector, '.') {
                Some((_, pane)) => parse_unsigned(pane, usize::MAX as nat),
                None => None,
            },
            None => None,
        },
        None => None,
    }
}

/// Scanning state for the positional arguments that follow a command name.
pub struct PositionalScan {
    pub seen_command: bool,
    pub skip_next: bool,
    pub payload: Seq<Seq<char>>,
}

/// One step of the positional scan: arguments before the command are
/// ignored, `-t`/`--target-session` take the next argument, other
/// options are dropped, everything else is collected.
pub open spec fn positional_step(
    st: PositionalScan,
    arg: Seq<char>,
    commands: Seq<Seq<char>>,
) -> PositionalScan {
    if st.skip_next {
        PositionalScan { skip_next: false, ..st }
    } else if !st.seen_command {
        if is_one_of(arg, commands) {
            PositionalScan { seen_command: true, ..st }
        } else {
            st
        }
    } else if arg == "-t"@ || arg == "--target-session"@ {
        PositionalScan { skip_next: true, ..st }
    } else if "-t"@.is_prefix_of(arg) || "--target-session="@.is_prefix_of(arg) || "-"@.is_prefix_of(
        arg,
    ) {
        st
    } else {
        PositionalScan { payload: st.payload.push(arg), ..st }
    }
}

pub open spec fn positional_scan(args: Seq<Seq<char>>, commands: Seq<Seq<char>>) -> PositionalScan
    decreases args.len(),
{
    if args.len() == 0 {
        PositionalScan { seen_command: false, skip_next: false, payload: Seq::empty() }
    } else {
        positional_step(positional_scan(args.drop_last(), commands), args.last(), commands)
    }
}

/// The positional arguments after one of `commands`.
pub open spec fn positional_args_spec(args: Seq<Seq<char>>, commands: Seq<Seq<char>>) -> Seq<
    Seq<char>,
> {
    positional_scan(args, commands).payload
}

/// The positional arguments joined by spaces, unless blank.
pub open spec fn positional_payload_spec(args: Seq<Seq<char>>, commands: Seq<Seq<char>>) -> Option<
    Seq<char>,
> {
    let payload = join_with(positional_args_spec(args, commands), " "@);
    if all_ws(payload) {
        None
    } else {
        Some(payload)
    }
}

/// The first word of the positional payload.
pub open spec fn positional_after_spec(args: Seq<Seq<char>>, commands: Seq<Seq<char>>) -> Option<
    Seq<char>,
> {
    match positional_payload_spec(args, commands) {
        Some(payload) => first_word(payload),
        None => None,
    }
}

/// Scanning state for `new-window` arguments.
pub struct NewWindowScan {
    pub seen_command: bool,
    pub skip_next: bool,
    pub started: bool,
    pub payload: Seq<Seq<char>>,
}

pub open spec fn new_window_option_consumes_value_spec(arg: Seq<char>) -> bool {
    arg == "-t"@ || arg == "--target-session"@ || arg == "-n"@ || arg == "--window-name"@
}

pub open spec fn new_window_inline_option_spec(arg: Seq<char>) -> bool {
    "-t"@.is_prefix_of(arg) || "--target-session="@.is_prefix_of(arg) || "-n"@.is_prefix_of(arg)
        || "--window-name="@.is_prefix_of(arg)
}

/// One step of the `new-window` scan: once the first non-option argument
/// is seen, it and everything after it form the command.
pub open spec fn new_window_step(st: NewWindowScan, arg: Seq<char>) -> NewWindowScan {
    if st.skip_next {
        NewWindowScan { skip_next: false, ..st }
    } else if !st.seen_command {
        if arg == "new-window"@ || arg == "neww"@ {
            NewWindowScan { seen_command: true, ..st }
        } else {
            st
        }
    } else if !st.started && new_window_option_consumes_value_spec(arg) {
        NewWindowScan { skip_next: true, ..st }
    } else if !st.started && (new_window_inline_option_spec(arg) || "-"@.is_prefix_of(arg)) {
        st
    } else {
        NewWindowScan { started: true, payload: st.payload.push(arg), ..st }
    }
}

pub open spec fn new_window_scan(args: Seq<Seq<char>>) -> NewWindowScan
    decreases args.len(),
{
    if args.len() == 0 {
        NewWindowScan { seen_command: false, skip_next: false, started: false, payload: Seq::empty() }
    } else {
        new_window_step(new_window_scan(args.drop_last()), args.last())
    }
}

/// Whether `arg` is one of `names`.
pub fn matches_any(arg: &str, names: &[&str]) -> (r: bool)
    ensures
        r == is_one_of(arg@, names@.map_values(|n: &str| n@)),
{
    let ghost ns = names@.map_values(|n: &str| n@);
    let mut k: usize = 0;
    while k < names.len()
        invariant
            k <= names.len(),
            ns == names@.map_values(|n: &str| n@),
            forall|j: int| 0 <= j < k ==> ns[j] != arg@,
        decreases names.len() - k,
    {
        if str_eq(arg, names[k]) {
            assert(ns[k as int] == arg@);
            return true;
        }
        k += 1;
    }
    false
}

fn named_arg(args: &[String], short: &str, long: &str) -> (r: Option<String>)
    ensures
        match r {
            Some(v) => named_arg_spec(views(args@), short@, long@) == Some(v@),
            None => named_arg_spec(views(args@), short@, long@) is None,
        },
{
    let ghost vs = views(args@);
    let short_cs = chars_of(short);
    let mut long_eq = chars_of(long);
    long_eq.push('=');
    let mut i: usize = 0;
    while i < args.len()
        invariant
            i <= args.len(),
            vs == views(args@),
            short_cs@ == short@,
            long_eq@ == long@.push('='),
            named_arg_from(vs, 0, short@, long@) == named_arg_from(vs, i as int, short@, long@),
        decreases args.len() - i,
    {
        let arg = chars_of(args[i].as_str());
        assert(vs[i as int] == arg@);
        if str_eq(args[i].as_str(), short) || str_eq(args[i].as_str(), long) {
            if i + 1 < args.len() {
                return Some(args[i + 1].clone());
            } else {
                return None;
            }
        }
        if starts_with(&arg, &short_cs) && arg.len() > short_cs.len() {
            return Some(string_of(&skip_chars(&arg, short_cs.len())));
        }
        if starts_with(&arg, &long_eq) {
            return Some(string_of(&skip_chars(&arg, long_eq.len())));
        }
        i += 1;
    }
    None
}

/// `-s <name>`: the session name given to `new-session`.
pub fn session_name_arg(args: &[String]) -> (r: Option<String>)
    ensures
        match r {
            Some(v) => named_arg_spec(views(args@), "-s"@, "--session-name"@) == Some(v@),
            None => named_arg_spec(views(args@), "-s"@, "--session-name"@) is None,
        },
{
    named_arg(args, "-s", "--session-name")
}

/// `-t <target>`: the raw target argument.
pub fn target_session_arg(args: &[String]) -> (r: Option<String>)
    ensures
        match r {
            Some(v) => named_arg_spec(views(args@), "-t"@, "--target-session"@) == Some(v@),
            None => named_arg_spec(views(args@), "-t"@, "--target-session"@) is None,
        },
{
    named_arg(args, "-t", "--target-session")
}

/// The session named by the `-t` target (the part before `:`).
pub fn target_session_name_arg(args: &[String]) -> (r: Option<String>)
    ensures
        match r {
            Some(v) => match named_arg_spec(views(args@), "-t"@, "--target-session"@) {
                Some(t) => v@ == session_part(t),
                None => false,
            },
            None => named_arg_spec(views(args@), "-t"@, "--target-session"@) is None,
        },
{
    match target_session_arg(args) {
        Some(target) => {
            let cs = chars_of(target.as_str());
            match split_once_char(&cs, ':') {
                Some((session, _)) => Some(string_of(&session)),
                None => Some(target),
            }
        },
        None => None,
    }
}

fn normalized_window_selector(selector: &[char]) -> (r: Option<Vec<char>>)
    ensures
        match r {
            Some(v) => normalized_window_selector_spec(selector@) == Some(v@),
            None => normalized_window_selector_spec(selector@) is None,
        },
{
    let t = trim_chars(selector);
    if t.len() == 0 {
        return None;
    }
    match rsplit_once_char(&t, '.') {
        Some((window, pane)) => {
            if parse_unsigned_chars(&pane, usize::MAX as u64).is_some() {
                if window.len() == 0 {
                    let mut dot: Vec<char> = Vec::new();
                    dot.push('.');
                    assert(dot@ =~= seq!['.']);
                    Some(dot)
                } else {
                    Some(window)
                }
            } else {
                Some(t)
            }
        },
        None => Some(t),
    }
}

/// The window selector of the `-t` target (`session:selector`).
pub fn target_window_selector_arg(args: &[String]) -> (r: Option<String>)
    ensures
        match r {
            Some(v) => window_selector_spec(views(args@)) == Some(v@),
            None => window_selector_spec(views(args@)) is None,
        },
{
    let target = target_session_arg(args)?;
    let cs = chars_of(target.as_str());
    let (_, selector) = split_once_char(&cs, ':')?;
    let normalized = normalized_window_selector(&selector)?;
    Some(string_of(&normalized))
}

/// The numeric window index of the `-t` target.
pub fn target_window_index_arg(args: &[String]) -> (r: Option<usize>)
    ensures
        match r {
            Some(v) => match window_selector_spec(views(args@)) {
                Some(sel) => parse_unsigned(sel, usize::MAX as nat) == Some(v as nat),
                None => false,
            },
            None => match window_selector_spec(views(args@)) {
                Some(sel) => parse_unsigned(sel, usize::MAX as nat) is None,
                None => true,
            },
        },
{
    let selector = target_window_selector_arg(args)?;
    let cs = chars_of(selector.as_str());
    match parse_unsigned_chars(&cs, usize::MAX as u64) {
        Some(v) => Some(v as usize),
        None => None,
    }
}

/// The numeric pane index of the `-t` target.
pub fn target_pane_index_arg(args: &[String]) -> (r: Option<usize>)
    ensures
        match r {
            Some(v) => pane_index_spec(views(args@)) == Some(v as nat),
            None => pane_index_spec(views(args@)) is None,
        },
{
    let target = target_session_arg(args)?;
    let cs = chars_of(target.as_str());
    let (_, selector) = split_once_char(&cs, ':')?;
    let (_, pane) = rsplit_once_char(&selector, '.')?;
    match parse_unsigned_chars(&pane, usize::MAX as u64) {
        Some(v) => Some(v as usize),
        None => None,
    }
}

/// The arguments that follow one of `commands`, without options.
pub fn positional_args_after_command(args: &[String], commands: &[&str]) -> (r: Vec<String>)
    ensures
        views(r@) == positional_args_spec(views(args@), commands@.map_values(|n: &str| n@)),
{
    let ghost vs = views(args@);
    let ghost cs = commands@.map_values(|n: &str| n@);
    let mut seen_command = false;
    let mut skip_next = false;
    let mut payload: Vec<String> = Vec::new();
    let mut i: usize = 0;
    assert(vs.take(0) =~= Seq::<Seq<char>>::empty());
    assert(views(payload@) =~= Seq::<Seq<char>>::empty());
    while i < args.len()
        invariant
            i <= args.len(),
            vs == views(args@),
            cs == commands@.map_values(|n: &str| n@),
            positional_scan(vs.take(i as int), cs) == (PositionalScan {
                seen_command,
                skip_next,
                payload: views(payload@),
            }),
        decreases args.len() - i,
    {
        let arg = args[i].as_str();
        let ac = chars_of(arg);
        assert(vs.take(i + 1).drop_last() =~= vs.take(i as int));
        assert(vs.take(i + 1).last() == arg@);
        if skip_next {
            skip_next = false;
        } else if !seen_command {
            if matches_any(arg, commands) {
                seen_command = true;
            }
        } else if str_eq(arg, "-t") || str_eq(arg, "--target-session") {
            skip_next = true;
        } else if str_starts_with(arg, "-t") || str_starts_with(arg, "--target-session=")
            || str_starts_with(arg, "-") {
        } else {
            let ghost before = payload@;
            payload.push(args[i].clone());
            assert(views(payload@) =~= views(before).push(arg@));
        }
        i += 1;
    }
    assert(vs.take(args.len() as int) =~= vs);
    payload
}

/// The positional arguments after one of `commands`, joined by spaces,
/// or `None` when that is blank.
pub fn positional_payload_after_command(args: &[String], commands: &[&str]) -> (r: Option<String>)
    ensures
        match r {
            Some(v) => positional_payload_spec(views(args@), commands@.map_values(|n: &str| n@))
                == Some(v@),
            None => positional_payload_spec(views(args@), commands@.map_values(|n: &str| n@)) is None,
        },
{
    let parts = positional_args_after_command(args, commands);
    let payload = join_strings(&parts, " ");
    let cs = chars_of(payload.as_str());
    if is_blank(&cs) {
        None
    } else {
        Some(payload)
    }
}

/// The first word of the positional payload after one of `commands`.
pub fn positional_after_command(args: &[String], commands: &[&str]) -> (r: Option<String>)
    ensures
        match r {
            Some(v) => positional_after_spec(views(args@), commands@.map_values(|n: &str| n@))
                == Some(v@),
            None => positional_after_spec(views(args@), commands@.map_values(|n: &str| n@)) is None,
        },
{
    let payload = positional_payload_after_command(args, commands)?;
    let cs = chars_of(payload.as_str());
    match first_word_chars(&cs) {
        Some(w) => Some(string_of(&w)),
        None => None,
    }
}

/// The new name given to `rename-session`.
pub fn rename_session_name_arg(args: &[String]) -> (r: Option<String>)
    ensures
        match r {
            Some(v) => positional_after_spec(views(args@), seq!["rename-session"@]) == Some(v@),
            None => positional_after_spec(views(args@), seq!["rename-session"@]) is None,
        },
{
    let commands = ["rename-session"];
    assert(commands@.map_values(|n: &str| n@) =~= seq!["rename-session"@]);
    positional_after_command(args, &commands)
}

/// The new name given to `rename-window`.
pub fn rename_window_name_arg(args: &[String]) -> (r: Option<String>)
    ensures
        match r {
            Some(v) => positional_after_spec(views(args@), seq!["rename-window"@, "renamew"@])
                == Some(v@),
            None => positional_after_spec(views(args@), seq!["rename-window"@, "renamew"@]) is None,
        },
{
    let commands = ["rename-window", "renamew"];
    assert(commands@.map_values(|n: &str| n@) =~= seq!["rename-window"@, "renamew"@]);
    positional_after_command(args, &commands)
}

/// `-n <name>`: the name of a new window.
pub fn new_window_name_arg(args: &[String]) -> (r: Option<String>)
    ensures
        match r {
            Some(v) => named_arg_spec(views(args@), "-n"@, "--window-name"@) == Some(v@),
            None => named_arg_spec(views(args@), "-n"@, "--window-name"@) is None,
        },
{
    named_arg(args, "-n", "--window-name")
}

fn new_window_option_consumes_value(arg: &str) -> (r: bool)
    ensures
        r == new_window_option_consumes_value_spec(arg@),
{
    str_eq(arg, "-t") || str_eq(arg, "--target-session") || str_eq(arg, "-n") || str_eq(
        arg,
        "--window-name",
    )
}

fn new_window_inline_option(arg: &str) -> (r: bool)
    ensures
        r == new_window_inline_option_spec(arg@),
{
    str_starts_with(arg, "-t") || str_starts_with(arg, "--target-session=") || str_starts_with(
        arg,
        "-n",
    ) || str_starts_with(arg, "--window-name=")
}

/// The command words of `new-window`: from the first non-option argument on.
pub fn new_window_command_args(args: &[String]) -> (r: Vec<String>)
    ensures
        views(r@) == new_window_scan(views(args@)).payload,
{
    let ghost vs = views(args@);
    let mut seen_command = false;
    let mut skip_next = false;
    let mut started = false;
    let mut payload: Vec<String> = Vec::new();
    let mut i: usize = 0;
    assert(vs.take(0) =~= Seq::<Seq<char>>::empty());
    assert(views(payload@) =~= Seq::<Seq<char>>::empty());
    while i < args.len()
        invariant
            i <= args.len(),
            vs == views(args@),
            new_window_scan(vs.take(i as int)) == (NewWindowScan {
                seen_command,
                skip_next,
                started,
                payload: views(payload@),
            }),
        decreases args.len() - i,
    {
        let arg = args[i].as_str();
        assert(vs.take(i + 1).drop_last() =~= vs.take(i as int));
        assert(vs.take(i + 1).last() == arg@);
        if skip_next {
            skip_next = false;
        } else if !seen_command {
            if str_eq(arg, "new-window") || str_eq(arg, "neww") {
                seen_command = true;
            }
        } else if !started && new_window_option_consumes_value(arg) {
            skip_next = true;
        } else if !started && (new_window_inline_option(arg) || str_starts_with(arg, "-")) {
        } else {
            started = true;
            let ghost before = payload@;
            payload.push(args[i].clone());
            assert(views(payload@) =~= views(before).push(arg@));
        }
        i += 1;
    }
    assert(vs.take(args.len() as int) =~= vs);
    payload
}

/// The command of `new-window`, joined by spaces, unless blank.
pub fn new_window_command_arg(args: &[String]) -> (r: Option<String>)
    ensures
        match r {
            Some(v) => v@ == join_with(new_window_scan(views(args@)).payload, " "@) && !all_ws(v@),
            None => all_ws(join_with(new_window_scan(views(args@)).payload, " "@)),
        },
{
    let parts = new_window_command_args(args);
    let payload = join_strings(&parts, " ");
    let cs = chars_of(payload.as_str());
    if is_blank(&cs) {
        None
    } else {
        Some(payload)
    }
}

/// Whether any argument is exactly `flag`.
pub fn has_flag(args: &[String], flag: &str) -> (r: bool)
    ensures
        r == (exists|i: int| 0 <= i < args.len() && args@[i]@ == flag@),
{
    let mut i: usize = 0;
    while i < args.len()
        invariant
            i <= args.len(),
            forall|j: int| 0 <= j < i ==> args@[j]@ != flag@,
        decreases args.len() - i,
    {
        if str_eq(args[i].as_str(), flag) {
            return true;
        }
        i += 1;
    }
    false
}

/// `-a`: kill every window but the target.
pub fn kill_other_windows_arg(args: &[String]) -> (r: bool)
    ensures
        r == (exists|i: int| 0 <= i < args.len() && args@[i]@ == "-a"@),
{
    has_flag(args, "-a")
}

/// The number given to a size option, when it parses as a `u16`.
pub open spec fn size_arg_spec(args: Seq<Seq<char>>, short: Seq<char>, long: Seq<char>) -> Option<u16> {
    match named_arg_spec(args, short, long) {
        Some(v) => match parse_unsigned(v, u16::MAX as nat) {
            Some(n) => Some(n as u16),
            None => None,
        },
        None => None,
    }
}

/// A size read as `resize_pane_width_arg` and `resize_pane_height_arg`
/// promise is the one `size_arg_spec` names.
pub proof fn lemma_size_arg(args: Seq<Seq<char>>, short: Seq<char>, long: Seq<char>, r: Option<u16>)
    requires
        match named_arg_spec(args, short, long) {
            Some(v) => match r {
                Some(n) => parse_unsigned(v, u16::MAX as nat) == Some(n as nat),
                None => parse_unsigned(v, u16::MAX as nat) is None,
            },
            None => r is None,
        },
    ensures
        r == size_arg_spec(args, short, long),
{
}

/// `-x <cols>`: the requested pane width.
pub fn resize_pane_width_arg(args: &[String]) -> (r: Option<u16>)
    ensures
        match named_arg_spec(views(args@), "-x"@, "--width"@) {
            Some(v) => match r {
                Some(n) => parse_unsigned(v, u16::MAX as nat) == Some(n as nat),
                None => parse_unsigned(v, u16::MAX as nat) is None,
            },
            None => r is None,
        },
{
    let value = named_arg(args, "-x", "--width")?;
    let cs = chars_of(value.as_str());
    match parse_unsigned_chars(&cs, u16::MAX as u64) {
        Some(n) => Some(n as u16),
        None => None,
    }
}

/// `-y <rows>`: the requested pane height.
pub fn resize_pane_height_arg(args: &[String]) -> (r: Option<u16>)
    ensures
        match named_arg_spec(views(args@), "-y"@, "--height"@) {
            Some(v) => match r {
                Some(n) => parse_unsigned(v, u16::MAX as nat) == Some(n as nat),
                None => parse_unsigned(v, u16::MAX as nat) is None,
            },
            None => r is None,
        },
{
    let value = named_arg(args, "-y", "--height")?;
    let cs = chars_of(value.as_str());
    match parse_unsigned_chars(&cs, u16::MAX as u64) {
        Some(n) => Some(n as u16),
        None => None,
    }
}

/// The message of `display-message`.
pub fn display_message_arg(args: &[String]) -> (r: Option<String>)
    ensures
        match r {
            Some(v) => positional_payload_spec(views(args@), seq!["display-message"@, "display"@])
                == Some(v@),
            None => positional_payload_spec(views(args@), seq!["display-message"@, "display"@]) is None,
        },
{
    let commands = ["display-message", "display"];
    assert(commands@.map_values(|n: &str| n@) =~= seq!["display-message"@, "display"@]);
    positional_payload_after_command(args, &commands)
}

/// The keys of `send-keys`.
pub fn send_keys_args(args: &[String]) -> (r: Vec<String>)
    ensures
        views(r@) == positional_args_spec(views(args@), seq!["send-keys"@, "send"@]),
{
    let commands = ["send-keys", "send"];
    assert(commands@.map_values(|n: &str| n@) =~= seq!["send-keys"@, "send"@]);
    positional_args_after_command(args, &commands)
}


/// Some argument is one of `names`.
pub open spec fn any_arg_spec(args: Seq<Seq<char>>, names: Seq<Seq<char>>) -> bool {
    exists|i: int| 0 <= i < args.len() && is_one_of(#[trigger] args[i], names)
}

/// Whether some argument is one of `names`.
pub fn any_arg(args: &[String], names: &[&str]) -> (r: bool)
    ensures
        r == any_arg_spec(views(args@), names@.map_values(|n: &str| n@)),
{
    let ghost vs = views(args@);
    let ghost ns = names@.map_values(|n: &str| n@);
    let mut i: usize = 0;
    while i < args.len()
        invariant
            i <= args.len(),
            vs == views(args@),
            ns == names@.map_values(|n: &str| n@),
            forall|j: int| 0 <= j < i ==> !is_one_of(#[trigger] vs[j], ns),
        decreases args.len() - i,
    {
        if matches_any(args[i].as_str(), names) {
            assert(is_one_of(vs[i as int], ns));
            return true;
        }
        i += 1;
    }
    false
}

} // verus!
