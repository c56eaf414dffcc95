//! Properties the library keeps across its operations.
use vstd::prelude::*;

use crate::attach_keys::{KeyCode, KeyEventKind, KeyInput, KeyModifiers};
use crate::attach_prompt::edit_prompt_spec;
use crate::attach_command_exec::{split_fold, split_spec, split_step, SplitState};
use crate::args::named_arg_from;
use crate::builtin::{builtin_action_spec, BuiltinAction};
use crate::command::{first_command_position, parse_spec, TmuxCommand};
use crate::new_session::{new_session_scan, new_session_step};
use crate::text::{is_ws, join_with};
use crate::attach_keys::prefix_command_spec;
use crate::attach_repeat::{deadline_after, repeated_command};
use crate::attach_keys::TmuxPrefixCommand;
use crate::args::named_arg_spec;
use crate::pane_layout::{first_pos, lemma_split_leaves, lemma_without_leaves, PaneLayout, SplitDirection};
use crate::ipc::{ipc_prefix, is_name_char, sanitize_spec, session_endpoint_name};
use crate::send_keys::{key_bytes, keys_bytes};
use crate::pane_layout::{lemma_geometry_leaves, split_rects_spec, split_size_spec, PaneDirection, PaneRect};
use crate::pane_layout_presets::{combine_spec, equal_ratio, even_spec, lemma_combine_some, lemma_even_some, panes_of};
use crate::pane_navigation::{active_position, candidate_score_spec, is_candidate, key_le, neighbour_choice};
use crate::copy_mode::{min_int as copy_min, pos_le, selection_from, TmuxCopyMode};
use crate::attach_keys::{is_press, key_event_spec};
use crate::session_core::{delivered, SubscriberView};
use crate::session_model::EventView;
use crate::session_state::{trimmed, MAX_REPLAY_BYTES};

verus! {

/// Recent output is kept to `MAX_REPLAY_BYTES` bytes, and what is kept is
/// the end of what was written.
pub proof fn law_replay_keeps_the_end(b: Seq<u8>)
    ensures
        trimmed(b).len() <= MAX_REPLAY_BYTES,
        trimmed(b).len() == if b.len() > MAX_REPLAY_BYTES { MAX_REPLAY_BYTES as nat } else { b.len() },
        trimmed(b) == b.subrange(b.len() - trimmed(b).len(), b.len() as int),
{
    if b.len() > MAX_REPLAY_BYTES {
        assert(trimmed(b) =~= b.subrange(b.len() - MAX_REPLAY_BYTES, b.len() as int));
    } else {
        assert(trimmed(b) =~= b.subrange(0, b.len() as int));
    }
}

/// Output written to an empty replay is given back whole while it fits.
pub proof fn law_replay_returns_output(bytes: Seq<u8>)
    requires
        bytes.len() <= MAX_REPLAY_BYTES,
    ensures
        trimmed(Seq::<u8>::empty() + bytes) == bytes,
{
    assert(Seq::<u8>::empty() + bytes =~= bytes);
}

/// Each connected subscriber receives the events in the order they were
/// published, after the ones already waiting; a disconnected one receives
/// nothing more.
pub proof fn law_events_arrive_in_order(ss: Seq<SubscriberView>, first: EventView, second: EventView, k: int)
    requires
        0 <= k < ss.len(),
    ensures
        delivered(delivered(ss, first), second).len() == ss.len(),
        ss[k].connected ==> delivered(delivered(ss, first), second)[k].pending == ss[k].pending.push(first).push(
            second,
        ),
        !ss[k].connected ==> delivered(delivered(ss, first), second)[k] == ss[k],
        delivered(delivered(ss, first), second)[k].id == ss[k].id,
{
}

/// The endpoint of a session depends on its name alone and starts with
/// `terman-tmux-`, the sanitized name and `-`.
pub proof fn law_endpoint_name_is_stable(name: Seq<char>, other: Seq<char>)
    ensures
        name == other ==> session_endpoint_name(name) == session_endpoint_name(other),
        (ipc_prefix() + "-"@ + sanitize_spec(name) + "-"@).is_prefix_of(session_endpoint_name(name)),
{
    let head = ipc_prefix() + "-"@ + sanitize_spec(name) + "-"@;
    assert(session_endpoint_name(name).subrange(0, head.len() as int) =~= head);
}

/// A sanitized name is never empty and holds only letters, digits, `-`,
/// `_` and `.`.
pub proof fn law_sanitized_names_are_safe(name: Seq<char>)
    ensures
        sanitize_spec(name).len() > 0,
        forall|i: int| 0 <= i < sanitize_spec(name).len() ==> is_name_char(#[trigger] sanitize_spec(name)[i]),
{
    if name.len() == 0 {
        reveal_strlit("session");
        assert forall|i: int| 0 <= i < sanitize_spec(name).len() implies is_name_char(#[trigger] sanitize_spec(name)[i]) by {
            assert("session"@ =~= seq!['s', 'e', 's', 's', 'i', 'o', 'n']);
        }
    }
}

/// The bytes of a list of keys are the bytes of its parts one after the
/// other.
pub proof fn law_keys_concatenate(a: Seq<Seq<char>>, b: Seq<Seq<char>>)
    ensures
        keys_bytes(a + b) == keys_bytes(a) + keys_bytes(b),
    decreases b.len(),
{
    if b.len() == 0 {
        assert(a + b =~= a);
        assert(keys_bytes(a) + keys_bytes(b) =~= keys_bytes(a));
    } else {
        law_keys_concatenate(a, b.drop_last());
        assert((a + b).drop_last() =~= a + b.drop_last());
        assert((a + b).last() == b.last());
        assert(keys_bytes(a) + keys_bytes(b) =~= keys_bytes(a) + keys_bytes(b.drop_last()) + crate::send_keys::key_bytes(
            b.last(),
        ));
    }
}

/// In a prompt, typing a character and then Backspace leaves the text as
/// it was.
pub proof fn law_prompt_backspace_undoes_typing(input: Seq<char>, c: char)
    ensures
        ({
            let plain = KeyModifiers { shift: false, control: false, alt: false };
            let typed = edit_prompt_spec(KeyInput { code: KeyCode::Char(c), modifiers: plain, kind: KeyEventKind::Press }, input).0;
            edit_prompt_spec(KeyInput { code: KeyCode::Backspace, modifiers: plain, kind: KeyEventKind::Press }, typed).0
                == input
        }),
{
    assert(input.push(c).drop_last() =~= input);
}


/// A sequence without `x` is left whole by removing `x`.
proof fn lemma_filter_keeps_all(s: Seq<u32>, index: u32)
    requires
        !s.contains(index),
    ensures
        s.filter(|x: u32| x != index) == s,
    decreases s.len(),
{
    reveal_with_fuel(Seq::filter, 1);
    if s.len() > 0 {
        assert(!s.drop_last().contains(index)) by {
            if s.drop_last().contains(index) {
                let i = choose|i: int| 0 <= i < s.drop_last().len() && s.drop_last()[i] == index;
                assert(s[i] == index);
            }
        }
        lemma_filter_keeps_all(s.drop_last(), index);
        assert(s.last() != index) by {
            assert(s[s.len() - 1] == s.last());
        }
        assert(s.drop_last().push(s.last()) =~= s);
    }
}

proof fn lemma_first_pos_range(s: Seq<u32>, t: u32)
    ensures
        first_pos(s, t) matches Some(p) ==> 0 <= p < s.len(),
    decreases s.len(),
{
    if s.len() > 0 && s[0] != t {
        lemma_first_pos_range(s.skip(1), t);
    }
}

/// Inserting `index` and removing it again gives back the sequence, when
/// it held no `index`.
proof fn lemma_insert_then_filter(s: Seq<u32>, target: u32, index: u32)
    requires
        !s.contains(index),
    ensures
        crate::pane_layout::insert_after_first(s, target, index).filter(|x: u32| x != index) == s,
{
    lemma_first_pos_range(s, target);
    match first_pos(s, target) {
        Some(p) => {
            let a = s.take(p + 1);
            let b = s.skip(p + 1);
            assert(!a.contains(index)) by {
                if a.contains(index) {
                    let i = choose|i: int| 0 <= i < a.len() && a[i] == index;
                    assert(s[i] == index);
                }
            }
            assert(!b.contains(index)) by {
                if b.contains(index) {
                    let i = choose|i: int| 0 <= i < b.len() && b[i] == index;
                    assert(s[i + p + 1] == index);
                }
            }
            lemma_filter_keeps_all(a, index);
            lemma_filter_keeps_all(b, index);
            Seq::filter_distributes_over_add(a.push(index), b, |x: u32| x != index);
            assert(a.push(index).filter(|x: u32| x != index) == a.filter(|x: u32| x != index)) by {
                reveal_with_fuel(Seq::filter, 1);
                assert(a.push(index).drop_last() =~= a);
            }
            assert(a + b =~= s);
        },
        None => {
            lemma_filter_keeps_all(s, index);
        },
    }
}

/// Splitting a pane and then removing the new pane gives back the panes
/// in their order, when the new pane's number was not in use.
pub proof fn law_split_then_remove_restores_panes(l: PaneLayout, target: u32, index: u32, direction: SplitDirection)
    requires
        l.leaves().contains(target),
        !l.leaves().contains(index),
    ensures
        l.split_spec(target, index, direction) matches Some(n) && (n.without_spec(index) matches Some(m)
            && m.leaves() == l.leaves()),
{
    lemma_split_leaves(l, target, index, direction);
    let n = l.split_spec(target, index, direction).unwrap();
    lemma_without_leaves(n, index);
    lemma_insert_then_filter(l.leaves(), target, index);
    assert(l.leaves().len() > 0);
}

/// After a resize is repeated at `now`, a resize key within the repeat
/// time is repeated too; any other key disarms the repeat.
pub proof fn law_resize_repeats_within_time(now: u64, later: u64, key: KeyInput)
    requires
        now <= later <= deadline_after(now),
    ensures
        prefix_command_spec(key) matches Some(TmuxPrefixCommand::ResizePane(d)) ==> repeated_command(
            Some(deadline_after(now)),
            key,
            later,
        ) == Some(TmuxPrefixCommand::ResizePane(d)),
        !(prefix_command_spec(key) matches Some(TmuxPrefixCommand::ResizePane(_))) ==> repeated_command(
            Some(deadline_after(now)),
            key,
            later,
        ) is None,
{
}


/// Swapping the same two panes twice gives back the layout.
pub proof fn law_swap_twice_restores_layout(l: PaneLayout, source: u32, target: u32)
    ensures
        l.swap_spec(source, target).swap_spec(source, target) == l,
    decreases l,
{
    match l {
        PaneLayout::Pane(_) => {},
        PaneLayout::Split { first, second, .. } => {
            law_swap_twice_restores_layout(*first, source, target);
            law_swap_twice_restores_layout(*second, source, target);
        },
    }
}


/// The splitter run from state `st` over `s`.
pub open spec fn split_steps(st: SplitState, s: Seq<char>) -> SplitState
    decreases s.len(),
{
    if s.len() == 0 {
        st
    } else {
        split_step(split_steps(st, s.drop_last()), s.last())
    }
}

proof fn lemma_split_concat(a: Seq<char>, b: Seq<char>)
    ensures
        split_fold(a + b) == split_steps(split_fold(a), b),
    decreases b.len(),
{
    if b.len() == 0 {
        assert(a + b =~= a);
    } else {
        lemma_split_concat(a, b.drop_last());
        assert((a + b).drop_last() =~= a + b.drop_last());
        assert((a + b).last() == b.last());
    }
}

/// A word the splitter keeps as it is: no white space, quote or
/// backslash.
pub open spec fn plain_word(w: Seq<char>) -> bool {
    w.len() > 0 && forall|i: int| 0 <= i < w.len() ==> !is_ws(#[trigger] w[i]) && w[i] != '\'' && w[i] != '"'
        && w[i] != '\\'
}

proof fn lemma_split_word(st: SplitState, w: Seq<char>)
    requires
        !st.escaped,
        st.quote is None,
        forall|i: int| 0 <= i < w.len() ==> !is_ws(#[trigger] w[i]) && w[i] != '\'' && w[i] != '"' && w[i] != '\\',
    ensures
        split_steps(st, w) == (if w.len() == 0 {
            st
        } else {
            SplitState { token: st.token + w, started: true, ..st }
        }),
    decreases w.len(),
{
    if w.len() > 0 {
        let v = w.drop_last();
        assert forall|i: int| 0 <= i < v.len() implies !is_ws(#[trigger] v[i]) && v[i] != '\'' && v[i] != '"'
            && v[i] != '\\' by {
            assert(v[i] == w[i]);
        }
        lemma_split_word(st, v);
        let c = w.last();
        assert(c == w[w.len() - 1]);
        if v.len() == 0 {
            assert(st.token + w =~= st.token.push(c));
        } else {
            assert((st.token + v).push(c) =~= st.token + w);
        }
    }
}

/// Plain words joined by single spaces split back into the same words.
pub proof fn law_split_joined_words(ts: Seq<Seq<char>>)
    requires
        forall|k: int| 0 <= k < ts.len() ==> plain_word(#[trigger] ts[k]),
    ensures
        split_spec(join_with(ts, " "@)) == Some(ts),
{
    reveal_strlit(" ");
    if ts.len() == 0 {
        assert(split_fold(Seq::<char>::empty()).args =~= Seq::<Seq<char>>::empty());
    } else {
        lemma_split_joined_fold(ts);
        assert(ts.drop_last().push(ts.last()) =~= ts);
    }
}

proof fn lemma_split_joined_fold(ts: Seq<Seq<char>>)
    requires
        ts.len() > 0,
        forall|k: int| 0 <= k < ts.len() ==> plain_word(#[trigger] ts[k]),
    ensures
        split_fold(join_with(ts, " "@)) == (SplitState {
            args: ts.drop_last(),
            token: ts.last(),
            quote: None,
            escaped: false,
            started: true,
        }),
    decreases ts.len(),
{
    reveal_strlit(" ");
    let init = SplitState { args: Seq::empty(), token: Seq::empty(), quote: None, escaped: false, started: false };
    let last = ts.last();
    assert(plain_word(ts[ts.len() - 1]));
    assert(plain_word(last));
    if ts.len() == 1 {
        lemma_split_concat(Seq::empty(), ts[0]);
        assert(Seq::<char>::empty() + ts[0] =~= ts[0]);
        assert(split_fold(Seq::<char>::empty()) == init);
        lemma_split_word(init, ts[0]);
        assert(Seq::<char>::empty() + ts[0] =~= ts[0]);
        assert(ts.drop_last() =~= Seq::<Seq<char>>::empty());
    } else {
        let rest = ts.drop_last();
        assert forall|k: int| 0 <= k < rest.len() implies plain_word(#[trigger] rest[k]) by {
            assert(rest[k] == ts[k]);
        }
        lemma_split_joined_fold(rest);
        let head = join_with(rest, " "@);
        assert(join_with(ts, " "@) == head + " "@ + last);
        lemma_split_concat(head + " "@, last);
        assert((head + " "@).drop_last() =~= head);
        assert((head + " "@).last() == ' ');
        let mid = split_fold(head + " "@);
        assert(mid == split_step(split_fold(head), ' '));
        assert(is_ws(' '));
        assert(mid == SplitState {
            args: rest.drop_last().push(rest.last()),
            token: Seq::empty(),
            quote: None,
            escaped: false,
            started: false,
        });
        assert(rest.drop_last().push(rest.last()) =~= rest);
        lemma_split_word(mid, last);
        assert(Seq::<char>::empty() + last =~= last);
    }
}

proof fn lemma_scan_skips_leading_flag(args: Seq<Seq<char>>)
    ensures
        new_session_scan(seq!["-d"@] + args) == new_session_scan(args),
    decreases args.len(),
{
    reveal_strlit("-d");
    reveal_strlit("new");
    reveal_strlit("new-session");
    assert("-d"@.len() == 2);
    assert("new"@.len() == 3);
    assert("-d"@ != "new"@);
    assert("-d"@ != "new-session"@) by {
        assert("new-session"@.len() == 11);
    }
    if args.len() == 0 {
        assert(seq!["-d"@] + args =~= seq!["-d"@]);
        assert(seq!["-d"@].drop_last() =~= Seq::<Seq<char>>::empty());
        assert(seq!["-d"@].last() == "-d"@);
        let init = new_session_scan(Seq::<Seq<char>>::empty());
        assert(new_session_scan(seq!["-d"@]) == new_session_step(init, "-d"@));
        assert(new_session_step(init, "-d"@) == init);
        assert(new_session_scan(args) == init);
    } else {
        lemma_scan_skips_leading_flag(args.drop_last());
        let x = seq!["-d"@] + args;
        assert(x.drop_last() =~= seq!["-d"@] + args.drop_last());
        assert(x.last() == args.last());
        assert(new_session_scan(x) == new_session_step(new_session_scan(x.drop_last()), x.last()));
    }
}

proof fn lemma_named_after_flag(args: Seq<Seq<char>>, i: int)
    requires
        0 <= i,
    ensures
        named_arg_from(seq!["-d"@] + args, i + 1, "-s"@, "--session-name"@) == named_arg_from(
            args,
            i,
            "-s"@,
            "--session-name"@,
        ),
    decreases args.len() - i,
{
    let x = seq!["-d"@] + args;
    if i < args.len() {
        assert(x[i + 1] == args[i]);
        if i + 1 < args.len() {
            assert(x[i + 2] == args[i + 1]);
        }
        lemma_named_after_flag(args, i + 1);
    }
}

/// `--detached` with `new-session` does what `-d` before the command does:
/// the session starts detached, under the same name and with the same
/// command.
pub proof fn law_detached_flag_is_dash_d(args: Seq<Seq<char>>)
    requires
        parse_spec(args) == TmuxCommand::NewSession,
    ensures
        parse_spec(seq!["-d"@] + args) == TmuxCommand::NewSession,
        builtin_action_spec(TmuxCommand::NewSession, args, true) == Some(BuiltinAction::NewSession { attach: false }),
        builtin_action_spec(TmuxCommand::NewSession, seq!["-d"@] + args, false) == builtin_action_spec(
            TmuxCommand::NewSession,
            args,
            true,
        ),
        named_arg_spec(seq!["-d"@] + args, "-s"@, "--session-name"@) == named_arg_spec(
            args,
            "-s"@,
            "--session-name"@,
        ),
        new_session_scan(seq!["-d"@] + args).command == new_session_scan(args).command,
{
    reveal_strlit("-d");
    reveal_strlit("-s");
    reveal_strlit("--session-name");
    reveal_strlit("--detached");
    let x = seq!["-d"@] + args;
    assert(x[0] == "-d"@);
    assert(x.skip(1) =~= args);
    assert(crate::command::is_global_option_spec(x[0]));
    crate::command::lemma_first_command_position(args);
    match first_command_position(args) {
        Some(i) => {
            assert(x[i + 1] == args[i]);
        },
        None => {},
    }
    assert(crate::hints::has_detached_spec(x)) by {
        assert(crate::args::is_one_of(x[0], crate::hints::detached_names())) by {
            assert(crate::hints::detached_names()[0] == "-d"@);
        }
    }
    assert(!("-s"@.is_prefix_of("-d"@))) by {
        assert("-s"@[1] != "-d"@[1]);
    }
    assert(!("--session-name"@.push('=').is_prefix_of("-d"@)));
    lemma_named_after_flag(args, 0);
    lemma_scan_skips_leading_flag(args);
}

/// `--detached` is read by `new-session` alone: for any other command
/// the plan is the same with and without it.
pub proof fn law_detached_ignored_elsewhere(args: Seq<Seq<char>>)
    requires
        parse_spec(args) != TmuxCommand::NewSession,
    ensures
        builtin_action_spec(parse_spec(args), args, true) == builtin_action_spec(parse_spec(args), args, false),
{
}

/// `send-keys` sends for the key names `Enter`, `Tab`, `Escape`, `BSpace`,
/// `DC` and the four arrows the same bytes that an attached client forwards
/// when that key is pressed without modifiers.
pub proof fn law_send_keys_match_pressed_keys(key: KeyInput)
    requires
        is_press(key),
        !key.modifiers.control,
        !key.modifiers.alt,
    ensures
        key.code == KeyCode::Up ==> key_event_spec(key) == Some(key_bytes("Up"@)),
        key.code == KeyCode::Down ==> key_event_spec(key) == Some(key_bytes("Down"@)),
        key.code == KeyCode::Right ==> key_event_spec(key) == Some(key_bytes("Right"@)),
        key.code == KeyCode::Left ==> key_event_spec(key) == Some(key_bytes("Left"@)),
        key.code == KeyCode::Enter ==> key_event_spec(key) == Some(key_bytes("Enter"@)),
        key.code == KeyCode::Tab ==> key_event_spec(key) == Some(key_bytes("Tab"@)),
        key.code == KeyCode::Esc ==> key_event_spec(key) == Some(key_bytes("Escape"@)),
        key.code == KeyCode::Backspace ==> key_event_spec(key) == Some(key_bytes("BSpace"@)),
        key.code == KeyCode::Delete ==> key_event_spec(key) == Some(key_bytes("DC"@)),
{
    reveal_strlit("Enter");
    reveal_strlit("C-m");
    reveal_strlit("C-j");
    reveal_strlit("Tab");
    reveal_strlit("C-i");
    reveal_strlit("Space");
    reveal_strlit("Escape");
    reveal_strlit("Esc");
    reveal_strlit("Backspace");
    reveal_strlit("BSpace");
    reveal_strlit("Delete");
    reveal_strlit("DC");
    reveal_strlit("Up");
    reveal_strlit("Down");
    reveal_strlit("Right");
    reveal_strlit("Left");
    assert(key_bytes("Up"@) == seq![27u8, 91u8, 65u8]) by {
        assert("Up"@.len() != "Enter"@.len());
        assert("Up"@.len() != "C-m"@.len());
        assert("Up"@.len() != "C-j"@.len());
        assert("Up"@.len() != "Tab"@.len());
        assert("Up"@.len() != "C-i"@.len());
        assert("Up"@.len() != "Space"@.len());
        assert("Up"@.len() != "Escape"@.len());
        assert("Up"@.len() != "Esc"@.len());
        assert("Up"@.len() != "Backspace"@.len());
        assert("Up"@.len() != "BSpace"@.len());
        assert("Up"@.len() != "Delete"@.len());
        assert("Up"@[0] != "DC"@[0]);
    }
    assert(key_bytes("Down"@) == seq![27u8, 91u8, 66u8]) by {
        assert("Down"@.len() != "Enter"@.len());
        assert("Down"@.len() != "C-m"@.len());
        assert("Down"@.len() != "C-j"@.len());
        assert("Down"@.len() != "Tab"@.len());
        assert("Down"@.len() != "C-i"@.len());
        assert("Down"@.len() != "Space"@.len());
        assert("Down"@.len() != "Escape"@.len());
        assert("Down"@.len() != "Esc"@.len());
        assert("Down"@.len() != "Backspace"@.len());
        assert("Down"@.len() != "BSpace"@.len());
        assert("Down"@.len() != "Delete"@.len());
        assert("Down"@.len() != "DC"@.len());
        assert("Down"@.len() != "Up"@.len());
    }
    assert(key_bytes("Right"@) == seq![27u8, 91u8, 67u8]) by {
        assert("Right"@[0] != "Enter"@[0]);
        assert("Right"@.len() != "C-m"@.len());
        assert("Right"@.len() != "C-j"@.len());
        assert("Right"@.len() != "Tab"@.len());
        assert("Right"@.len() != "C-i"@.len());
        assert("Right"@[0] != "Space"@[0]);
        assert("Right"@.len() != "Escape"@.len());
        assert("Right"@.len() != "Esc"@.len());
        assert("Right"@.len() != "Backspace"@.len());
        assert("Right"@.len() != "BSpace"@.len());
        assert("Right"@.len() != "Delete"@.len());
        assert("Right"@.len() != "DC"@.len());
        assert("Right"@.len() != "Up"@.len());
        assert("Right"@.len() != "Down"@.len());
    }
    assert(key_bytes("Left"@) == seq![27u8, 91u8, 68u8]) by {
        assert("Left"@.len() != "Enter"@.len());
        assert("Left"@.len() != "C-m"@.len());
        assert("Left"@.len() != "C-j"@.len());
        assert("Left"@.len() != "Tab"@.len());
        assert("Left"@.len() != "C-i"@.len());
        assert("Left"@.len() != "Space"@.len());
        assert("Left"@.len() != "Escape"@.len());
        assert("Left"@.len() != "Esc"@.len());
        assert("Left"@.len() != "Backspace"@.len());
        assert("Left"@.len() != "BSpace"@.len());
        assert("Left"@.len() != "Delete"@.len());
        assert("Left"@.len() != "DC"@.len());
        assert("Left"@.len() != "Up"@.len());
        assert("Left"@[0] != "Down"@[0]);
        assert("Left"@.len() != "Right"@.len());
    }
    assert(key_bytes("Enter"@) == seq![13u8]) by {
    }
    assert(key_bytes("Tab"@) == seq![9u8]) by {
        assert("Tab"@.len() != "Enter"@.len());
        assert("Tab"@[0] != "C-m"@[0]);
        assert("Tab"@[0] != "C-j"@[0]);
    }
    assert(key_bytes("Escape"@) == seq![27u8]) by {
        assert("Escape"@.len() != "Enter"@.len());
        assert("Escape"@.len() != "C-m"@.len());
        assert("Escape"@.len() != "C-j"@.len());
        assert("Escape"@.len() != "Tab"@.len());
        assert("Escape"@.len() != "C-i"@.len());
        assert("Escape"@.len() != "Space"@.len());
    }
    assert(key_bytes("BSpace"@) == seq![127u8]) by {
        assert("BSpace"@.len() != "Enter"@.len());
        assert("BSpace"@.len() != "C-m"@.len());
        assert("BSpace"@.len() != "C-j"@.len());
        assert("BSpace"@.len() != "Tab"@.len());
        assert("BSpace"@.len() != "C-i"@.len());
        assert("BSpace"@.len() != "Space"@.len());
        assert("BSpace"@[0] != "Escape"@[0]);
        assert("BSpace"@.len() != "Esc"@.len());
        assert("BSpace"@.len() != "Backspace"@.len());
    }
    assert(key_bytes("DC"@) == seq![27u8, 91u8, 51u8, 126u8]) by {
        assert("DC"@.len() != "Enter"@.len());
        assert("DC"@.len() != "C-m"@.len());
        assert("DC"@.len() != "C-j"@.len());
        assert("DC"@.len() != "Tab"@.len());
        assert("DC"@.len() != "C-i"@.len());
        assert("DC"@.len() != "Space"@.len());
        assert("DC"@.len() != "Escape"@.len());
        assert("DC"@.len() != "Esc"@.len());
        assert("DC"@.len() != "Backspace"@.len());
        assert("DC"@.len() != "BSpace"@.len());
        assert("DC"@.len() != "Delete"@.len());
    }
}

/// The lines `from` (included) to `to` (excluded), each followed by a new line.
pub open spec fn lines_with_breaks(lines: Seq<Vec<char>>, from: int, to: int) -> Seq<char> {
    lines.subrange(from, to).map_values(|l: Vec<char>| l@.push('\n')).flatten()
}

proof fn lemma_selection_tail(lines: Seq<Vec<char>>, start: (usize, usize), end: (usize, usize), i: int)
    requires
        start.0 < i <= end.0,
        end.0 < lines.len(),
    ensures
        selection_from(lines, start, end, i) == lines_with_breaks(lines, i, end.0 as int) + lines[end.0 as int]@.take(
            copy_min(end.1 + 1, lines[end.0 as int]@.len() as int),
        ),
    decreases end.0 - i,
{
    let last = lines[end.0 as int]@.take(copy_min(end.1 + 1, lines[end.0 as int]@.len() as int));
    if i == end.0 {
        assert(selection_from(lines, start, end, i + 1) == Seq::<char>::empty());
        assert(lines.subrange(i, end.0 as int).len() == 0);
        assert(lines_with_breaks(lines, i, end.0 as int) =~= Seq::<char>::empty());
        assert(selection_from(lines, start, end, i) =~= lines_with_breaks(lines, i, end.0 as int) + last);
    } else {
        lemma_selection_tail(lines, start, end, i + 1);
        let line = lines[i]@;
        assert(line.subrange(0, line.len() as int) =~= line);
        let ms = lines.subrange(i, end.0 as int).map_values(|l: Vec<char>| l@.push('\n'));
        assert(ms.drop_first() =~= lines.subrange(i + 1, end.0 as int).map_values(|l: Vec<char>| l@.push('\n')));
        assert(ms.first() == line.push('\n'));
        assert(lines_with_breaks(lines, i, end.0 as int) == line.push('\n') + lines_with_breaks(lines, i + 1, end.0 as int));
        assert(selection_from(lines, start, end, i) =~= lines_with_breaks(lines, i, end.0 as int) + last);
    }
}

/// What copy mode copies is the text from the first end of the selection to
/// the last, both cells included: on one line the characters between them;
/// over several lines the rest of the first line, every line in between in
/// full, and the last line up to the second end, each line break kept.
pub proof fn law_selection_is_the_text_between_its_ends(m: TmuxCopyMode)
    requires
        m.selection_ends().1.0 < m.lines@.len(),
    ensures
        ({
            let (s, e) = m.selection_ends();
            let first = m.lines@[s.0 as int]@;
            let last = m.lines@[e.0 as int]@;
            &&& s.0 == e.0 ==> m.selected_spec() == first.subrange(
                copy_min(s.1 as int, first.len() as int),
                copy_min(e.1 + 1, first.len() as int),
            )
            &&& s.0 < e.0 ==> m.selected_spec() == first.skip(copy_min(s.1 as int, first.len() as int)).push('\n')
                + lines_with_breaks(m.lines@, s.0 + 1, e.0 as int) + last.take(copy_min(e.1 + 1, last.len() as int))
        }),
{
    let (s, e) = m.selection_ends();
    let lines = m.lines@;
    assert(pos_le(s, e));
    if s.0 == e.0 {
        assert(selection_from(lines, s, e, s.0 + 1) == Seq::<char>::empty());
        let first = lines[s.0 as int]@;
        assert(first.subrange(
            copy_min(s.1 as int, first.len() as int),
            copy_min(e.1 + 1, first.len() as int),
        ) + Seq::<char>::empty() =~= first.subrange(
            copy_min(s.1 as int, first.len() as int),
            copy_min(e.1 + 1, first.len() as int),
        ));
    } else {
        lemma_selection_tail(lines, s, e, s.0 + 1);
        let first = lines[s.0 as int]@;
        let a = copy_min(s.1 as int, first.len() as int);
        assert(first.subrange(a, first.len() as int) =~= first.skip(a));
        assert(m.selected_spec() =~= first.skip(a).push('\n') + lines_with_breaks(lines, s.0 + 1, e.0 as int)
            + lines[e.0 as int]@.take(copy_min(e.1 + 1, lines[e.0 as int]@.len() as int)));
    }
}

/// `other` lies wholly on the `direction` side of `current`.
pub open spec fn lies_beside(current: PaneRect, other: PaneRect, direction: PaneDirection) -> bool {
    match direction {
        PaneDirection::Left => other.x + other.cols <= current.x,
        PaneDirection::Right => other.x >= current.x + current.cols,
        PaneDirection::Up => other.y + other.rows <= current.y,
        PaneDirection::Down => other.y >= current.y + current.rows,
    }
}

/// Every rectangle ends inside the coordinate range.
pub open spec fn rects_fit(panes: Seq<(u32, PaneRect)>) -> bool {
    forall|k: int|
        0 <= k < panes.len() ==> #[trigger] panes[k].1.x + panes[k].1.cols <= u16::MAX && panes[k].1.y
            + panes[k].1.rows <= u16::MAX
}

proof fn lemma_candidate_beside(
    panes: Seq<(u32, PaneRect)>,
    active: u32,
    current: PaneRect,
    direction: PaneDirection,
    k: int,
)
    requires
        rects_fit(panes),
        current.x + current.cols <= u16::MAX,
        current.y + current.rows <= u16::MAX,
    ensures
        is_candidate(panes, active, current, direction, k) == (0 <= k < panes.len() && panes[k].0 != active
            && lies_beside(current, panes[k].1, direction)),
{
    if 0 <= k < panes.len() {
        let c = panes[k].1;
        assert(c.x + c.cols <= u16::MAX && c.y + c.rows <= u16::MAX);
    }
}

proof fn lemma_first_active(panes: Seq<(u32, PaneRect)>, active: u32, i: int)
    requires
        0 <= i <= panes.len(),
        forall|j: int| 0 <= j < i ==> panes[j].0 != active,
        exists|k: int| i <= k < panes.len() && panes[k].0 == active,
    ensures
        exists|k: int| 0 <= k < panes.len() && panes[k].0 == active && forall|j: int| 0 <= j < k ==> panes[j].0 != active,
    decreases panes.len() - i,
{
    if panes[i].0 == active {
        assert(0 <= i < panes.len() && panes[i].0 == active && forall|j: int| 0 <= j < i ==> panes[j].0 != active);
    } else {
        let k = choose|k: int| i <= k < panes.len() && panes[k].0 == active;
        assert(i + 1 <= k);
        lemma_first_active(panes, active, i + 1);
    }
}

/// The pane that moving in a direction selects lies wholly on that side of
/// the active pane (left of its left edge for Left, right of its right edge
/// for Right, likewise above and below), and a pane is selected whenever
/// some other pane lies on that side.
pub proof fn law_neighbour_lies_on_that_side(
    panes: Seq<(u32, PaneRect)>,
    active: u32,
    direction: PaneDirection,
    r: Option<u32>,
)
    requires
        neighbour_choice(panes, active, direction, r),
        rects_fit(panes),
        exists|k: int| 0 <= k < panes.len() && panes[k].0 == active,
    ensures
        ({
            let current = panes[active_position(panes, active).unwrap()].1;
            &&& r matches Some(i) ==> i != active && exists|k: int|
                0 <= k < panes.len() && panes[k].0 == i && lies_beside(current, panes[k].1, direction)
            &&& (r is Some) == exists|k: int|
                0 <= k < panes.len() && panes[k].0 != active && lies_beside(current, panes[k].1, direction)
        }),
{
    lemma_first_active(panes, active, 0);
    let p = active_position(panes, active).unwrap();
    let current = panes[p].1;
    assert(current.x + current.cols <= u16::MAX && current.y + current.rows <= u16::MAX);
    match r {
        Some(i) => {
            let k = choose|k: int|
                is_candidate(panes, active, current, direction, k) && panes[k].0 == i && forall|j: int|
                    is_candidate(panes, active, current, direction, j) ==> key_le(
                        candidate_score_spec(current, panes[k].1, direction).unwrap(),
                        panes[k].0,
                        candidate_score_spec(current, panes[j].1, direction).unwrap(),
                        panes[j].0,
                    );
            lemma_candidate_beside(panes, active, current, direction, k);
        },
        None => {
            if exists|k: int| 0 <= k < panes.len() && panes[k].0 != active && lies_beside(current, panes[k].1, direction) {
                let k = choose|k: int|
                    0 <= k < panes.len() && panes[k].0 != active && lies_beside(current, panes[k].1, direction);
                lemma_candidate_beside(panes, active, current, direction, k);
                assert(!is_candidate(panes, active, current, direction, k));
            }
        },
    }
}

/// Giving `x` of `avail` cells to one side as a ratio in thousandths, and
/// turning that ratio back into cells, gives `x` up to the rounding of the
/// ratio.
proof fn lemma_share_rounding(x: int, avail: int)
    requires
        1 <= x < avail,
        avail <= 1000 * x,
    ensures
        ({
            let q = x * 1000 / avail;
            let f = avail * q / 1000;
            &&& 1 <= q <= 999
            &&& 0 <= f <= x
            &&& 1000 * (x - f) < avail + 1000
        }),
{
    let q = x * 1000 / avail;
    vstd::arithmetic::div_mod::lemma_fundamental_div_mod(x * 1000, avail);
    vstd::arithmetic::div_mod::lemma_mod_pos_bound(x * 1000, avail);
    let rq = (x * 1000) % avail;
    assert(x * 1000 == avail * q + rq);
    assert(q >= 1) by (nonlinear_arith)
        requires
            x * 1000 == avail * q + rq,
            0 <= rq < avail,
            avail <= 1000 * x,
            avail > 0,
    ;
    assert(q <= 999) by (nonlinear_arith)
        requires
            x * 1000 == avail * q + rq,
            0 <= rq,
            x < avail,
            avail > 0,
    ;
    let f = avail * q / 1000;
    vstd::arithmetic::div_mod::lemma_fundamental_div_mod(avail * q, 1000);
    vstd::arithmetic::div_mod::lemma_mod_pos_bound(avail * q, 1000);
    let rf = (avail * q) % 1000;
    assert(avail * q == 1000 * f + rf);
    assert(avail * q >= 0) by (nonlinear_arith)
        requires
            avail > 0,
            q >= 1,
    ;
}

/// Resizing one pane of two side by side to `c` columns gives it `c`
/// columns up to the rounding of the split ratio to thousandths: the pane
/// on the left gets at most `c` and the one on the right at least `c`,
/// each off by less than one cell plus a thousandth of the usable width.
/// It holds wherever `c` is at least a thousandth of the usable width on
/// both sides.
pub proof fn law_resize_gives_the_pane_its_width(a: u32, b: u32, ratio: u16, c: u16, w: u16, h: u16)
    requires
        a != b,
        1 <= c,
        c + 2 <= w,
        w - 1 <= 1000 * c,
        w - 1 <= 1000 * (w - 1 - c),
    ensures
        ({
            let l = PaneLayout::Split {
                direction: SplitDirection::Horizontal,
                ratio,
                first: Box::new(PaneLayout::Pane(a)),
                second: Box::new(PaneLayout::Pane(b)),
            };
            let area = PaneRect { x: 0, y: 0, cols: w, rows: h };
            let avail = w - 1;
            let ra = l.resize_axis_spec(a, c, SplitDirection::Horizontal, area);
            let rb = l.resize_axis_spec(b, c, SplitDirection::Horizontal, area);
            let ga = ra.0.geometry_spec(area).0;
            let gb = rb.0.geometry_spec(area).0;
            &&& ra.1 && rb.1
            &&& ga.len() == 2 && ga[0].0 == a && ga[0].1.cols <= c && 1000 * (c - ga[0].1.cols) < avail + 1000
            &&& gb.len() == 2 && gb[1].0 == b && gb[1].1.cols >= c && 1000 * (gb[1].1.cols - c) < avail + 1000
        }),
{
    let avail: int = w - 1;
    assert(PaneLayout::Pane(a).leaves() == seq![a]);
    assert(PaneLayout::Pane(b).leaves() == seq![b]);
    assert(seq![a].contains(a)) by {
        assert(seq![a][0] == a);
    }
    assert(!seq![a].contains(b));
    assert(seq![b].contains(b)) by {
        assert(seq![b][0] == b);
    }
    lemma_share_rounding(c as int, avail);
    lemma_share_rounding(avail - c, avail);
    let l = PaneLayout::Split {
        direction: SplitDirection::Horizontal,
        ratio,
        first: Box::new(PaneLayout::Pane(a)),
        second: Box::new(PaneLayout::Pane(b)),
    };
    let area = PaneRect { x: 0, y: 0, cols: w, rows: h };
    let (fa0, _, sa0) = split_rects_spec(area, SplitDirection::Horizontal, ratio);
    assert(PaneLayout::Pane(a).resize_axis_spec(a, c, SplitDirection::Horizontal, fa0) == (PaneLayout::Pane(a), false));
    assert(PaneLayout::Pane(b).resize_axis_spec(b, c, SplitDirection::Horizontal, sa0) == (PaneLayout::Pane(b), false));
    let qa = c * 1000 / avail;
    let qb = (avail - c) * 1000 / avail;
    let la = PaneLayout::Split {
        direction: SplitDirection::Horizontal,
        ratio: qa as u16,
        first: Box::new(PaneLayout::Pane(a)),
        second: Box::new(PaneLayout::Pane(b)),
    };
    let lb = PaneLayout::Split {
        direction: SplitDirection::Horizontal,
        ratio: qb as u16,
        first: Box::new(PaneLayout::Pane(a)),
        second: Box::new(PaneLayout::Pane(b)),
    };
    assert(l.resize_axis_spec(a, c, SplitDirection::Horizontal, area) == (la, true));
    assert(l.resize_axis_spec(b, c, SplitDirection::Horizontal, area) == (lb, true));
    let (fa, _, sa) = split_rects_spec(area, SplitDirection::Horizontal, qa as u16);
    let (fb, _, sb) = split_rects_spec(area, SplitDirection::Horizontal, qb as u16);
    assert(PaneLayout::Pane(a).geometry_spec(fa).0 == seq![(a, fa)]);
    assert(PaneLayout::Pane(b).geometry_spec(sa).0 == seq![(b, sa)]);
    assert(PaneLayout::Pane(a).geometry_spec(fb).0 == seq![(a, fb)]);
    assert(PaneLayout::Pane(b).geometry_spec(sb).0 == seq![(b, sb)]);
    assert(la.geometry_spec(area).0 == seq![(a, fa)] + seq![(b, sa)]);
    assert(lb.geometry_spec(area).0 == seq![(a, fb)] + seq![(b, sb)]);
}

proof fn lemma_even_share(n: int, avail: int)
    requires
        2 <= n <= 1000,
        n <= avail,
    ensures
        ({
            let r = 1000int / n;
            let s = split_size_spec(avail, r);
            &&& 1 <= r <= 999
            &&& s * n <= avail
            &&& 1000 * (avail - n * s) < n * (avail + 1000)
        }),
{
    let r = 1000int / n;
    vstd::arithmetic::div_mod::lemma_fundamental_div_mod(1000, n);
    vstd::arithmetic::div_mod::lemma_mod_pos_bound(1000, n);
    let rr = 1000int % n;
    assert(1000 == n * r + rr);
    assert(1 <= r <= 999) by (nonlinear_arith)
        requires
            1000 == n * r + rr,
            0 <= rr < n,
            2 <= n <= 1000,
    ;
    let f = avail * r / 1000;
    assert(avail * r >= 0) by (nonlinear_arith)
        requires
            avail >= 0,
            r >= 0,
    ;
    vstd::arithmetic::div_mod::lemma_fundamental_div_mod(avail * r, 1000);
    vstd::arithmetic::div_mod::lemma_mod_pos_bound(avail * r, 1000);
    let rf = (avail * r) % 1000;
    assert(avail * r == 1000 * f + rf);
    assert(f * n <= avail && f >= 0) by (nonlinear_arith)
        requires
            avail * r == 1000 * f + rf,
            0 <= rf < 1000,
            1000 == n * r + rr,
            0 <= rr,
            n >= 2,
            avail >= 0,
            r >= 1,
    ;
    assert(1000 * (avail - n * f) < n * (avail + 1000)) by (nonlinear_arith)
        requires
            avail * r == 1000 * f + rf,
            0 <= rf < 1000,
            1000 == n * r + rr,
            0 <= rr < n,
            n >= 2,
            avail >= 0,
    ;
    assert(f <= avail - 1) by (nonlinear_arith)
        requires
            f * n <= avail,
            n >= 2,
            avail >= 2,
            f >= 0,
    ;
    let s = split_size_spec(avail, r);
    if f < 1 {
        assert(s == 1);
        assert(1000 * (avail - n * s) <= 1000 * (avail - n * f)) by (nonlinear_arith)
            requires
                s == 1,
                f == 0,
                n >= 0,
        ;
    } else {
        assert(s == f);
    }
}

/// An even layout of `n` panes gives its first pane a share of `1 / n` of
/// the usable length along the split, rounded to thousandths: at most that
/// share, and short of it by less than one cell plus a thousandth of the
/// length. The others are laid out evenly in what is left, so the same
/// holds of each of them in turn. It holds where each pane can have a cell
/// and there are at most a thousand panes.
pub proof fn law_even_layout_shares_equally(indexes: Seq<u32>, direction: SplitDirection, w: u16, h: u16)
    requires
        2 <= indexes.len() <= 1000,
        indexes.len() + 1 <= (match direction {
            SplitDirection::Horizontal => w,
            SplitDirection::Vertical => h,
        }),
    ensures
        ({
            let n = indexes.len() as int;
            let area = PaneRect { x: 0, y: 0, cols: w, rows: h };
            let avail: int = match direction {
                SplitDirection::Horizontal => w - 1,
                SplitDirection::Vertical => h - 1,
            };
            let l = even_spec(indexes, direction).unwrap();
            let g = l.geometry_spec(area).0;
            let size: int = match direction {
                SplitDirection::Horizontal => g[0].1.cols as int,
                SplitDirection::Vertical => g[0].1.rows as int,
            };
            &&& even_spec(indexes, direction) is Some
            &&& l matches PaneLayout::Split { direction: d, second, .. } && d == direction && even_spec(
                indexes.skip(1),
                direction,
            ) == Some(*second)
            &&& g.len() == n
            &&& g[0].0 == indexes[0]
            &&& size * n <= avail
            &&& 1000 * (avail - n * size) < n * (avail + 1000)
        }),
{
    let n = indexes.len() as int;
    let area = PaneRect { x: 0, y: 0, cols: w, rows: h };
    let avail: int = match direction {
        SplitDirection::Horizontal => w - 1,
        SplitDirection::Vertical => h - 1,
    };
    lemma_even_share(n, avail);
    let ps = panes_of(indexes);
    assert(ps.skip(1) =~= panes_of(indexes.skip(1)));
    lemma_combine_some(ps.skip(1), direction);
    lemma_combine_some(ps, direction);
    let rest = combine_spec(ps.skip(1), direction).unwrap();
    let ratio = equal_ratio(n) as u16;
    assert(equal_ratio(n) == 1000int / n);
    let l = PaneLayout::Split {
        direction,
        ratio,
        first: Box::new(PaneLayout::Pane(indexes[0])),
        second: Box::new(rest),
    };
    assert(ps[0] == PaneLayout::Pane(indexes[0]));
    assert(even_spec(indexes, direction) == Some(l));
    let (fa, _, sa) = split_rects_spec(area, direction, ratio);
    assert(PaneLayout::Pane(indexes[0]).geometry_spec(fa).0 == seq![(indexes[0], fa)]);
    lemma_geometry_leaves(l, area);
    lemma_even_some(indexes, direction);
    assert(l.geometry_spec(area).0.map_values(|p: (u32, PaneRect)| p.0).len() == l.geometry_spec(area).0.len());
}

} // verus!
