//! Keys pressed by an attached client: which are tmux commands and which
//! bytes the others send to the session.
use vstd::prelude::*;

use crate::pane_layout::PaneDirection;
use crate::text::{extend_bytes, push_char};
use vstd::string::StringSliceAdditionalSpecFns;

verus! {

/// The key of a key event.
#[derive(Clone, Copy, Debug, PartialEq, Eq, Structural)]
pub enum KeyCode {
    Backspace,
    Enter,
    Left,
    Right,
    Up,
    Down,
    Home,
    End,
    PageUp,
    PageDown,
    Tab,
    BackTab,
    Delete,
    Insert,
    Esc,
    Char(char),
    F(u8),
    Other,
}

/// Whether a key went down, repeated or came up.
#[derive(Clone, Copy, Debug, PartialEq, Eq, Structural)]
pub enum KeyEventKind {
    Press,
    Repeat,
    Release,
}

/// The modifier keys held.
#[derive(Clone, Copy, Debug, PartialEq, Eq, Structural)]
pub struct KeyModifiers {
    pub shift: bool,
    pub control: bool,
    pub alt: bool,
}

/// One key event.
#[derive(Clone, Copy, Debug, PartialEq, Eq, Structural)]
pub struct KeyInput {
    pub code: KeyCode,
    pub modifiers: KeyModifiers,
    pub kind: KeyEventKind,
}

/// What a key after the prefix asks for.
#[derive(Clone, Copy, Debug, PartialEq, Eq, Structural)]
pub enum TmuxPrefixCommand {
    NextWindow,
    PreviousWindow,
    CreateWindow,
    KillWindow,
    KillPane,
    RenameWindow,
    SelectWindow(u32),
    LastWindow,
    ListWindows,
    SplitHorizontal,
    SplitVertical,
    TogglePaneZoom,
    NextPane,
    SelectPane(PaneDirection),
    ResizePane(PaneDirection),
    SwapPaneUp,
    SwapPaneDown,
    CommandPrompt,
    RenameSession,
    CopyMode,
    PasteBuffer,
    Help,
}

pub open spec fn is_press(key: KeyInput) -> bool {
    key.kind == KeyEventKind::Press
}

/// Whether the key went down.
pub fn is_key_press(key: &KeyInput) -> (r: bool)
    ensures
        r == is_press(*key),
{
    match key.kind {
        KeyEventKind::Press => true,
        _ => false,
    }
}

/// Ctrl-b, without Alt: the tmux prefix.
pub open spec fn is_prefix_spec(key: KeyInput) -> bool {
    &&& is_press(key)
    &&& (key.code == KeyCode::Char('b') || key.code == KeyCode::Char('B'))
    &&& key.modifiers.control
    &&& !key.modifiers.alt
}

pub fn is_tmux_prefix_key(key: &KeyInput) -> (r: bool)
    ensures
        r == is_prefix_spec(*key),
{
    is_key_press(key) && (key.code == KeyCode::Char('b') || key.code == KeyCode::Char('B'))
        && key.modifiers.control && !key.modifiers.alt
}

/// A plain `d`: detach, after the prefix.
pub open spec fn is_detach_spec(key: KeyInput) -> bool {
    is_press(key) && key.code == KeyCode::Char('d') && !key.modifiers.control && !key.modifiers.alt
}

pub fn is_detach_key(key: &KeyInput) -> (r: bool)
    ensures
        r == is_detach_spec(*key),
{
    is_key_press(key) && key.code == KeyCode::Char('d') && !key.modifiers.control && !key.modifiers.alt
}

/// The command a key after the prefix stands for.
pub open spec fn prefix_command_spec(key: KeyInput) -> Option<TmuxPrefixCommand> {
    if !is_press(key) || key.modifiers.alt {
        None
    } else if key.modifiers.control {
        match key.code {
            KeyCode::Left => Some(TmuxPrefixCommand::ResizePane(PaneDirection::Left)),
            KeyCode::Right => Some(TmuxPrefixCommand::ResizePane(PaneDirection::Right)),
            KeyCode::Up => Some(TmuxPrefixCommand::ResizePane(PaneDirection::Up)),
            KeyCode::Down => Some(TmuxPrefixCommand::ResizePane(PaneDirection::Down)),
            _ => None,
        }
    } else {
        match key.code {
            KeyCode::Char(c) => if c == 'n' {
                Some(TmuxPrefixCommand::NextWindow)
            } else if c == 'p' {
                Some(TmuxPrefixCommand::PreviousWindow)
            } else if c == 'c' {
                Some(TmuxPrefixCommand::CreateWindow)
            } else if c == 'x' || c == '&' {
                Some(TmuxPrefixCommand::KillWindow)
            } else if c == ',' {
                Some(TmuxPrefixCommand::RenameWindow)
            } else if '0' <= c && c <= '9' {
                Some(TmuxPrefixCommand::SelectWindow((c as u32 - '0' as u32) as u32))
            } else if c == 'l' {
                Some(TmuxPrefixCommand::LastWindow)
            } else if c == 'w' {
                Some(TmuxPrefixCommand::ListWindows)
            } else if c == '%' {
                Some(TmuxPrefixCommand::SplitHorizontal)
            } else if c == '"' {
                Some(TmuxPrefixCommand::SplitVertical)
            } else if c == 'z' {
                Some(TmuxPrefixCommand::TogglePaneZoom)
            } else if c == 'o' {
                Some(TmuxPrefixCommand::NextPane)
            } else if c == 'X' {
                Some(TmuxPrefixCommand::KillPane)
            } else if c == '[' {
                Some(TmuxPrefixCommand::CopyMode)
            } else if c == ']' {
                Some(TmuxPrefixCommand::PasteBuffer)
            } else if c == '?' {
                Some(TmuxPrefixCommand::Help)
            } else if c == '{' {
                Some(TmuxPrefixCommand::SwapPaneUp)
            } else if c == '}' {
                Some(TmuxPrefixCommand::SwapPaneDown)
            } else if c == ':' {
                Some(TmuxPrefixCommand::CommandPrompt)
            } else if c == '$' {
                Some(TmuxPrefixCommand::RenameSession)
            } else {
                None
            },
            KeyCode::Left => Some(TmuxPrefixCommand::SelectPane(PaneDirection::Left)),
            KeyCode::Right => Some(TmuxPrefixCommand::SelectPane(PaneDirection::Right)),
            KeyCode::Up => Some(TmuxPrefixCommand::SelectPane(PaneDirection::Up)),
            KeyCode::Down => Some(TmuxPrefixCommand::SelectPane(PaneDirection::Down)),
            _ => None,
        }
    }
}

pub fn tmux_prefix_command(key: &KeyInput) -> (r: Option<TmuxPrefixCommand>)
    ensures
        r == prefix_command_spec(*key),
{
    if !is_key_press(key) || key.modifiers.alt {
        return None;
    }
    let arrow = match key.code {
        KeyCode::Left => Some(PaneDirection::Left),
        KeyCode::Right => Some(PaneDirection::Right),
        KeyCode::Up => Some(PaneDirection::Up),
        KeyCode::Down => Some(PaneDirection::Down),
        _ => None,
    };
    match arrow {
        Some(d) => return if key.modifiers.control {
            Some(TmuxPrefixCommand::ResizePane(d))
        } else {
            Some(TmuxPrefixCommand::SelectPane(d))
        },
        None => {},
    }
    if key.modifiers.control {
        return None;
    }
    match key.code {
        KeyCode::Char(c) => {
            if c == 'n' {
                Some(TmuxPrefixCommand::NextWindow)
            } else if c == 'p' {
                Some(TmuxPrefixCommand::PreviousWindow)
            } else if c == 'c' {
                Some(TmuxPrefixCommand::CreateWindow)
            } else if c == 'x' || c == '&' {
                Some(TmuxPrefixCommand::KillWindow)
            } else if c == ',' {
                Some(TmuxPrefixCommand::RenameWindow)
            } else if '0' <= c && c <= '9' {
                Some(TmuxPrefixCommand::SelectWindow(c as u32 - '0' as u32))
            } else if c == 'l' {
                Some(TmuxPrefixCommand::LastWindow)
            } else if c == 'w' {
                Some(TmuxPrefixCommand::ListWindows)
            } else if c == '%' {
                Some(TmuxPrefixCommand::SplitHorizontal)
            } else if c == '"' {
                Some(TmuxPrefixCommand::SplitVertical)
            } else if c == 'z' {
                Some(TmuxPrefixCommand::TogglePaneZoom)
            } else if c == 'o' {
                Some(TmuxPrefixCommand::NextPane)
            } else if c == 'X' {
                Some(TmuxPrefixCommand::KillPane)
            } else if c == '[' {
                Some(TmuxPrefixCommand::CopyMode)
            } else if c == ']' {
                Some(TmuxPrefixCommand::PasteBuffer)
            } else if c == '?' {
                Some(TmuxPrefixCommand::Help)
            } else if c == '{' {
                Some(TmuxPrefixCommand::SwapPaneUp)
            } else if c == '}' {
                Some(TmuxPrefixCommand::SwapPaneDown)
            } else if c == ':' {
                Some(TmuxPrefixCommand::CommandPrompt)
            } else if c == '$' {
                Some(TmuxPrefixCommand::RenameSession)
            } else {
                None
            }
        },
        _ => None,
    }
}

/// The byte the prefix key sends when it is typed twice.
pub fn tmux_prefix_bytes() -> (r: Vec<u8>)
    ensures
        r@ == seq![2u8],
{
    let mut v: Vec<u8> = Vec::new();
    v.push(2u8);
    assert(v@ =~= seq![2u8]);
    v
}

/// Ctrl with a character: letters give 1..=26, a few punctuation keys
/// give the other control bytes.
pub open spec fn control_char_spec(c: char) -> Option<Seq<u8>> {
    if 'a' <= c && c <= 'z' {
        Some(seq![(c as u32 - 'a' as u32 + 1) as u8])
    } else if 'A' <= c && c <= 'Z' {
        Some(seq![(c as u32 - 'A' as u32 + 1) as u8])
    } else if c == ' ' {
        Some(seq![0u8])
    } else if c == '[' {
        Some(seq![27u8])
    } else if c == '\\' {
        Some(seq![28u8])
    } else if c == ']' {
        Some(seq![29u8])
    } else if c == '^' {
        Some(seq![30u8])
    } else if c == '_' {
        Some(seq![31u8])
    } else if c == '?' {
        Some(seq![127u8])
    } else {
        None
    }
}

fn one(b: u8) -> (r: Vec<u8>)
    ensures
        r@ == seq![b],
{
    let mut v: Vec<u8> = Vec::new();
    v.push(b);
    assert(v@ =~= seq![b]);
    v
}

pub fn control_char_bytes(ch: char) -> (r: Option<Vec<u8>>)
    ensures
        match r {
            Some(v) => control_char_spec(ch) == Some(v@),
            None => control_char_spec(ch) is None,
        },
{
    if 'a' <= ch && ch <= 'z' {
        Some(one((ch as u32 - 'a' as u32 + 1) as u8))
    } else if 'A' <= ch && ch <= 'Z' {
        Some(one((ch as u32 - 'A' as u32 + 1) as u8))
    } else if ch == ' ' {
        Some(one(0u8))
    } else if ch == '[' {
        Some(one(27u8))
    } else if ch == '\\' {
        Some(one(28u8))
    } else if ch == ']' {
        Some(one(29u8))
    } else if ch == '^' {
        Some(one(30u8))
    } else if ch == '_' {
        Some(one(31u8))
    } else if ch == '?' {
        Some(one(127u8))
    } else {
        None
    }
}

/// The UTF-8 bytes of a character.
pub fn encoded_char_bytes(ch: char) -> (r: Vec<u8>)
    ensures
        r@ == vstd::utf8::encode_utf8(seq![ch]),
{
    let mut s = String::new();
    push_char(&mut s, ch);
    assert(s@ =~= seq![ch]);
    let mut v: Vec<u8> = Vec::new();
    extend_bytes(&mut v, s.as_str().as_bytes());
    v
}

fn bytes_of(b: &[u8]) -> (r: Vec<u8>)
    ensures
        r@ == b@,
{
    let mut v: Vec<u8> = Vec::new();
    extend_bytes(&mut v, b);
    v
}

/// The escape sequences of the function keys F1 to F12.
pub open spec fn function_key_spec(n: u8) -> Option<Seq<u8>> {
    if n == 1 {
        Some(seq![27u8, 79u8, 80u8])
    } else if n == 2 {
        Some(seq![27u8, 79u8, 81u8])
    } else if n == 3 {
        Some(seq![27u8, 79u8, 82u8])
    } else if n == 4 {
        Some(seq![27u8, 79u8, 83u8])
    } else if n == 5 {
        Some(seq![27u8, 91u8, 49u8, 53u8, 126u8])
    } else if n == 6 {
        Some(seq![27u8, 91u8, 49u8, 55u8, 126u8])
    } else if n == 7 {
        Some(seq![27u8, 91u8, 49u8, 56u8, 126u8])
    } else if n == 8 {
        Some(seq![27u8, 91u8, 49u8, 57u8, 126u8])
    } else if n == 9 {
        Some(seq![27u8, 91u8, 50u8, 48u8, 126u8])
    } else if n == 10 {
        Some(seq![27u8, 91u8, 50u8, 49u8, 126u8])
    } else if n == 11 {
        Some(seq![27u8, 91u8, 50u8, 51u8, 126u8])
    } else if n == 12 {
        Some(seq![27u8, 91u8, 50u8, 52u8, 126u8])
    } else {
        None
    }
}

pub fn function_key_bytes(n: u8) -> (r: Option<Vec<u8>>)
    ensures
        match r {
            Some(v) => function_key_spec(n) == Some(v@),
            None => function_key_spec(n) is None,
        },
{
    let r: Option<Vec<u8>> = if n == 1 {
        Some(bytes_of(&[27u8, 79u8, 80u8]))
    } else if n == 2 {
        Some(bytes_of(&[27u8, 79u8, 81u8]))
    } else if n == 3 {
        Some(bytes_of(&[27u8, 79u8, 82u8]))
    } else if n == 4 {
        Some(bytes_of(&[27u8, 79u8, 83u8]))
    } else if n == 5 {
        Some(bytes_of(&[27u8, 91u8, 49u8, 53u8, 126u8]))
    } else if n == 6 {
        Some(bytes_of(&[27u8, 91u8, 49u8, 55u8, 126u8]))
    } else if n == 7 {
        Some(bytes_of(&[27u8, 91u8, 49u8, 56u8, 126u8]))
    } else if n == 8 {
        Some(bytes_of(&[27u8, 91u8, 49u8, 57u8, 126u8]))
    } else if n == 9 {
        Some(bytes_of(&[27u8, 91u8, 50u8, 48u8, 126u8]))
    } else if n == 10 {
        Some(bytes_of(&[27u8, 91u8, 50u8, 49u8, 126u8]))
    } else if n == 11 {
        Some(bytes_of(&[27u8, 91u8, 50u8, 51u8, 126u8]))
    } else if n == 12 {
        Some(bytes_of(&[27u8, 91u8, 50u8, 52u8, 126u8]))
    } else {
        None
    };
    assert(r is Some ==> function_key_spec(n).unwrap() =~= r.unwrap()@);
    r
}

/// A character key: Alt adds a leading escape; with Ctrl it gives its
/// control byte (nothing when it has none), else its UTF-8 bytes.
pub open spec fn char_key_spec(c: char, m: KeyModifiers) -> Option<Seq<u8>> {
    let lead: Seq<u8> = if m.alt { seq![27u8] } else { Seq::empty() };
    if m.control {
        match control_char_spec(c) {
            Some(b) => Some(lead + b),
            None => None,
        }
    } else {
        Some(lead + vstd::utf8::encode_utf8(seq![c]))
    }
}

pub fn char_key_bytes(ch: char, modifiers: KeyModifiers) -> (r: Option<Vec<u8>>)
    ensures
        match r {
            Some(v) => char_key_spec(ch, modifiers) == Some(v@),
            None => char_key_spec(ch, modifiers) is None,
        },
{
    let mut bytes: Vec<u8> = Vec::new();
    if modifiers.alt {
        bytes.push(27u8);
    }
    let ghost lead = bytes@;
    if modifiers.control {
        match control_char_bytes(ch) {
            Some(c) => extend_bytes(&mut bytes, &c),
            None => return None,
        }
    } else {
        let e = encoded_char_bytes(ch);
        extend_bytes(&mut bytes, &e);
    }
    proof {
        if modifiers.alt {
            assert(lead =~= seq![27u8]);
        } else {
            assert(lead =~= Seq::<u8>::empty());
        }
    }
    Some(bytes)
}

/// The bytes a key sends to the session, if any.
pub open spec fn key_event_spec(key: KeyInput) -> Option<Seq<u8>> {
    if !is_press(key) {
        None
    } else {
        match key.code {
            KeyCode::Backspace => Some(seq![127u8]),
            KeyCode::Enter => Some(seq![13u8]),
            KeyCode::Left => Some(seq![27u8, 91u8, 68u8]),
            KeyCode::Right => Some(seq![27u8, 91u8, 67u8]),
            KeyCode::Up => Some(seq![27u8, 91u8, 65u8]),
            KeyCode::Down => Some(seq![27u8, 91u8, 66u8]),
            KeyCode::Home => Some(seq![27u8, 91u8, 72u8]),
            KeyCode::End => Some(seq![27u8, 91u8, 70u8]),
            KeyCode::PageUp => Some(seq![27u8, 91u8, 53u8, 126u8]),
            KeyCode::PageDown => Some(seq![27u8, 91u8, 54u8, 126u8]),
            KeyCode::Tab => Some(seq![9u8]),
            KeyCode::BackTab => Some(seq![27u8, 91u8, 90u8]),
            KeyCode::Delete => Some(seq![27u8, 91u8, 51u8, 126u8]),
            KeyCode::Insert => Some(seq![27u8, 91u8, 50u8, 126u8]),
            KeyCode::Esc => Some(seq![27u8]),
            KeyCode::Char(c) => char_key_spec(c, key.modifiers),
            KeyCode::F(n) => function_key_spec(n),
            KeyCode::Other => None,
        }
    }
}

pub fn key_event_bytes(key: &KeyInput) -> (r: Option<Vec<u8>>)
    ensures
        match r {
            Some(v) => key_event_spec(*key) == Some(v@),
            None => key_event_spec(*key) is None,
        },
{
    if !is_key_press(key) {
        return None;
    }
    let r: Option<Vec<u8>> = match key.code {
        KeyCode::Backspace => Some(bytes_of(&[127u8])),
        KeyCode::Enter => Some(bytes_of(&[13u8])),
        KeyCode::Left => Some(bytes_of(&[27u8, 91u8, 68u8])),
        KeyCode::Right => Some(bytes_of(&[27u8, 91u8, 67u8])),
        KeyCode::Up => Some(bytes_of(&[27u8, 91u8, 65u8])),
        KeyCode::Down => Some(bytes_of(&[27u8, 91u8, 66u8])),
        KeyCode::Home => Some(bytes_of(&[27u8, 91u8, 72u8])),
        KeyCode::End => Some(bytes_of(&[27u8, 91u8, 70u8])),
        KeyCode::PageUp => Some(bytes_of(&[27u8, 91u8, 53u8, 126u8])),
        KeyCode::PageDown => Some(bytes_of(&[27u8, 91u8, 54u8, 126u8])),
        KeyCode::Tab => Some(bytes_of(&[9u8])),
        KeyCode::BackTab => Some(bytes_of(&[27u8, 91u8, 90u8])),
        KeyCode::Delete => Some(bytes_of(&[27u8, 91u8, 51u8, 126u8])),
        KeyCode::Insert => Some(bytes_of(&[27u8, 91u8, 50u8, 126u8])),
        KeyCode::Esc => Some(bytes_of(&[27u8])),
        KeyCode::Char(c) => return char_key_bytes(c, key.modifiers),
        KeyCode::F(n) => return function_key_bytes(n),
        KeyCode::Other => None,
    };
    assert(r is Some ==> key_event_spec(*key).unwrap() =~= r.unwrap()@);
    r
}

} // verus!
