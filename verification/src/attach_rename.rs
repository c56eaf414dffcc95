//! The rename prompts of an attached client.
use vstd::prelude::*;

use crate::attach_keys::{KeyCode, KeyInput};
use crate::text::{chars_of, concat2, push_char, string_of, trim, trim_chars};

verus! {

/// What the rename prompt renames.
#[derive(Clone, Copy, Debug, PartialEq, Eq, Structural)]
pub enum RenameTarget {
    Session,
    Window,
}

/// What a key did in the rename prompt.
pub enum RenameStep {
    /// Enter: rename to this name (nothing when it is blank), then show
    /// the current status again.
    Submit(Option<String>),
    /// Esc: show the current status again.
    Cancel,
    /// The text changed: show this prompt.
    Render(String),
    /// Nothing happened.
    Ignore,
}

pub open spec fn rename_prompt_spec(target: RenameTarget, input: Seq<char>) -> Seq<char> {
    match target {
        RenameTarget::Session => "tmux rename-session | "@ + input,
        RenameTarget::Window => "tmux rename | "@ + input,
    }
}

pub fn rename_prompt(target: RenameTarget, input: &str) -> (r: String)
    ensures
        r@ == rename_prompt_spec(target, input@),
{
    match target {
        RenameTarget::Session => concat2("tmux rename-session | ", input),
        RenameTarget::Window => concat2("tmux rename | ", input),
    }
}

/// Applies a key to the rename prompt text.
pub fn handle_rename_input(key: &KeyInput, target: RenameTarget, input: &mut String) -> (r: RenameStep)
    ensures
        match key.code {
            KeyCode::Enter => *final(input) == *old(input) && (r matches RenameStep::Submit(name) && match name {
                Some(n) => n@ == trim(old(input)@) && trim(old(input)@).len() > 0,
                None => trim(old(input)@).len() == 0,
            }),
            KeyCode::Esc => *final(input) == *old(input) && r is Cancel,
            KeyCode::Backspace => final(input)@ == (if old(input)@.len() > 0 {
                old(input)@.drop_last()
            } else {
                old(input)@
            }) && (r matches RenameStep::Render(p) && p@ == rename_prompt_spec(target, final(input)@)),
            KeyCode::Char(c) => if !key.modifiers.control && !key.modifiers.alt {
                final(input)@ == old(input)@.push(c) && (r matches RenameStep::Render(p) && p@
                    == rename_prompt_spec(target, final(input)@))
            } else {
                *final(input) == *old(input) && r is Ignore
            },
            _ => *final(input) == *old(input) && r is Ignore,
        },
{
    match key.code {
        KeyCode::Enter => {
            let name = trim_chars(&chars_of(input.as_str()));
            if name.len() == 0 {
                RenameStep::Submit(None)
            } else {
                RenameStep::Submit(Some(string_of(&name)))
            }
        },
        KeyCode::Esc => RenameStep::Cancel,
        KeyCode::Backspace => {
            let mut cs = chars_of(input.as_str());
            if cs.len() > 0 {
                cs.pop();
            }
            *input = string_of(&cs);
            RenameStep::Render(rename_prompt(target, input.as_str()))
        },
        KeyCode::Char(c) => {
            if !key.modifiers.control && !key.modifiers.alt {
                push_char(input, c);
                RenameStep::Render(rename_prompt(target, input.as_str()))
            } else {
                RenameStep::Ignore
            }
        },
        _ => RenameStep::Ignore,
    }
}

} // verus!
