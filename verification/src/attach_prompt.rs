//! Line editing in the status-line prompts of an attached client.
use vstd::prelude::*;

use crate::attach_keys::{KeyCode, KeyInput};
use crate::text::{chars_of, push_char, string_of};

verus! {

/// What a key did to a prompt.
pub enum PromptAction {
    Editing,
    Cancel,
    Execute(String),
}

/// What a key does to the prompt text `input`: the new text and whether
/// it cancels (`Some(None)`), submits (`Some(Some(text))`) or goes on
/// editing (`None`).
pub open spec fn edit_prompt_spec(key: KeyInput, input: Seq<char>) -> (Seq<char>, Option<Option<Seq<char>>>) {
    match key.code {
        KeyCode::Enter => (Seq::empty(), Some(Some(input))),
        KeyCode::Esc => (input, Some(None)),
        KeyCode::Backspace => (if input.len() > 0 { input.drop_last() } else { input }, None),
        KeyCode::Char(c) => if (c == 'c' || c == 'C') && key.modifiers.control {
            (input, Some(None))
        } else if (c == 'u' || c == 'U') && key.modifiers.control {
            (Seq::empty(), None)
        } else if !key.modifiers.control && !key.modifiers.alt {
            (input.push(c), None)
        } else {
            (input, None)
        },
        _ => (input, None),
    }
}

/// Applies one key to the prompt text.
pub fn edit_prompt(key: &KeyInput, input: &mut String) -> (r: PromptAction)
    ensures
        final(input)@ == edit_prompt_spec(*key, old(input)@).0,
        match edit_prompt_spec(*key, old(input)@).1 {
            None => r is Editing,
            Some(None) => r is Cancel,
            Some(Some(text)) => r matches PromptAction::Execute(t) && t@ == text,
        },
{
    match key.code {
        KeyCode::Enter => {
            let text = string_of(&chars_of(input.as_str()));
            *input = String::new();
            PromptAction::Execute(text)
        },
        KeyCode::Esc => PromptAction::Cancel,
        KeyCode::Backspace => {
            let mut cs = chars_of(input.as_str());
            if cs.len() > 0 {
                cs.pop();
            }
            *input = string_of(&cs);
            PromptAction::Editing
        },
        KeyCode::Char(c) => {
            if (c == 'c' || c == 'C') && key.modifiers.control {
                PromptAction::Cancel
            } else if (c == 'u' || c == 'U') && key.modifiers.control {
                *input = String::new();
                PromptAction::Editing
            } else if !key.modifiers.control && !key.modifiers.alt {
                push_char(input, c);
                PromptAction::Editing
            } else {
                PromptAction::Editing
            }
        },
        _ => PromptAction::Editing,
    }
}

} // verus!
