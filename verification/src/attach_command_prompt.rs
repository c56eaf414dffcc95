//! The `:` command prompt of an attached client.
use vstd::prelude::*;

use crate::attach_keys::{is_key_press, is_press, KeyInput};
use crate::attach_prompt::{edit_prompt, edit_prompt_spec, PromptAction};
use crate::text::{chars_of, concat2, is_blank, trim};

verus! {

/// What the client does after a key reached the command prompt.
pub enum CommandStep {
    /// The prompt is closed: the key goes on to normal handling, after the
    /// current status is shown again when `refresh` is set.
    Inactive { refresh: bool },
    /// Handled, nothing to show.
    Continue,
    /// Handled; show this status text.
    Render(String),
    /// Handled; show the current status again.
    RenderCurrent,
    /// Run this command line (see `plan_attached_command`).
    Execute(String),
}

pub open spec fn command_prompt_spec(input: Seq<char>) -> Seq<char> {
    "tmux : "@ + input
}

pub fn command_prompt_hint(input: &str) -> (r: String)
    ensures
        r@ == command_prompt_spec(input@),
{
    concat2("tmux : ", input)
}

/// The command prompt: its text while open, and the error left by the
/// last command.
pub struct CommandPromptState {
    pub input: Option<String>,
    pub message: Option<String>,
}

impl CommandPromptState {
    pub fn new() -> (r: CommandPromptState)
        ensures
            r.input is None,
            r.message is None,
    {
        CommandPromptState { input: None, message: None }
    }

    /// Opens the prompt; gives the status line to show.
    pub fn begin(&mut self) -> (r: String)
        ensures
            final(self).input matches Some(i) && i@.len() == 0,
            final(self).message is None,
            r@ == command_prompt_spec(Seq::empty()),
    {
        self.message = None;
        let empty = String::new();
        let r = command_prompt_hint(empty.as_str());
        self.input = Some(empty);
        r
    }

    pub fn is_active(&self) -> (r: bool)
        ensures
            r == self.input is Some,
    {
        self.input.is_some()
    }

    /// The status line the prompt wants shown, if any.
    pub fn status_override(&self) -> (r: Option<String>)
        ensures
            match self.input {
                Some(i) => r matches Some(s) && s@ == command_prompt_spec(i@),
                None => match self.message {
                    Some(m) => r matches Some(s) && s@ == m@,
                    None => r is None,
                },
            },
    {
        match &self.input {
            Some(i) => Some(command_prompt_hint(i.as_str())),
            None => match &self.message {
                Some(m) => Some(m.clone()),
                None => None,
            },
        }
    }

    /// Applies a key to the prompt.
    pub fn handle_key(&mut self, key: &KeyInput) -> (r: CommandStep)
        ensures
            !is_press(*key) ==> *final(self) == *old(self) && (if old(self).input is Some {
                r is Continue
            } else {
                r matches CommandStep::Inactive { refresh } && !refresh
            }),
            is_press(*key) && old(self).input is None ==> final(self).input is None && final(self).message is None
                && (r matches CommandStep::Inactive { refresh } && refresh == old(self).message is Some),
            is_press(*key) && old(self).input is Some ==> {
                let (text, action) = edit_prompt_spec(*key, old(self).input.unwrap()@);
                match action {
                    None => (final(self).input matches Some(i) && i@ == text) && (r matches CommandStep::Render(s)
                        && s@ == command_prompt_spec(text)),
                    Some(None) => final(self).input is None && r is RenderCurrent,
                    Some(Some(line)) => final(self).input is None && (if trim(line).len() == 0 {
                        r is RenderCurrent
                    } else {
                        r matches CommandStep::Execute(s) && s@ == line
                    }),
                }
            },
    {
        if !is_key_press(key) {
            return if self.input.is_some() {
                CommandStep::Continue
            } else {
                CommandStep::Inactive { refresh: false }
            };
        }
        let mut input = match self.input.take() {
            Some(i) => i,
            None => {
                let had = self.message.is_some();
                self.message = None;
                return CommandStep::Inactive { refresh: had };
            },
        };
        match edit_prompt(key, &mut input) {
            PromptAction::Editing => {
                let s = command_prompt_hint(input.as_str());
                self.input = Some(input);
                CommandStep::Render(s)
            },
            PromptAction::Cancel => CommandStep::RenderCurrent,
            PromptAction::Execute(line) => {
                let cs = chars_of(line.as_str());
                if is_blank(&cs) {
                    proof {
                        crate::text::lemma_blank_iff_trim_empty(line@);
                    }
                    CommandStep::RenderCurrent
                } else {
                    proof {
                        crate::text::lemma_blank_iff_trim_empty(line@);
                    }
                    CommandStep::Execute(line)
                }
            },
        }
    }

    /// Records the error of a command, to be shown on the status line.
    pub fn fail(&mut self, message: String)
        ensures
            final(self).message == Some(message),
            final(self).input == old(self).input,
    {
        self.message = Some(message);
    }
}

} // verus!
