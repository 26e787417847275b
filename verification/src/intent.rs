//! The classifier: what an inbound message asks of the bot.

use crate::command::{arguments, command_arguments, parse, parse_command, Command};
use crate::message::{is_mention_message, InboundMessage, MessageView};
use vstd::prelude::*;

verus! {

/// What a message asks of the bot.
#[derive(Debug, PartialEq, Eq)]
pub enum Intent {
    /// A known command, with the arguments that follow it.
    Command { name: Command, args: String },
    /// No command, but the message mentions someone.
    Mention,
    /// Nothing for the bot.
    Ignore,
}

/// An intent as contracts see it.
pub enum IntentView {
    Command { name: Command, args: Seq<char> },
    Mention,
    Ignore,
}

impl View for Intent {
    type V = IntentView;

    open spec fn view(&self) -> IntentView {
        match *self {
            Intent::Command { name, args } => IntentView::Command { name, args: args@ },
            Intent::Mention => IntentView::Mention,
            Intent::Ignore => IntentView::Ignore,
        }
    }
}

impl Clone for Intent {
    fn clone(&self) -> (copy: Intent)
        ensures
            copy@ == self@,
    {
        match self {
            Intent::Command { name, args } => Intent::Command { name: *name, args: args.clone() },
            Intent::Mention => Intent::Mention,
            Intent::Ignore => Intent::Ignore,
        }
    }
}

impl MessageView {
    /// The known command that the text of the message parses to, for the
    /// bot named `bot_name`. A message without text, and one whose text does
    /// not parse, holds none.
    pub open spec fn command(self, bot_name: Seq<char>) -> Option<Command> {
        match self.text {
            Some(text) => match parse(text, bot_name) {
                Ok(command) => Some(command),
                Err(_) => None,
            },
            None => None,
        }
    }

    /// What the message asks of the bot named `bot_name`. A command goes
    /// before a mention: a message that is both counts as the command.
    pub open spec fn intent(self, bot_name: Seq<char>) -> IntentView {
        match self.command(bot_name) {
            Some(name) => IntentView::Command { name, args: arguments(self.text.unwrap()) },
            None => if self.has_mention() {
                IntentView::Mention
            } else {
                IntentView::Ignore
            },
        }
    }
}

/// Classifies `msg` for the bot named `bot_name`.
pub fn classify(msg: &InboundMessage, bot_name: &str) -> (intent: Intent)
    ensures
        intent@ == msg@.intent(bot_name@),
{
    if let Some(text) = &msg.text {
        if let Ok(name) = parse_command(text.as_str(), bot_name) {
            return Intent::Command { name, args: command_arguments(text.as_str()) };
        }
    }
    if is_mention_message(msg) {
        Intent::Mention
    } else {
        Intent::Ignore
    }
}

} // verus!
