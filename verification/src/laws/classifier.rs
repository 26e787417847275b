//! What holds of the classifier.

use crate::command::{arguments, parse, Command, ParseErrorView};
use crate::intent::IntentView;
use crate::message::MessageView;
use vstd::prelude::*;

verus! {

/// A message that holds a mention is a mention, whatever its text says and
/// also where it has none, unless its text is a known command.
pub proof fn mention_is_recognised(msg: MessageView, bot_name: Seq<char>)
    requires
        msg.has_mention(),
        msg.command(bot_name) is None,
    ensures
        msg.intent(bot_name) == IntentView::Mention,
{
}

/// A message without text is never a command: with a mention it is a
/// mention, without one it is ignored.
pub proof fn textless_message_goes_by_entities(msg: MessageView, bot_name: Seq<char>)
    requires
        msg.text is None,
    ensures
        msg.has_mention() ==> msg.intent(bot_name) == IntentView::Mention,
        !msg.has_mention() ==> msg.intent(bot_name) == IntentView::Ignore,
{
}

/// A message whose text parses to a known command is that command, with or
/// without a mention among its entities: the command goes first.
pub proof fn command_goes_before_mention(
    msg: MessageView,
    bot_name: Seq<char>,
    text: Seq<char>,
    command: Command,
)
    requires
        msg.text == Some(text),
        parse(text, bot_name) == Ok::<Command, ParseErrorView>(command),
    ensures
        msg.intent(bot_name) == (IntentView::Command { name: command, args: arguments(text) }),
{
}

/// A message that is neither a known command nor holds a mention is ignored.
pub proof fn all_else_is_ignored(msg: MessageView, bot_name: Seq<char>)
    requires
        msg.command(bot_name) is None,
        !msg.has_mention(),
    ensures
        msg.intent(bot_name) == IntentView::Ignore,
{
}

/// Every message has exactly one intent, and the three shut each other out.
pub proof fn intents_are_exclusive(msg: MessageView, bot_name: Seq<char>)
    ensures
        msg.intent(bot_name) is Command <==> msg.command(bot_name) is Some,
        msg.intent(bot_name) is Mention <==> msg.command(bot_name) is None && msg.has_mention(),
        msg.intent(bot_name) is Ignore <==> msg.command(bot_name) is None && !msg.has_mention(),
{
}

} // verus!
