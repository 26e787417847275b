//! The router: one inbound message goes to exactly one of the command
//! handler, the mention handler, or nowhere.

use crate::config::{BotConfig, ConfigView};
use crate::flow::{rest, ActionView, Stage, StageView, Transition, TransitionView};
use crate::handlers::{handle_command, handle_mention, mention_opening};
use crate::intent::{classify, Intent, IntentView};
use crate::message::{InboundMessage, MessageView};
use vstd::prelude::*;

verus! {

/// The first step for a command: the greeting goes out to the conversation.
pub open spec fn command_opening(chat_id: i64, greeting: Seq<char>) -> TransitionView {
    TransitionView {
        stage: StageView::AwaitDelivery,
        log: None,
        action: Some(ActionView::SendText { chat_id, text: greeting }),
    }
}

/// The first step for a message, chosen by what it asks of the bot named
/// `bot_name`.
pub open spec fn routed(msg: MessageView, config: ConfigView, bot_name: Seq<char>) -> TransitionView {
    match msg.intent(bot_name) {
        IntentView::Command { .. } => command_opening(msg.chat_id, config.greeting_message),
        IntentView::Mention => mention_opening(msg, config.llm_model_name),
        IntentView::Ignore => rest(StageView::Done),
    }
}

/// Routes `msg`: classifies it for the bot named `bot_name` and takes the
/// first step of the handler it belongs to.
pub fn route(msg: &InboundMessage, config: &BotConfig, bot_name: &str) -> (step: Transition)
    ensures
        step@ == routed(msg@, config@, bot_name@),
{
    match classify(msg, bot_name) {
        Intent::Command { name, args: _ } => Transition {
            stage: Stage::AwaitDelivery,
            log: None,
            action: Some(handle_command(msg, name, config.greeting_message())),
        },
        Intent::Mention => handle_mention(msg, config),
        Intent::Ignore => Transition { stage: Stage::Done, log: None, action: None },
    }
}

} // verus!
