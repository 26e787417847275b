//! The two handlers: a command is answered with the greeting, a mention
//! opens an exchange with the completion service.

use crate::command::Command;
use crate::completion::{CompletionRequest, RequestView};
use crate::config::BotConfig;
use crate::flow::{Action, ActionView, Stage, StageView, Transition, TransitionView};
use crate::message::{extract_message_text, InboundMessage, MessageView};
use vstd::prelude::*;
use vstd::string::*;

verus! {

/// Answers a command: the greeting, to the conversation the command came
/// from. Every known command is answered alike.
pub fn handle_command(msg: &InboundMessage, command: Command, greeting: &str) -> (reply: Action)
    ensures
        reply@ == (ActionView::SendText { chat_id: msg@.chat_id, text: greeting@ }),
{
    match command {
        Command::Help | Command::Start => Action::SendText {
            chat_id: msg.chat_id,
            text: greeting.to_owned(),
        },
    }
}

/// What a mention asks of the completion service: the text of the message,
/// or the placeholder where it has none, put to `model`.
pub open spec fn mention_request(msg: MessageView, model: Seq<char>) -> RequestView {
    RequestView { model, text: msg.text_or_placeholder() }
}

/// The first step for a mention: the typing signal goes out to the
/// conversation, and the request waits for it to be through.
pub open spec fn mention_opening(msg: MessageView, model: Seq<char>) -> TransitionView {
    TransitionView {
        stage: StageView::AwaitSignal {
            chat_id: msg.chat_id,
            request: mention_request(msg, model),
        },
        log: None,
        action: Some(ActionView::SignalTyping { chat_id: msg.chat_id }),
    }
}

/// Handles a mention: makes the request for the configured model and opens
/// the exchange with the typing signal.
pub fn handle_mention(msg: &InboundMessage, config: &BotConfig) -> (step: Transition)
    ensures
        step@ == mention_opening(msg@, config@.llm_model_name),
{
    let text = extract_message_text(msg);
    let request = CompletionRequest::new(config.llm_model_name(), text.as_str()).unwrap();
    Transition {
        stage: Stage::AwaitSignal { chat_id: msg.chat_id, request },
        log: None,
        action: Some(Action::SignalTyping { chat_id: msg.chat_id }),
    }
}

} // verus!
