//! What the bot is set up with, once, before the first message.

use vstd::prelude::*;
use vstd::string::*;

verus! {

/// The settings as contracts see them.
pub struct ConfigView {
    pub greeting_message: Seq<char>,
    pub llm_model_name: Seq<char>,
}

/// The settings every handler reads: the greeting sent in answer to a
/// command, and the model put to the completion service. The model is never
/// empty. Nothing here changes after construction.
#[derive(Debug, PartialEq, Eq)]
pub struct BotConfig {
    greeting_message: String,
    llm_model_name: String,
}

impl View for BotConfig {
    type V = ConfigView;

    closed spec fn view(&self) -> ConfigView {
        ConfigView {
            greeting_message: self.greeting_message@,
            llm_model_name: self.llm_model_name@,
        }
    }
}

/// The greeting of a bot that was given none of its own.
pub open spec fn default_greeting(model: Seq<char>) -> Seq<char> {
    "Hello! I'm an AI assistant bot using "@ + model
        + ". Mention me (@bot_username) in a message to talk to me."@
}

impl Clone for BotConfig {
    fn clone(&self) -> (copy: BotConfig)
        ensures
            copy@ == self@,
    {
        proof {
            use_type_invariant(self);
        }
        BotConfig {
            greeting_message: self.greeting_message.clone(),
            llm_model_name: self.llm_model_name.clone(),
        }
    }
}

impl BotConfig {
    #[verifier::type_invariant]
    spec fn names_a_model(&self) -> bool {
        self.llm_model_name@.len() > 0
    }

    /// The settings for `model`, with `greeting` where one is given and the
    /// default greeting, which names the model, where none is. An empty
    /// model is turned down.
    pub fn new(model: String, greeting: Option<String>) -> (made: Option<BotConfig>)
        ensures
            made is None <==> model@.len() == 0,
            made matches Some(config) ==> config@ == (ConfigView {
                greeting_message: match greeting {
                    Some(words) => words@,
                    None => default_greeting(model@),
                },
                llm_model_name: model@,
            }),
    {
        if model.as_str().is_empty() {
            return None;
        }
        let greeting_message = match greeting {
            Some(words) => words,
            None => String::from_str("Hello! I'm an AI assistant bot using ").concat(
                model.as_str(),
            ).concat(". Mention me (@bot_username) in a message to talk to me."),
        };
        Some(BotConfig { greeting_message, llm_model_name: model })
    }

    /// The greeting sent in answer to a command.
    pub fn greeting_message(&self) -> (words: &str)
        ensures
            words@ == self@.greeting_message,
    {
        self.greeting_message.as_str()
    }

    /// The model put to the completion service; never empty.
    pub fn llm_model_name(&self) -> (model: &str)
        ensures
            model@ == self@.llm_model_name,
            model@.len() > 0,
    {
        proof {
            use_type_invariant(self);
        }
        self.llm_model_name.as_str()
    }
}

} // verus!
