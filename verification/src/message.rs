//! Inbound messages as the relay reads them: the conversation they come
//! from, their text where they have one, and the entities the platform
//! marked in it.

use vstd::prelude::*;
use vstd::string::*;

verus! {

/// What kind of span an entity marks.
#[derive(Clone, Copy, Debug, PartialEq, Eq)]
pub enum EntityKind {
    Mention,
    Hashtag,
    Cashtag,
    BotCommand,
    Url,
    Email,
    PhoneNumber,
    Bold,
    Blockquote,
    ExpandableBlockquote,
    Italic,
    Underline,
    Strikethrough,
    Spoiler,
    Code,
    Pre,
    TextLink,
    TextMention,
    CustomEmoji,
}

/// A span of a message's text, marked by the platform. Offset and length
/// count UTF-16 code units, as the platform does.
#[derive(Clone, Copy, Debug, PartialEq, Eq)]
pub struct MessageEntity {
    pub kind: EntityKind,
    pub offset: usize,
    pub length: usize,
}

/// One message from the platform.
#[derive(Debug, PartialEq, Eq)]
pub struct InboundMessage {
    /// The conversation the message came from, and where replies go.
    pub chat_id: i64,
    /// The text; `None` for a message that is no text message.
    pub text: Option<String>,
    /// The entities of the text, in the order given.
    pub entities: Vec<MessageEntity>,
}

/// A message as contracts see it.
pub struct MessageView {
    pub chat_id: i64,
    pub text: Option<Seq<char>>,
    pub entities: Seq<MessageEntity>,
}

impl View for InboundMessage {
    type V = MessageView;

    open spec fn view(&self) -> MessageView {
        MessageView {
            chat_id: self.chat_id,
            text: match self.text {
                Some(text) => Some(text@),
                None => None,
            },
            entities: self.entities@,
        }
    }
}

impl Clone for InboundMessage {
    fn clone(&self) -> (copy: InboundMessage)
        ensures
            copy@ == self@,
    {
        let text = match &self.text {
            Some(text) => Some(text.clone()),
            None => None,
        };
        let mut entities: Vec<MessageEntity> = Vec::new();
        let mut i: usize = 0;
        while i < self.entities.len()
            invariant
                0 <= i <= self.entities@.len(),
                entities@ == self.entities@.take(i as int),
            decreases self.entities@.len() - i,
        {
            entities.push(self.entities[i]);
            i += 1;
        }
        assert(entities@ =~= self.entities@);
        InboundMessage { chat_id: self.chat_id, text, entities }
    }
}

/// The text taken for a message that has none.
pub open spec fn placeholder() -> Seq<char> {
    "Hello"@
}

impl MessageView {
    /// The text put to the completion service for this message.
    pub open spec fn text_or_placeholder(self) -> Seq<char> {
        match self.text {
            Some(text) => text,
            None => placeholder(),
        }
    }

    /// Whether one of the entities is a mention.
    pub open spec fn has_mention(self) -> bool {
        exists|i: int| 0 <= i < self.entities.len() && (#[trigger] self.entities[i]).kind is Mention
    }
}

/// The text of `msg`, or the placeholder where it has none.
pub fn extract_message_text(msg: &InboundMessage) -> (text: String)
    ensures
        text@ == msg@.text_or_placeholder(),
{
    match &msg.text {
        Some(text) => text.clone(),
        None => String::from_str("Hello"),
    }
}

/// Whether `msg` holds a mention. Only the kinds of its entities count, not
/// its text.
pub fn is_mention_message(msg: &InboundMessage) -> (found: bool)
    ensures
        found == msg@.has_mention(),
{
    let mut i: usize = 0;
    while i < msg.entities.len()
        invariant
            0 <= i <= msg.entities@.len(),
            forall|j: int| 0 <= j < i ==> !((#[trigger] msg.entities@[j]).kind is Mention),
        decreases msg.entities@.len() - i,
    {
        if let EntityKind::Mention = msg.entities[i].kind {
            return true;
        }
        i += 1;
    }
    false
}

} // verus!
