use mention_relay::command::Command;
use mention_relay::intent::{classify, Intent};
use mention_relay::message::{
    extract_message_text, is_mention_message, EntityKind, InboundMessage, MessageEntity,
};

fn entity(kind: EntityKind) -> MessageEntity {
    MessageEntity { kind, offset: 0, length: 4 }
}

fn message(text: Option<&str>, kinds: &[EntityKind]) -> InboundMessage {
    InboundMessage {
        chat_id: 7,
        text: text.map(|t| t.to_string()),
        entities: kinds.iter().map(|k| entity(*k)).collect(),
    }
}

#[test]
fn mention_entity_makes_a_mention() {
    let msg = message(Some("@bot what's the weather"), &[EntityKind::Mention]);
    assert_eq!(classify(&msg, "bot"), Intent::Mention);
}

#[test]
fn mention_is_found_among_other_entities() {
    let msg = message(
        Some("see #this and @bot"),
        &[EntityKind::Hashtag, EntityKind::Bold, EntityKind::Mention, EntityKind::Url],
    );
    assert!(is_mention_message(&msg));
    assert_eq!(classify(&msg, "bot"), Intent::Mention);
}

#[test]
fn mention_without_text_is_still_a_mention() {
    let msg = message(None, &[EntityKind::Mention]);
    assert!(is_mention_message(&msg));
    assert_eq!(classify(&msg, "bot"), Intent::Mention);
}

#[test]
fn text_mention_is_no_mention() {
    let msg = message(Some("hello you"), &[EntityKind::TextMention, EntityKind::BotCommand]);
    assert!(!is_mention_message(&msg));
    assert_eq!(classify(&msg, "bot"), Intent::Ignore);
}

#[test]
fn no_entities_means_no_mention() {
    assert!(!is_mention_message(&message(Some("@bot hi"), &[])));
}

#[test]
fn command_is_classified_with_its_name_and_arguments() {
    let msg = message(Some("/start"), &[EntityKind::BotCommand]);
    assert_eq!(
        classify(&msg, "bot"),
        Intent::Command { name: Command::Start, args: String::new() }
    );
    let msg = message(Some("/help me out"), &[]);
    assert_eq!(
        classify(&msg, "bot"),
        Intent::Command { name: Command::Help, args: "me out".to_string() }
    );
}

#[test]
fn command_goes_before_mention() {
    let msg = message(Some("/start @bot"), &[EntityKind::BotCommand, EntityKind::Mention]);
    assert_eq!(
        classify(&msg, "bot"),
        Intent::Command { name: Command::Start, args: "@bot".to_string() }
    );
}

#[test]
fn command_for_another_bot_falls_through_to_the_entities() {
    let with_mention = message(Some("/start@other"), &[EntityKind::Mention]);
    assert_eq!(classify(&with_mention, "bot"), Intent::Mention);
    let without = message(Some("/start@other"), &[EntityKind::BotCommand]);
    assert_eq!(classify(&without, "bot"), Intent::Ignore);
}

#[test]
fn unknown_command_without_mention_is_ignored() {
    assert_eq!(classify(&message(Some("/stop"), &[EntityKind::BotCommand]), "bot"), Intent::Ignore);
}

#[test]
fn plain_text_is_ignored() {
    assert_eq!(classify(&message(Some("hello"), &[]), "bot"), Intent::Ignore);
}

#[test]
fn message_without_text_or_mention_is_ignored() {
    assert_eq!(classify(&message(None, &[]), "bot"), Intent::Ignore);
    assert_eq!(classify(&message(None, &[EntityKind::Url]), "bot"), Intent::Ignore);
}

#[test]
fn text_is_passed_on_as_it_is() {
    let msg = message(Some("@bot what's the weather"), &[EntityKind::Mention]);
    assert_eq!(extract_message_text(&msg), "@bot what's the weather");
    assert_eq!(extract_message_text(&message(Some(""), &[])), "");
}

#[test]
fn missing_text_becomes_the_placeholder() {
    assert_eq!(extract_message_text(&message(None, &[EntityKind::Mention])), "Hello");
}

#[test]
fn cloned_message_equals_its_source() {
    let msg = message(Some("@bot hi"), &[EntityKind::Mention, EntityKind::Italic]);
    assert_eq!(msg.clone(), msg);
    let intent = classify(&message(Some("/help a b"), &[]), "bot");
    assert_eq!(intent.clone(), intent);
}
