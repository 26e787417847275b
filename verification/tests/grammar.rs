use mention_relay::command::{command_arguments, parse_command, Command, ParseError};

#[test]
fn start_alone_is_the_start_command() {
    assert_eq!(parse_command("/start", "relaybot"), Ok(Command::Start));
}

#[test]
fn help_alone_is_the_help_command() {
    assert_eq!(parse_command("/help", "relaybot"), Ok(Command::Help));
}

#[test]
fn arguments_do_not_change_the_command() {
    assert_eq!(parse_command("/start now please", "relaybot"), Ok(Command::Start));
    assert_eq!(command_arguments("/start now please"), "now please");
}

#[test]
fn arguments_are_what_follows_the_first_space() {
    assert_eq!(command_arguments("/help"), "");
    assert_eq!(command_arguments("/help "), "");
    assert_eq!(command_arguments("/help  two"), " two");
    assert_eq!(command_arguments(""), "");
    assert_eq!(command_arguments("a b c"), "b c");
}

#[test]
fn command_words_are_matched_as_written() {
    assert_eq!(
        parse_command("/Start", "relaybot"),
        Err(ParseError::UnknownCommand("/Start".to_string()))
    );
    assert_eq!(
        parse_command("/HELP", "relaybot"),
        Err(ParseError::UnknownCommand("/HELP".to_string()))
    );
}

#[test]
fn unknown_words_are_turned_down_with_the_word() {
    assert_eq!(
        parse_command("/stop", "relaybot"),
        Err(ParseError::UnknownCommand("/stop".to_string()))
    );
    assert_eq!(
        parse_command("/starter", "relaybot"),
        Err(ParseError::UnknownCommand("/starter".to_string()))
    );
    assert_eq!(
        parse_command("start", "relaybot"),
        Err(ParseError::UnknownCommand("start".to_string()))
    );
    assert_eq!(
        parse_command("hello there", "relaybot"),
        Err(ParseError::UnknownCommand("hello".to_string()))
    );
}

#[test]
fn empty_text_is_no_command() {
    assert_eq!(parse_command("", "relaybot"), Err(ParseError::UnknownCommand(String::new())));
}

#[test]
fn leading_space_leaves_an_empty_head() {
    assert_eq!(
        parse_command(" /start", "relaybot"),
        Err(ParseError::UnknownCommand(String::new()))
    );
    assert_eq!(command_arguments(" /start"), "/start");
}

#[test]
fn only_a_space_ends_the_head() {
    assert_eq!(
        parse_command("/start\nnow", "relaybot"),
        Err(ParseError::UnknownCommand("/start\nnow".to_string()))
    );
    assert_eq!(
        parse_command("/start\tnow", "relaybot"),
        Err(ParseError::UnknownCommand("/start\tnow".to_string()))
    );
}

#[test]
fn command_addressed_to_this_bot_is_taken() {
    assert_eq!(parse_command("/start@relaybot", "relaybot"), Ok(Command::Start));
    assert_eq!(parse_command("/help@relaybot what now", "relaybot"), Ok(Command::Help));
}

#[test]
fn bot_names_agree_whatever_the_case_of_ascii_letters() {
    assert_eq!(parse_command("/start@RelayBot", "relaybot"), Ok(Command::Start));
    assert_eq!(parse_command("/start@relaybot", "RELAYBOT"), Ok(Command::Start));
}

#[test]
fn only_ascii_letters_are_folded() {
    assert_eq!(
        parse_command("/start@B\u{d6}T", "b\u{f6}t"),
        Err(ParseError::WrongBotName("B\u{d6}T".to_string()))
    );
    assert_eq!(parse_command("/start@B\u{f6}T", "b\u{f6}t"), Ok(Command::Start));
    assert_eq!(
        parse_command("/start@bot[", "bot{"),
        Err(ParseError::WrongBotName("bot[".to_string()))
    );
    assert_eq!(
        parse_command("/start@bot`", "bot@"),
        Err(ParseError::WrongBotName("bot`".to_string()))
    );
    assert_eq!(parse_command("/start@AZaz09_", "azAZ09_"), Ok(Command::Start));
}

#[test]
fn command_addressed_to_another_bot_is_turned_down() {
    assert_eq!(
        parse_command("/start@otherbot", "relaybot"),
        Err(ParseError::WrongBotName("otherbot".to_string()))
    );
    assert_eq!(
        parse_command("/start@relay", "relaybot"),
        Err(ParseError::WrongBotName("relay".to_string()))
    );
}

#[test]
fn wrong_bot_name_goes_before_unknown_command() {
    assert_eq!(
        parse_command("/stop@otherbot", "relaybot"),
        Err(ParseError::WrongBotName("otherbot".to_string()))
    );
    assert_eq!(
        parse_command("/stop@relaybot", "relaybot"),
        Err(ParseError::UnknownCommand("/stop".to_string()))
    );
}

#[test]
fn addressee_ends_at_the_second_at_sign() {
    assert_eq!(parse_command("/start@relaybot@elsewhere", "relaybot"), Ok(Command::Start));
    assert_eq!(
        parse_command("/start@@relaybot", "relaybot"),
        Err(ParseError::WrongBotName(String::new()))
    );
}

#[test]
fn empty_addressee_fits_only_a_nameless_bot() {
    assert_eq!(
        parse_command("/start@", "relaybot"),
        Err(ParseError::WrongBotName(String::new()))
    );
    assert_eq!(parse_command("/start@", ""), Ok(Command::Start));
}

#[test]
fn at_sign_after_the_first_space_belongs_to_the_arguments() {
    assert_eq!(parse_command("/start hi @otherbot", "relaybot"), Ok(Command::Start));
    assert_eq!(command_arguments("/start hi @otherbot"), "hi @otherbot");
}

#[test]
fn text_beyond_ascii_is_cut_by_characters() {
    assert_eq!(
        parse_command("\u{442}\u{435}\u{441}\u{442}@relaybot \u{1f600}", "relaybot"),
        Err(ParseError::UnknownCommand("\u{442}\u{435}\u{441}\u{442}".to_string()))
    );
    assert_eq!(command_arguments("\u{1f600}\u{1f600} \u{e9}t\u{e9}"), "\u{e9}t\u{e9}");
    assert_eq!(
        parse_command("/start@\u{1f600}", "relaybot"),
        Err(ParseError::WrongBotName("\u{1f600}".to_string()))
    );
}
