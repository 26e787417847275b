//! What holds of the command grammar.

use crate::command::{
    addressee, after, arguments, before, command_word, head, lemma_first_index_of, parse,
    same_ignoring_ascii_case, Command, ParseErrorView,
};
use vstd::prelude::*;

verus! {

/// The words `/help` and `/start`, alone or followed by a space and
/// anything, are their commands for every bot, and what follows the space
/// are the arguments.
pub proof fn known_words_are_commands(rest: Seq<char>, bot_name: Seq<char>)
    ensures
        parse("/help"@, bot_name) == Ok::<Command, ParseErrorView>(Command::Help),
        parse("/start"@, bot_name) == Ok::<Command, ParseErrorView>(Command::Start),
        parse("/help"@ + seq![' '] + rest, bot_name) == Ok::<Command, ParseErrorView>(
            Command::Help,
        ),
        parse("/start"@ + seq![' '] + rest, bot_name) == Ok::<Command, ParseErrorView>(
            Command::Start,
        ),
        arguments("/help"@ + seq![' '] + rest) == rest,
        arguments("/start"@ + seq![' '] + rest) == rest,
{
    reveal_strlit("/help");
    reveal_strlit("/start");
    word_with_arguments("/help"@, rest);
    word_with_arguments("/start"@, rest);
}

/// A word that holds neither a space nor an `@` is the command word of
/// itself and of itself followed by a space and anything; neither text is
/// addressed to a bot.
proof fn word_with_arguments(word: Seq<char>, rest: Seq<char>)
    requires
        forall|i: int| 0 <= i < word.len() ==> word[i] != ' ' && word[i] != '@',
    ensures
        command_word(word) == word,
        addressee(word) is None,
        command_word(word + seq![' '] + rest) == word,
        addressee(word + seq![' '] + rest) is None,
        arguments(word + seq![' '] + rest) == rest,
{
    let n = word.len() as int;
    let text = word + seq![' '] + rest;
    lemma_first_index_of(word, ' ', n);
    lemma_first_index_of(word, '@', n);
    assert(head(word) =~= word);
    assert(command_word(word) =~= word);
    lemma_first_index_of(text, ' ', n);
    assert(head(text) =~= word);
    assert(command_word(text) =~= word);
    assert(arguments(text) =~= rest);
}

/// A command addressed to a bot by name is taken by the bot of that name,
/// whatever the case of its ASCII letters, and turned down by every other
/// bot, with the name it gave.
pub proof fn addressed_command_goes_to_its_bot(name: Seq<char>, bot_name: Seq<char>)
    requires
        forall|i: int| 0 <= i < name.len() ==> name[i] != ' ' && name[i] != '@',
    ensures
        parse("/help"@ + seq!['@'] + name, bot_name) == (if same_ignoring_ascii_case(
            name,
            bot_name,
        ) {
            Ok::<Command, ParseErrorView>(Command::Help)
        } else {
            Err::<Command, ParseErrorView>(ParseErrorView::WrongBotName(name))
        }),
        parse("/start"@ + seq!['@'] + name, bot_name) == (if same_ignoring_ascii_case(
            name,
            bot_name,
        ) {
            Ok::<Command, ParseErrorView>(Command::Start)
        } else {
            Err::<Command, ParseErrorView>(ParseErrorView::WrongBotName(name))
        }),
{
    reveal_strlit("/help");
    reveal_strlit("/start");
    word_with_addressee("/help"@, name);
    word_with_addressee("/start"@, name);
}

/// A word followed by `@` and a name, neither of which holds a space or an
/// `@`, has the word as its command word and the name as its addressee.
proof fn word_with_addressee(word: Seq<char>, name: Seq<char>)
    requires
        forall|i: int| 0 <= i < word.len() ==> word[i] != ' ' && word[i] != '@',
        forall|i: int| 0 <= i < name.len() ==> name[i] != ' ' && name[i] != '@',
    ensures
        command_word(word + seq!['@'] + name) == word,
        addressee(word + seq!['@'] + name) == Some(name),
{
    let n = word.len() as int;
    let text = word + seq!['@'] + name;
    lemma_first_index_of(text, ' ', text.len() as int);
    assert(head(text) =~= text);
    lemma_first_index_of(text, '@', n);
    assert(command_word(text) =~= word);
    assert(after(text, '@') =~= name);
    lemma_first_index_of(name, '@', name.len() as int);
    assert(before(name, '@') =~= name);
}

} // verus!
