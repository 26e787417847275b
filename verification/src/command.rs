//! The command grammar: a slash command at the start of a text, optionally
//! addressed to a bot by name, followed by its arguments.
//!
//! The text up to the first space is the head; what follows that space are
//! the arguments. In the head, the part before the first `@` is the command
//! word; the part between the first `@` and the next (or the end of the
//! head) names the bot addressed. A head addressed to another bot is turned
//! down before the command word is looked at.

use vstd::prelude::*;
use vstd::string::*;

verus! {

/// The commands the bot knows.
#[derive(Clone, Copy, Debug, PartialEq, Eq)]
pub enum Command {
    /// `/help`
    Help,
    /// `/start`
    Start,
}

/// Why a text is no command for this bot.
#[derive(Debug, PartialEq, Eq)]
pub enum ParseError {
    /// The command word is none of the known ones; the word.
    UnknownCommand(String),
    /// The head is addressed to another bot; the name it gives.
    WrongBotName(String),
}

/// A parse error as contracts see it.
pub enum ParseErrorView {
    UnknownCommand(Seq<char>),
    WrongBotName(Seq<char>),
}

impl View for ParseError {
    type V = ParseErrorView;

    open spec fn view(&self) -> ParseErrorView {
        match *self {
            ParseError::UnknownCommand(word) => ParseErrorView::UnknownCommand(word@),
            ParseError::WrongBotName(name) => ParseErrorView::WrongBotName(name@),
        }
    }
}

impl Clone for ParseError {
    fn clone(&self) -> (copy: ParseError)
        ensures
            copy@ == self@,
    {
        match self {
            ParseError::UnknownCommand(word) => ParseError::UnknownCommand(word.clone()),
            ParseError::WrongBotName(name) => ParseError::WrongBotName(name.clone()),
        }
    }
}

/// Where `c` first stands in `s`; the length of `s` where it stands nowhere.
pub open spec fn first_index_of(s: Seq<char>, c: char) -> int
    decreases s.len(),
{
    if s.len() == 0 || s[0] == c {
        0
    } else {
        1 + first_index_of(s.drop_first(), c)
    }
}

/// What stands in `s` before the first `c`; all of `s` where it holds none.
pub open spec fn before(s: Seq<char>, c: char) -> Seq<char> {
    s.take(first_index_of(s, c))
}

/// What stands in `s` after the first `c`; nothing where it holds none.
pub open spec fn after(s: Seq<char>, c: char) -> Seq<char> {
    if first_index_of(s, c) < s.len() {
        s.skip(first_index_of(s, c) + 1)
    } else {
        Seq::empty()
    }
}

/// The head of a text: what stands before its first space.
pub open spec fn head(text: Seq<char>) -> Seq<char> {
    before(text, ' ')
}

/// The arguments of a text: what stands after its first space.
pub open spec fn arguments(text: Seq<char>) -> Seq<char> {
    after(text, ' ')
}

/// The command word of a text: its head up to the first `@`.
pub open spec fn command_word(text: Seq<char>) -> Seq<char> {
    before(head(text), '@')
}

/// The bot a text addresses, where its head holds an `@`: what stands
/// between the first `@` and the next.
pub open spec fn addressee(text: Seq<char>) -> Option<Seq<char>> {
    if first_index_of(head(text), '@') < head(text).len() {
        Some(before(after(head(text), '@'), '@'))
    } else {
        None
    }
}

/// A character with the ASCII capitals mapped to their small letters.
pub open spec fn fold_ascii_case(c: char) -> int {
    if 'A' <= c <= 'Z' {
        c as int + 32
    } else {
        c as int
    }
}

/// Whether two names agree but for the case of ASCII letters.
pub open spec fn same_ignoring_ascii_case(a: Seq<char>, b: Seq<char>) -> bool {
    &&& a.len() == b.len()
    &&& forall|i: int| 0 <= i < a.len() ==> fold_ascii_case(a[i]) == fold_ascii_case(b[i])
}

/// The command a word stands for. Words are matched as written: the known
/// words are all in small letters, and a capital makes a word unknown.
pub open spec fn known_command(word: Seq<char>) -> Option<Command> {
    if word == "/help"@ {
        Some(Command::Help)
    } else if word == "/start"@ {
        Some(Command::Start)
    } else {
        None
    }
}

/// Whether a text is addressed to a bot other than the one named `bot_name`.
pub open spec fn misaddressed(text: Seq<char>, bot_name: Seq<char>) -> bool {
    addressee(text) matches Some(name) && !same_ignoring_ascii_case(name, bot_name)
}

/// What a text parses to for the bot named `bot_name`.
pub open spec fn parse(text: Seq<char>, bot_name: Seq<char>) -> Result<Command, ParseErrorView> {
    if misaddressed(text, bot_name) {
        Err(ParseErrorView::WrongBotName(addressee(text).unwrap()))
    } else {
        match known_command(command_word(text)) {
            Some(command) => Ok(command),
            None => Err(ParseErrorView::UnknownCommand(command_word(text))),
        }
    }
}

/// The result of parsing as contracts see it.
pub open spec fn parse_view(parsed: Result<Command, ParseError>) -> Result<
    Command,
    ParseErrorView,
> {
    match parsed {
        Ok(command) => Ok(command),
        Err(error) => Err(error@),
    }
}

/// Position `k` of `s` is where `c` first stands if no `c` stands before it
/// and one stands at it, or `k` is the end of `s`.
pub proof fn lemma_first_index_of(s: Seq<char>, c: char, k: int)
    requires
        0 <= k <= s.len(),
        forall|j: int| 0 <= j < k ==> s[j] != c,
        k < s.len() ==> s[k] == c,
    ensures
        first_index_of(s, c) == k,
    decreases s.len(),
{
    if k > 0 {
        lemma_first_index_of(s.drop_first(), c, k - 1);
    }
}

/// The characters of a text, one by one.
fn chars_of(text: &str) -> (chars: Vec<char>)
    ensures
        chars@ == text@,
{
    broadcast use vstd::string::group_string_axioms;

    let mut chars: Vec<char> = Vec::new();
    for c in it: text.chars()
        invariant
            chars@ == text@.take(it.index() as int),
            it.seq() == text@,
    {
        chars.push(c);
    }
    chars
}

/// Looks for the first `c` among `chars[from..to]`.
fn find_char(chars: &Vec<char>, c: char, from: usize, to: usize) -> (at: usize)
    requires
        from <= to <= chars@.len(),
    ensures
        from <= at <= to,
        at - from == first_index_of(chars@.subrange(from as int, to as int), c),
{
    let mut at: usize = from;
    while at < to && chars[at] != c
        invariant
            from <= at <= to <= chars@.len(),
            forall|j: int| from <= j < at ==> chars@[j] != c,
        decreases to - at,
    {
        at += 1;
    }
    proof {
        lemma_first_index_of(chars@.subrange(from as int, to as int), c, at - from);
    }
    at
}

/// A character's code with the ASCII capitals mapped to their small letters.
fn folded(c: char) -> (code: u32)
    ensures
        code == fold_ascii_case(c),
{
    if 'A' <= c && c <= 'Z' {
        c as u32 + 32
    } else {
        c as u32
    }
}

/// Whether `chars[from..to]` and `name` agree but for the case of ASCII letters.
fn agree_ignoring_ascii_case(
    chars: &Vec<char>,
    from: usize,
    to: usize,
    name: &Vec<char>,
) -> (same: bool)
    requires
        from <= to <= chars@.len(),
    ensures
        same == same_ignoring_ascii_case(chars@.subrange(from as int, to as int), name@),
{
    if to - from != name.len() {
        return false;
    }
    let ghost part = chars@.subrange(from as int, to as int);
    let mut i: usize = 0;
    while i < name.len()
        invariant
            from <= to <= chars@.len(),
            to - from == name@.len(),
            part == chars@.subrange(from as int, to as int),
            0 <= i <= name@.len(),
            forall|j: int| 0 <= j < i ==> fold_ascii_case(part[j]) == fold_ascii_case(name@[j]),
        decreases name@.len() - i,
    {
        if folded(chars[from + i]) != folded(name[i]) {
            assert(fold_ascii_case(part[i as int]) != fold_ascii_case(name@[i as int]));
            return false;
        }
        i += 1;
    }
    true
}

/// Whether `chars[..to]` is the word `word`.
fn spells(chars: &Vec<char>, to: usize, word: &Vec<char>) -> (same: bool)
    requires
        to <= chars@.len(),
    ensures
        same == (chars@.take(to as int) == word@),
{
    if to != word.len() {
        return false;
    }
    let mut i: usize = 0;
    while i < to
        invariant
            to <= chars@.len(),
            to == word@.len(),
            0 <= i <= to,
            forall|j: int| 0 <= j < i ==> chars@[j] == word@[j],
        decreases to - i,
    {
        if chars[i] != word[i] {
            assert(chars@.take(to as int)[i as int] != word@[i as int]);
            return false;
        }
        i += 1;
    }
    assert(chars@.take(to as int) =~= word@);
    true
}

/// Parses `text` as a command for the bot named `bot_name`.
pub fn parse_command(text: &str, bot_name: &str) -> (parsed: Result<Command, ParseError>)
    ensures
        parse_view(parsed) == parse(text@, bot_name@),
{
    let chars = chars_of(text);
    let end = find_char(&chars, ' ', 0, chars.len());
    let at = find_char(&chars, '@', 0, end);
    proof {
        assert(chars@.subrange(0, chars@.len() as int) =~= text@);
        assert(head(text@) =~= chars@.subrange(0, end as int));
        assert(command_word(text@) =~= chars@.take(at as int));
    }
    if at < end {
        let stop = find_char(&chars, '@', at + 1, end);
        let name = chars_of(bot_name);
        proof {
            assert(after(head(text@), '@') =~= chars@.subrange(at + 1, end as int));
            assert(addressee(text@) == Some(chars@.subrange(at + 1, stop as int))) by {
                assert(before(after(head(text@), '@'), '@') =~= chars@.subrange(
                    at + 1,
                    stop as int,
                ));
            }
        }
        if !agree_ignoring_ascii_case(&chars, at + 1, stop, &name) {
            return Err(ParseError::WrongBotName(text.substring_char(at + 1, stop).to_owned()));
        }
    }
    if spells(&chars, at, &chars_of("/help")) {
        Ok(Command::Help)
    } else if spells(&chars, at, &chars_of("/start")) {
        Ok(Command::Start)
    } else {
        proof {
            assert(chars@.take(at as int) =~= text@.subrange(0, at as int));
        }
        Err(ParseError::UnknownCommand(text.substring_char(0, at).to_owned()))
    }
}

/// The arguments of `text`: what follows its first space.
pub fn command_arguments(text: &str) -> (args: String)
    ensures
        args@ == arguments(text@),
{
    let chars = chars_of(text);
    let end = find_char(&chars, ' ', 0, chars.len());
    proof {
        assert(chars@.subrange(0, chars@.len() as int) =~= text@);
    }
    if end < chars.len() {
        proof {
            assert(text@.skip(end + 1) =~= text@.subrange(end + 1, text@.len() as int));
        }
        text.substring_char(end + 1, chars.len()).to_owned()
    } else {
        String::new()
    }
}

} // verus!
