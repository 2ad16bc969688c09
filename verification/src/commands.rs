use crate::text::{chars_to_string, str_chars};
use vstd::prelude::*;
use vstd::string::StringExecFns;

verus! {

/// A command typed into the command window.
#[derive(Debug)]
pub enum Command {
    Connect { address: String },
    Quit,
}

/// Why a line is no command.
#[derive(Debug)]
pub enum CommandError {
    /// The line holds no word at all.
    Empty,
    /// `connect` came with no address, or with more than one word after it.
    ConnectArguments,
    /// The first word names no command.
    Unknown { name: String },
}

pub enum CommandView {
    Connect { address: Seq<char> },
    Quit,
}

pub enum CommandErrorView {
    Empty,
    ConnectArguments,
    Unknown { name: Seq<char> },
}

impl View for Command {
    type V = CommandView;

    open spec fn view(&self) -> CommandView {
        match self {
            Command::Connect { address } => CommandView::Connect { address: address@ },
            Command::Quit => CommandView::Quit,
        }
    }
}

impl View for CommandError {
    type V = CommandErrorView;

    open spec fn view(&self) -> CommandErrorView {
        match self {
            CommandError::Empty => CommandErrorView::Empty,
            CommandError::ConnectArguments => CommandErrorView::ConnectArguments,
            CommandError::Unknown { name } => CommandErrorView::Unknown { name: name@ },
        }
    }
}

/// Whether a character separates words: the characters with the Unicode
/// property `White_Space`.
pub open spec fn is_space(c: char) -> bool {
    let u = c as u32;
    ||| 0x09 <= u <= 0x0D
    ||| u == 0x20
    ||| u == 0x85
    ||| u == 0xA0
    ||| u == 0x1680
    ||| 0x2000 <= u <= 0x200A
    ||| u == 0x2028
    ||| u == 0x2029
    ||| u == 0x202F
    ||| u == 0x205F
    ||| u == 0x3000
}

/// The words found in a stretch of text, and the word still open at its end
/// (empty when the text ends in a separator).
pub struct Scanned {
    pub words: Seq<Seq<char>>,
    pub open: Seq<char>,
}

/// Reads one more character: a separator closes the open word, if there is
/// one; any other character joins it.
pub open spec fn scan_char(state: Scanned, c: char) -> Scanned {
    if is_space(c) {
        if state.open.len() > 0 {
            Scanned { words: state.words.push(state.open), open: Seq::empty() }
        } else {
            state
        }
    } else {
        Scanned { words: state.words, open: state.open.push(c) }
    }
}

pub open spec fn scan(text: Seq<char>) -> Scanned
    decreases text.len(),
{
    if text.len() == 0 {
        Scanned { words: Seq::empty(), open: Seq::empty() }
    } else {
        scan_char(scan(text.drop_last()), text.last())
    }
}

/// The words of a text: its longest stretches without a separator, in order.
pub open spec fn words(text: Seq<char>) -> Seq<Seq<char>> {
    let end = scan(text);
    if end.open.len() > 0 {
        end.words.push(end.open)
    } else {
        end.words
    }
}

/// Whether a word is one: not empty, and without a separator.
pub open spec fn is_word(word: Seq<char>) -> bool {
    word.len() > 0 && forall|i: int| 0 <= i < word.len() ==> !is_space(#[trigger] word[i])
}

/// What `scan` has found so far are words, and the open word holds no
/// separator.
pub proof fn lemma_scan_finds_words(text: Seq<char>)
    ensures
        forall|i: int| 0 <= i < scan(text).words.len() ==> is_word(#[trigger] scan(text).words[i]),
        forall|i: int| 0 <= i < scan(text).open.len() ==> !is_space(#[trigger] scan(text).open[i]),
    decreases text.len(),
{
    if text.len() > 0 {
        lemma_scan_finds_words(text.drop_last());
        let before = scan(text.drop_last());
        let after = scan(text);
        assert(after == scan_char(before, text.last()));
        if is_space(text.last()) {
            if before.open.len() > 0 {
                assert(is_word(before.open));
                assert forall|i: int| 0 <= i < after.words.len() implies is_word(
                    #[trigger] after.words[i],
                ) by {
                    if i < before.words.len() {
                        assert(after.words[i] == before.words[i]);
                    }
                }
            }
        } else {
            assert forall|i: int| 0 <= i < after.open.len() implies !is_space(
                #[trigger] after.open[i],
            ) by {
                if i < before.open.len() {
                    assert(after.open[i] == before.open[i]);
                }
            }
        }
    }
}

/// Every word of a text is a word: it is not empty and holds no separator.
pub proof fn lemma_words_are_words(text: Seq<char>)
    ensures
        forall|i: int| 0 <= i < words(text).len() ==> is_word(#[trigger] words(text)[i]),
{
    lemma_scan_finds_words(text);
}

/// What a line of text means as a command.
pub open spec fn parse(text: Seq<char>) -> Result<CommandView, CommandErrorView> {
    let tokens = words(text);
    if tokens.len() == 0 {
        Err(CommandErrorView::Empty)
    } else if tokens[0] == "connect"@ {
        if tokens.len() != 2 {
            Err(CommandErrorView::ConnectArguments)
        } else {
            Ok(CommandView::Connect { address: tokens[1] })
        }
    } else if tokens[0] == "quit"@ {
        Ok(CommandView::Quit)
    } else {
        Err(CommandErrorView::Unknown { name: tokens[0] })
    }
}

impl CommandErrorView {
    /// The error in words.
    pub open spec fn message(self) -> Seq<char> {
        match self {
            CommandErrorView::Empty => "Empty command"@,
            CommandErrorView::ConnectArguments => "'connect' command only takes one argument"@,
            CommandErrorView::Unknown { name } => "Unknown command '"@ + name + "'"@,
        }
    }
}

/// The result of a parse, seen through the views of its two sides.
pub open spec fn parsed_view(result: Result<Command, CommandError>) -> Result<
    CommandView,
    CommandErrorView,
> {
    match result {
        Ok(command) => Ok(command@),
        Err(error) => Err(error@),
    }
}

fn is_space_char(c: char) -> (b: bool)
    ensures
        b == is_space(c),
{
    let u: u32 = c as u32;
    (0x09 <= u && u <= 0x0D) || u == 0x20 || u == 0x85 || u == 0xA0 || u == 0x1680 || (0x2000 <= u
        && u <= 0x200A) || u == 0x2028 || u == 0x2029 || u == 0x202F || u == 0x205F || u == 0x3000
}

/// The rows of characters as a sequence of sequences.
pub open spec fn words_view(words: Seq<Vec<char>>) -> Seq<Seq<char>> {
    words.map_values(|word: Vec<char>| word@)
}

/// Splits a line into its words.
pub fn split_words(text: &str) -> (found: Vec<Vec<char>>)
    ensures
        words_view(found@) == words(text@),
{
    let chars = str_chars(text);
    let mut found: Vec<Vec<char>> = Vec::new();
    let mut open: Vec<char> = Vec::new();
    let mut i: usize = 0;
    assert(words_view(found@) =~= Seq::empty());
    while i < chars.len()
        invariant
            i <= chars.len(),
            scan(chars@.take(i as int)).words == words_view(found@),
            scan(chars@.take(i as int)).open == open@,
        decreases chars.len() - i,
    {
        let c = chars[i];
        proof {
            let next = chars@.take(i + 1);
            assert(next.drop_last() =~= chars@.take(i as int));
            assert(next.last() == c);
        }
        if is_space_char(c) {
            if open.len() > 0 {
                let ghost closed = words_view(found@);
                found.push(open);
                assert(words_view(found@) =~= closed.push(open@));
                open = Vec::new();
            }
        } else {
            open.push(c);
        }
        i += 1;
    }
    assert(chars@.take(chars.len() as int) =~= chars@);
    if open.len() > 0 {
        let ghost closed = words_view(found@);
        found.push(open);
        assert(words_view(found@) =~= closed.push(open@));
    }
    found
}

/// Whether `word` spells `text`.
fn spells(word: &Vec<char>, text: &str) -> (b: bool)
    ensures
        b == (word@ == text@),
{
    let other = str_chars(text);
    if word.len() != other.len() {
        return false;
    }
    let mut i: usize = 0;
    while i < word.len()
        invariant
            i <= word.len(),
            word.len() == other.len(),
            other@ == text@,
            word@.take(i as int) == other@.take(i as int),
        decreases word.len() - i,
    {
        if word[i] != other[i] {
            assert(word@[i as int] != text@[i as int]);
            return false;
        }
        i += 1;
        assert(word@.take(i as int) =~= word@.take(i - 1).push(word@[i - 1]));
        assert(other@.take(i as int) =~= other@.take(i - 1).push(other@[i - 1]));
    }
    assert(word@.take(word.len() as int) =~= word@);
    assert(other@.take(other.len() as int) =~= other@);
    true
}

impl Command {
    /// Reads a command from a line: `connect` with exactly one address, or
    /// `quit`. Anything else is an error that says why.
    pub fn from_str(string: &str) -> (result: Result<Command, CommandError>)
        ensures
            parsed_view(result) == parse(string@),
    {
        let tokens = split_words(string);
        let ghost found = words(string@);
        assert(found.len() == tokens.len());
        assert(forall|i: int| 0 <= i < tokens.len() ==> #[trigger] found[i] == tokens@[i]@);
        assert(forall|i: int|
            0 <= i < tokens.len() ==> #[trigger] tokens@[i]@.skip(0) =~= tokens@[i]@);
        if tokens.len() == 0 {
            Err(CommandError::Empty)
        } else if spells(&tokens[0], "connect") {
            if tokens.len() != 2 {
                Err(CommandError::ConnectArguments)
            } else {
                Ok(Command::Connect { address: chars_to_string(&tokens[1], 0) })
            }
        } else if spells(&tokens[0], "quit") {
            Ok(Command::Quit)
        } else {
            Err(CommandError::Unknown { name: chars_to_string(&tokens[0], 0) })
        }
    }
}

impl CommandError {
    /// The error in words, as it is shown to the user.
    pub fn message(&self) -> (text: String)
        ensures
            text@ == self@.message(),
    {
        match self {
            CommandError::Empty => String::from_str("Empty command"),
            CommandError::ConnectArguments => String::from_str(
                "'connect' command only takes one argument",
            ),
            CommandError::Unknown { name } => {
                let mut text = String::from_str("Unknown command '");
                text.append(name.as_str());
                text.append("'");
                text
            },
        }
    }
}

} // verus!
