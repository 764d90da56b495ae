//! Reading a command from a line of input.
use crate::commands::{
    ChooseCommand, Command, HelpCommand, InventoryCommand, LookCommand, QuitCommand, StatusCommand,
};
use crate::errors::{ParseError, ParseErrorView};
use crate::text::{
    chars_of, lemma_skip_spaces_bounds, lemma_skip_word_bounds, lowercase, parse_usize,
    same_text, skip_spaces, skip_spaces_from, skip_word, skip_word_from, to_lowercase, usize_of,
};
use vstd::prelude::*;
use vstd::string::*;

verus! {

/// A parse result whose error is taken as its view.
pub open spec fn parse_result(r: Result<Command, ParseError>) -> Result<Command, ParseErrorView> {
    match r {
        Ok(c) => Ok(c),
        Err(e) => Err(e@),
    }
}

/// The command that the (lowercased) command word `cmd` names, with `arg` the
/// word after it, if any.
pub open spec fn command_named(cmd: Seq<char>, arg: Option<Seq<char>>) -> Result<
    Command,
    ParseErrorView,
> {
    if cmd == "look"@ {
        Ok(Command::Look(LookCommand))
    } else if cmd == "inventory"@ {
        Ok(Command::Inventory(InventoryCommand))
    } else if cmd == "status"@ {
        Ok(Command::Status(StatusCommand))
    } else if cmd == "help"@ {
        Ok(Command::Help(HelpCommand))
    } else if cmd == "quit"@ {
        Ok(Command::Quit(QuitCommand))
    } else if cmd == "choose"@ {
        match arg {
            None => Err(ParseErrorView::MissingArgument(cmd)),
            Some(value) => match usize_of(value) {
                Some(index) => Ok(Command::Choose(ChooseCommand { index })),
                None => Err(ParseErrorView::InvalidNumber(value)),
            },
        }
    } else {
        Err(ParseErrorView::UnknownCommand(cmd))
    }
}

/// The first word of a line: its first run of characters that are not spaces.
pub open spec fn first_word(line: Seq<char>) -> Seq<char> {
    let a = skip_spaces(line, 0);
    line.subrange(a, skip_word(line, a))
}

/// The second word of a line, if it has one.
pub open spec fn second_word(line: Seq<char>) -> Option<Seq<char>> {
    let b = skip_word(line, skip_spaces(line, 0));
    let c = skip_spaces(line, b);
    if c < line.len() {
        Some(line.subrange(c, skip_word(line, c)))
    } else {
        None
    }
}

/// The line holds nothing but spaces.
pub open spec fn blank(line: Seq<char>) -> bool {
    skip_spaces(line, 0) >= line.len()
}

/// What a line of input parses to: a blank line is `Empty`; otherwise the first
/// word, lowercased, names the command and the second word is its argument.
pub open spec fn parsed_line(line: Seq<char>) -> Result<Command, ParseErrorView> {
    if blank(line) {
        Err(ParseErrorView::Empty)
    } else {
        command_named(lowercase(first_word(line)), second_word(line))
    }
}

pub open spec fn opt_text(arg: Option<&str>) -> Option<Seq<char>> {
    match arg {
        Some(a) => Some(a@),
        None => None,
    }
}

/// The command named by a command word that is already lowercased, with its
/// argument word.
pub fn command_from_words(cmd: String, arg: Option<&str>) -> (res: Result<Command, ParseError>)
    ensures
        parse_result(res) == command_named(cmd@, opt_text(arg)),
{
    if same_text(&cmd, "look") {
        Ok(Command::Look(LookCommand))
    } else if same_text(&cmd, "inventory") {
        Ok(Command::Inventory(InventoryCommand))
    } else if same_text(&cmd, "status") {
        Ok(Command::Status(StatusCommand))
    } else if same_text(&cmd, "help") {
        Ok(Command::Help(HelpCommand))
    } else if same_text(&cmd, "quit") {
        Ok(Command::Quit(QuitCommand))
    } else if same_text(&cmd, "choose") {
        match arg {
            None => Err(ParseError::MissingArgument(cmd)),
            Some(value) => match parse_usize(value) {
                Some(index) => Ok(Command::Choose(ChooseCommand { index })),
                None => Err(ParseError::InvalidNumber(value.to_owned())),
            },
        }
    } else {
        Err(ParseError::UnknownCommand(cmd))
    }
}

/// Reads a command from a line: surrounding spaces are ignored, the command word
/// is matched without regard to case, and words after the argument are ignored.
pub fn parse_command(line: &str) -> (res: Result<Command, ParseError>)
    ensures
        parse_result(res) == parsed_line(line@),
{
    let chars = chars_of(line);
    let n = chars.len();
    let a = skip_spaces_from(&chars, 0);
    proof {
        lemma_skip_spaces_bounds(line@, 0);
    }
    if a >= n {
        return Err(ParseError::Empty);
    }
    let b = skip_word_from(&chars, a);
    proof {
        lemma_skip_word_bounds(line@, a as int);
    }
    let word = line.substring_char(a, b);
    let cmd = to_lowercase(word);
    let c = skip_spaces_from(&chars, b);
    proof {
        lemma_skip_spaces_bounds(line@, b as int);
    }
    let arg = if c < n {
        let d = skip_word_from(&chars, c);
        proof {
            lemma_skip_word_bounds(line@, c as int);
        }
        Some(line.substring_char(c, d))
    } else {
        None
    };
    command_from_words(cmd, arg)
}

} // verus!
