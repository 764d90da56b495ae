use tp2::commands::{
    ChooseCommand, Command, HelpCommand, InventoryCommand, LookCommand, QuitCommand, StatusCommand,
};
use tp2::errors::ParseError;
use tp2::parser::{command_from_words, parse_command};
use tp2::text::{i32_to_text, parse_usize, u64_to_text};

#[test]
fn parses_each_command_word() {
    assert_eq!(parse_command("look"), Ok(Command::Look(LookCommand)));
    assert_eq!(parse_command("inventory"), Ok(Command::Inventory(InventoryCommand)));
    assert_eq!(parse_command("status"), Ok(Command::Status(StatusCommand)));
    assert_eq!(parse_command("help"), Ok(Command::Help(HelpCommand)));
    assert_eq!(parse_command("quit"), Ok(Command::Quit(QuitCommand)));
    assert_eq!(parse_command("choose 2"), Ok(Command::Choose(ChooseCommand { index: 2 })));
}

#[test]
fn command_word_ignores_case() {
    assert_eq!(parse_command("LOOK\n"), Ok(Command::Look(LookCommand)));
    assert_eq!(parse_command("Choose 3"), Ok(Command::Choose(ChooseCommand { index: 3 })));
    assert_eq!(parse_command("FLY"), Err(ParseError::UnknownCommand("fly".to_string())));
}

#[test]
fn blank_lines_are_empty() {
    assert_eq!(parse_command(""), Err(ParseError::Empty));
    assert_eq!(parse_command("   \t\n"), Err(ParseError::Empty));
    assert_eq!(parse_command("\u{3000}\u{a0}"), Err(ParseError::Empty));
}

#[test]
fn surrounding_spaces_and_extra_words_are_ignored() {
    assert_eq!(parse_command("  look  \n"), Ok(Command::Look(LookCommand)));
    assert_eq!(parse_command("\u{2003}look"), Ok(Command::Look(LookCommand)));
    assert_eq!(
        parse_command("choose   1 now please"),
        Ok(Command::Choose(ChooseCommand { index: 1 }))
    );
    assert_eq!(parse_command("look around"), Ok(Command::Look(LookCommand)));
}

#[test]
fn choose_needs_a_number() {
    assert_eq!(parse_command("choose"), Err(ParseError::MissingArgument("choose".to_string())));
    assert_eq!(parse_command("CHOOSE  "), Err(ParseError::MissingArgument("choose".to_string())));
    assert_eq!(parse_command("choose two"), Err(ParseError::InvalidNumber("two".to_string())));
    assert_eq!(parse_command("choose -1"), Err(ParseError::InvalidNumber("-1".to_string())));
    assert_eq!(parse_command("choose +4"), Ok(Command::Choose(ChooseCommand { index: 4 })));
    assert_eq!(parse_command("choose 0"), Ok(Command::Choose(ChooseCommand { index: 0 })));
}

#[test]
fn unknown_words_are_reported_lowercased() {
    assert_eq!(parse_command("dance now"), Err(ParseError::UnknownCommand("dance".to_string())));
}

#[test]
fn command_from_words_matches_exact_words() {
    assert_eq!(command_from_words("look".to_string(), None), Ok(Command::Look(LookCommand)));
    assert_eq!(
        command_from_words("choose".to_string(), Some("7")),
        Ok(Command::Choose(ChooseCommand { index: 7 }))
    );
    assert_eq!(
        command_from_words("Look".to_string(), None),
        Err(ParseError::UnknownCommand("Look".to_string()))
    );
    assert_eq!(
        command_from_words("choose".to_string(), None),
        Err(ParseError::MissingArgument("choose".to_string()))
    );
}

#[test]
fn numbers_parse_as_std_does() {
    for text in ["0", "7", "+12", "0042", "18446744073709551615", "", "+", "-0", "1_0", "12a", "99999999999999999999999"] {
        assert_eq!(parse_usize(text), text.parse::<usize>().ok(), "{text}");
    }
    assert_eq!(parse_usize("+12"), Some(12));
    assert_eq!(parse_usize("99999999999999999999999"), None);
}

#[test]
fn numbers_format_as_std_does() {
    for n in [0u64, 5, 10, 99, 100, 12345, u64::MAX] {
        assert_eq!(u64_to_text(n), n.to_string());
    }
    for x in [0i32, 1, -1, 42, -42, i32::MAX, i32::MIN] {
        assert_eq!(i32_to_text(x), x.to_string());
    }
}

#[test]
fn shown_numbers_read_back() {
    for n in [1usize, 9, 10, 123, usize::MAX] {
        assert_eq!(parse_usize(&u64_to_text(n as u64)), Some(n));
    }
}

#[test]
fn spaces_are_what_std_calls_whitespace() {
    for u in 0u32..=0x10FFFF {
        if let Some(c) = char::from_u32(u) {
            assert_eq!(tp2::text::is_space_char(c), c.is_whitespace(), "{u:#x}");
        }
    }
}

#[test]
fn shown_number_chooses_that_choice() {
    for k in [1usize, 2, 10, 42] {
        let shown = u64_to_text(k as u64);
        assert_eq!(
            command_from_words("choose".to_string(), Some(shown.as_str())),
            Ok(Command::Choose(ChooseCommand { index: k }))
        );
    }
}
