//! The menu of the command-line client, the demonstration account store and the
//! text helpers.

use bank_auth::account::AccountAuthView;
use bank_auth::account::AccountRepoImpl;
use bank_auth::menu::choose_command;
use bank_auth::menu::menu_options;
use bank_auth::menu::read_menu_command_from_stdin;
use bank_auth::menu::MenuCommand;
use bank_auth::menu::MenuError;
use bank_auth::text::decimal;
use bank_auth::text::same_text;

#[test]
fn menu_lists_every_command() {
    assert_eq!(menu_options(), "0. Exit\n1. Login\n2. New");
}

#[test]
fn commands_have_their_numbers_and_labels() {
    assert_eq!(MenuCommand::all(), vec![MenuCommand::Exit, MenuCommand::Login, MenuCommand::New]);
    assert_eq!(MenuCommand::Exit.label(), "0. Exit");
    assert_eq!(MenuCommand::Login.label(), "1. Login");
    assert_eq!(MenuCommand::New.label(), "2. New");
    for command in MenuCommand::all() {
        assert_eq!(MenuCommand::try_from(command.number()), Ok(command));
    }
}

#[test]
fn try_from_knows_three_numbers() {
    assert_eq!(MenuCommand::try_from(0), Ok(MenuCommand::Exit));
    assert_eq!(MenuCommand::try_from(1), Ok(MenuCommand::Login));
    assert_eq!(MenuCommand::try_from(2), Ok(MenuCommand::New));
    for value in 3..=255u8 {
        assert_eq!(MenuCommand::try_from(value), Err(MenuError::UnknownCommand));
    }
}

#[test]
fn choose_command_needs_a_number() {
    assert_eq!(choose_command(None), Err(MenuError::NotANumber));
    assert_eq!(choose_command(Some(1)), Ok(MenuCommand::Login));
    assert_eq!(choose_command(Some(9)), Err(MenuError::UnknownCommand));
}

#[test]
fn lines_are_trimmed_and_read_as_numbers() {
    assert_eq!(read_menu_command_from_stdin("0\n"), Ok(MenuCommand::Exit));
    assert_eq!(read_menu_command_from_stdin("1\r\n"), Ok(MenuCommand::Login));
    assert_eq!(read_menu_command_from_stdin("  2  "), Ok(MenuCommand::New));
    assert_eq!(read_menu_command_from_stdin("\t1"), Ok(MenuCommand::Login));
    assert_eq!(read_menu_command_from_stdin("+1"), Ok(MenuCommand::Login));
    assert_eq!(read_menu_command_from_stdin("002"), Ok(MenuCommand::New));
    assert_eq!(read_menu_command_from_stdin("3"), Err(MenuError::UnknownCommand));
    assert_eq!(read_menu_command_from_stdin("255"), Err(MenuError::UnknownCommand));
}

#[test]
fn lines_that_are_no_number_are_refused() {
    for line in ["", "\n", "x", "1 2", "-1", "256", "1.0", "one", "0x1", "1_"] {
        assert_eq!(read_menu_command_from_stdin(line), Err(MenuError::NotANumber), "{:?}", line);
    }
}

#[test]
fn store_answers_with_the_demonstration_pin() {
    let repo = AccountRepoImpl;
    let found = repo.find("4000009999999999".to_string());
    assert_eq!(found.card_number, "4000009999999999");
    assert_eq!(found.pin, "1111");
    let created = repo.create();
    assert_eq!(created.card_number, "4000001111111111");
    assert_eq!(created.pin, "1111");
}

#[test]
fn credentials_keep_what_they_are_made_of() {
    let credentials = AccountAuthView::new("card".to_string(), "pin".to_string());
    assert_eq!(credentials.card_number, "card");
    assert_eq!(credentials.pin, "pin");
}

#[test]
fn decimal_writes_numerals() {
    assert_eq!(decimal(0), "0");
    assert_eq!(decimal(7), "7");
    assert_eq!(decimal(10), "10");
    assert_eq!(decimal(1_731_449_600), "1731449600");
    assert_eq!(decimal(1_000_000_007), "1000000007");
    assert_eq!(decimal(u64::MAX), "18446744073709551615");
}

#[test]
fn same_text_compares_characters() {
    assert!(same_text("", ""));
    assert!(same_text("abc", "abc"));
    assert!(same_text("\u{e9}", "\u{e9}"));
    assert!(!same_text("abc", "abd"));
    assert!(!same_text("abc", "ab"));
    assert!(!same_text("abc", "ABC"));
    assert!(!same_text("e\u{301}", "\u{e9}"));
}

#[test]
fn unicode_white_space_is_trimmed() {
    assert_eq!(read_menu_command_from_stdin("\u{a0}1\u{3000}"), Ok(MenuCommand::Login));
    assert_eq!(read_menu_command_from_stdin("\u{2003}2\u{85}\u{2028}"), Ok(MenuCommand::New));
    assert_eq!(read_menu_command_from_stdin("\u{b}0\u{c}"), Ok(MenuCommand::Exit));
    // A zero-width space is no white space.
    assert_eq!(read_menu_command_from_stdin("\u{200b}1"), Err(MenuError::NotANumber));
}

#[test]
fn only_ascii_digits_count() {
    for line in ["\u{661}", "\u{ff11}", "+", "++1", "+-1", "1+", "-0", " + 1"] {
        assert_eq!(read_menu_command_from_stdin(line), Err(MenuError::NotANumber), "{:?}", line);
    }
    assert_eq!(read_menu_command_from_stdin("+0"), Ok(MenuCommand::Exit));
    assert_eq!(read_menu_command_from_stdin("+000000000000000000002"), Ok(MenuCommand::New));
    assert_eq!(read_menu_command_from_stdin("0255"), Err(MenuError::UnknownCommand));
    assert_eq!(read_menu_command_from_stdin("0256"), Err(MenuError::NotANumber));
}

#[test]
fn every_command_is_read_back_from_its_number() {
    for command in MenuCommand::all() {
        let line = format!("{}\n", decimal(command.number() as u64));
        assert_eq!(read_menu_command_from_stdin(&line), Ok(command));
    }
}
