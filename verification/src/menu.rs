//! The menu of the command-line client.

use crate::text::decimal_text;
use crate::text::lemma_numeral_round_trip;
use crate::text::parse_u8;
use crate::text::parsed_u8;
use crate::text::trim;
use crate::text::trimmed;
use vstd::prelude::*;
use vstd::string::*;

verus! {

/// What the user of the command-line client can ask for.
#[derive(Clone, Copy, Debug, PartialEq, Eq, Structural)]
pub enum MenuCommand {
    /// Leave the client.
    Exit,
    /// Log in and show the account.
    Login,
    /// Open a new account.
    New,
}

/// Why a line of input names no command.
#[derive(Clone, Copy, Debug, PartialEq, Eq, Structural)]
pub enum MenuError {
    /// The line is not a number below 256.
    NotANumber,
    /// The number stands for no command.
    UnknownCommand,
}

impl MenuCommand {
    /// The command that the number `value` stands for, if any.
    pub open spec fn spec_try_from(value: u8) -> Result<MenuCommand, MenuError> {
        if value == 0 {
            Ok(MenuCommand::Exit)
        } else if value == 1 {
            Ok(MenuCommand::Login)
        } else if value == 2 {
            Ok(MenuCommand::New)
        } else {
            Err(MenuError::UnknownCommand)
        }
    }

    /// The number under which the menu offers the command.
    pub open spec fn spec_number(self) -> u8 {
        match self {
            MenuCommand::Exit => 0,
            MenuCommand::Login => 1,
            MenuCommand::New => 2,
        }
    }

    /// The line under which the menu offers the command.
    pub open spec fn spec_label(self) -> Seq<char> {
        match self {
            MenuCommand::Exit => "0. Exit"@,
            MenuCommand::Login => "1. Login"@,
            MenuCommand::New => "2. New"@,
        }
    }

    /// The command that the number `value` stands for.
    pub fn try_from(value: u8) -> (command: Result<MenuCommand, MenuError>)
        ensures
            command == MenuCommand::spec_try_from(value),
    {
        match value {
            0 => Ok(MenuCommand::Exit),
            1 => Ok(MenuCommand::Login),
            2 => Ok(MenuCommand::New),
            _ => Err(MenuError::UnknownCommand),
        }
    }

    /// The number under which the menu offers the command.
    pub fn number(self) -> (number: u8)
        ensures
            number == self.spec_number(),
            MenuCommand::spec_try_from(number) == Ok::<MenuCommand, MenuError>(self),
    {
        match self {
            MenuCommand::Exit => 0,
            MenuCommand::Login => 1,
            MenuCommand::New => 2,
        }
    }

    /// The line under which the menu offers the command.
    pub fn label(self) -> (label: &'static str)
        ensures
            label@ == self.spec_label(),
    {
        match self {
            MenuCommand::Exit => "0. Exit",
            MenuCommand::Login => "1. Login",
            MenuCommand::New => "2. New",
        }
    }

    /// Every command, in the order of the menu.
    pub fn all() -> (commands: Vec<MenuCommand>)
        ensures
            commands@ == all_commands(),
    {
        let mut commands: Vec<MenuCommand> = Vec::new();
        commands.push(MenuCommand::Exit);
        commands.push(MenuCommand::Login);
        commands.push(MenuCommand::New);
        assert(commands@ =~= all_commands());
        commands
    }
}

/// Every command, in the order of the menu.
pub open spec fn all_commands() -> Seq<MenuCommand> {
    seq![MenuCommand::Exit, MenuCommand::Login, MenuCommand::New]
}

/// The labels of `commands`, one per line, with no line break after the last.
pub open spec fn menu_text(commands: Seq<MenuCommand>) -> Seq<char>
    decreases commands.len(),
{
    if commands.len() == 0 {
        Seq::<char>::empty()
    } else if commands.len() == 1 {
        commands[0].spec_label()
    } else {
        menu_text(commands.drop_last()) + "\n"@ + commands.last().spec_label()
    }
}

/// The command that a parsed line stands for: `NotANumber` where no number was read,
/// else what `MenuCommand::try_from` says of the number.
pub open spec fn chosen_command(number: Option<u8>) -> Result<MenuCommand, MenuError> {
    match number {
        None => Err(MenuError::NotANumber),
        Some(value) => MenuCommand::spec_try_from(value),
    }
}

/// The menu of all commands is the three labels on three lines.
pub proof fn lemma_menu_of_all_commands()
    ensures
        menu_text(all_commands()) == "0. Exit\n1. Login\n2. New"@,
{
    reveal_strlit("0. Exit");
    reveal_strlit("1. Login");
    reveal_strlit("2. New");
    reveal_strlit("\n");
    reveal_strlit("0. Exit\n1. Login\n2. New");
    let all = all_commands();
    let two = all.drop_last();
    let one = two.drop_last();
    assert(one.len() == 1);
    assert(two.len() == 2);
    assert(one[0] == MenuCommand::Exit);
    assert(two.last() == MenuCommand::Login);
    assert(all.last() == MenuCommand::New);
    assert(menu_text(one) == "0. Exit"@);
    assert(menu_text(two) == "0. Exit"@ + "\n"@ + "1. Login"@);
    assert(menu_text(all) == "0. Exit"@ + "\n"@ + "1. Login"@ + "\n"@ + "2. New"@);
    assert(menu_text(all) =~= "0. Exit\n1. Login\n2. New"@);
}

/// The menu: the label of every command, one per line.
pub fn menu_options() -> (menu: String)
    ensures
        menu@ == menu_text(all_commands()),
        menu@ == "0. Exit\n1. Login\n2. New"@,
{
    proof {
        lemma_menu_of_all_commands();
    }
    let commands = MenuCommand::all();
    let mut menu = String::from_str("");
    proof {
        reveal_strlit("");
        assert(menu@ =~= menu_text(commands@.take(0)));
    }
    let mut i: usize = 0;
    while i < commands.len()
        invariant
            i <= commands@.len(),
            menu@ == menu_text(commands@.take(i as int)),
        decreases commands@.len() - i,
    {
        let ghost before = menu@;
        if i > 0 {
            menu.append("\n");
        }
        menu.append(commands[i].label());
        proof {
            let shown = commands@.take(i as int + 1);
            assert(shown.drop_last() =~= commands@.take(i as int));
            assert(shown.last() == commands@[i as int]);
            if i == 0 {
                assert(before =~= Seq::<char>::empty());
                assert(menu@ =~= commands@[0].spec_label());
            }
        }
        i = i + 1;
    }
    assert(commands@.take(commands@.len() as int) =~= commands@);
    menu
}

/// Picks the command for a number that was or was not read from a line.
pub fn choose_command(number: Option<u8>) -> (command: Result<MenuCommand, MenuError>)
    ensures
        command == chosen_command(number),
{
    match number {
        None => Err(MenuError::NotANumber),
        Some(value) => MenuCommand::try_from(value),
    }
}

/// Reads the menu command that `line`, a line taken from standard input, stands for:
/// the line is trimmed, read as a number below 256, and the number is looked up.
pub fn read_menu_command_from_stdin(line: &str) -> (command: Result<MenuCommand, MenuError>)
    ensures
        command == chosen_command(parsed_u8(trimmed(line@))),
{
    choose_command(parse_u8(trim(line)))
}

/// Menu round trip: the number under which the menu offers a command, written as a
/// decimal numeral, is read back as that command.
pub proof fn lemma_menu_round_trip(command: MenuCommand)
    ensures
        chosen_command(parsed_u8(trimmed(decimal_text(command.spec_number() as nat)))) == Ok::<
            MenuCommand,
            MenuError,
        >(command),
{
    lemma_numeral_round_trip(command.spec_number());
}

/// A number is a command's exactly when it is below three.
pub proof fn lemma_commands_are_below_three(value: u8)
    ensures
        MenuCommand::spec_try_from(value) is Ok <==> value < 3,
        MenuCommand::spec_try_from(value) matches Ok(command) ==> command.spec_number() == value,
{
}

} // verus!
