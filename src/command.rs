//! The table of interactive commands, shared by dispatch and completion.
use vstd::prelude::*;

verus! {

/// What an input line asks for.
#[derive(Clone, Copy, Debug, PartialEq, Eq)]
pub enum Command {
    Help,
    Items,
    Projects,
    Quit,
    Unknown,
}

/// The known commands, in the order they are listed and completed.
pub open spec fn known_commands() -> Seq<Command> {
    seq![Command::Help, Command::Items, Command::Projects, Command::Quit]
}

/// The full name of a known command.
pub open spec fn command_name(c: Command) -> Seq<char> {
    match c {
        Command::Help => "help"@,
        Command::Items => "items"@,
        Command::Projects => "projs"@,
        Command::Quit => "quit"@,
        Command::Unknown => Seq::empty(),
    }
}

/// The one-letter alias of a known command.
pub open spec fn command_alias(c: Command) -> Seq<char> {
    match c {
        Command::Help => "h"@,
        Command::Items => "i"@,
        Command::Projects => "p"@,
        Command::Quit => "q"@,
        Command::Unknown => Seq::empty(),
    }
}

/// The command that a whole input line names: an exact match of a known
/// command's name or alias, and `Unknown` for anything else.
pub open spec fn command_of(line: Seq<char>) -> Command {
    if line == command_name(Command::Help) || line == command_alias(Command::Help) {
        Command::Help
    } else if line == command_name(Command::Items) || line == command_alias(Command::Items) {
        Command::Items
    } else if line == command_name(Command::Projects) || line == command_alias(Command::Projects) {
        Command::Projects
    } else if line == command_name(Command::Quit) || line == command_alias(Command::Quit) {
        Command::Quit
    } else {
        Command::Unknown
    }
}

impl Command {
    /// The full name of a known command.
    pub fn name(&self) -> (r: &'static str)
        requires
            !(*self is Unknown),
        ensures
            r@ == command_name(*self),
    {
        match self {
            Command::Help => "help",
            Command::Items => "items",
            Command::Projects => "projs",
            Command::Quit => "quit",
            Command::Unknown => "",
        }
    }

    /// The one-letter alias of a known command.
    pub fn alias(&self) -> (r: &'static str)
        requires
            !(*self is Unknown),
        ensures
            r@ == command_alias(*self),
    {
        match self {
            Command::Help => "h",
            Command::Items => "i",
            Command::Projects => "p",
            Command::Quit => "q",
            Command::Unknown => "",
        }
    }
}

/// The known commands, in listing order.
pub fn known_command_list() -> (r: Vec<Command>)
    ensures
        r@ == known_commands(),
{
    let r = vec![Command::Help, Command::Items, Command::Projects, Command::Quit];
    assert(r@ =~= known_commands());
    r
}

/// Whether two strings hold the same characters.
fn str_eq(a: &str, b: &str) -> (r: bool)
    ensures
        r == (a@ == b@),
{
    let n = a.unicode_len();
    if n != b.unicode_len() {
        return false;
    }
    let mut i: usize = 0;
    while i < n
        invariant
            i <= n,
            n == a@.len(),
            n == b@.len(),
            forall|j: int| 0 <= j < i ==> a@[j] == b@[j],
        decreases n - i,
    {
        if a.get_char(i) != b.get_char(i) {
            return false;
        }
        i = i + 1;
    }
    assert(a@ =~= b@);
    true
}

/// Whether `line` names `c` by its name or its alias.
fn names_command(line: &str, c: Command) -> (r: bool)
    requires
        !(c is Unknown),
    ensures
        r == (line@ == command_name(c) || line@ == command_alias(c)),
{
    str_eq(line, c.name()) || str_eq(line, c.alias())
}

/// Classifies a whole input line.
pub fn classify(line: &str) -> (r: Command)
    ensures
        r == command_of(line@),
{
    if names_command(line, Command::Help) {
        Command::Help
    } else if names_command(line, Command::Items) {
        Command::Items
    } else if names_command(line, Command::Projects) {
        Command::Projects
    } else if names_command(line, Command::Quit) {
        Command::Quit
    } else {
        Command::Unknown
    }
}

} // verus!
