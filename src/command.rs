use vstd::prelude::*;
use crate::text::{same_word, trailing_words};

verus! {

/// One line of input, classified by its first word.
pub enum ShellCommand<'a> {
    Exit,
    Echo(Vec<&'a str>),
    Pwd,
    /// The name to describe, then the words after it, which may hold a
    /// redirection.
    Type(&'a str, Vec<&'a str>),
    /// The directory, then the words after it, which may hold a
    /// redirection.
    Cd(&'a str, Vec<&'a str>),
    External(&'a str, Vec<&'a str>),
    /// A `type` or `cd` with nothing after it: nothing to do.
    Empty,
}

/// The mathematical form of a command: its word lists as sequences.
pub enum CommandModel<'a> {
    Exit,
    Echo(Seq<&'a str>),
    Pwd,
    Type(&'a str, Seq<&'a str>),
    Cd(&'a str, Seq<&'a str>),
    External(&'a str, Seq<&'a str>),
    Empty,
}

impl<'a> View for ShellCommand<'a> {
    type V = CommandModel<'a>;

    open spec fn view(&self) -> CommandModel<'a> {
        match self {
            ShellCommand::Exit => CommandModel::Exit,
            ShellCommand::Echo(a) => CommandModel::Echo(a@),
            ShellCommand::Pwd => CommandModel::Pwd,
            ShellCommand::Type(n, a) => CommandModel::Type(*n, a@),
            ShellCommand::Cd(p, a) => CommandModel::Cd(*p, a@),
            ShellCommand::External(c, a) => CommandModel::External(*c, a@),
            ShellCommand::Empty => CommandModel::Empty,
        }
    }
}

/// The names handled by the shell itself.
pub open spec fn is_builtin_name(w: Seq<char>) -> bool {
    w == "exit"@ || w == "echo"@ || w == "pwd"@ || w == "type"@ || w == "cd"@
}

/// The command that a non-empty word list stands for, chosen by its first
/// word alone, case-sensitively.
pub open spec fn classify<'a>(tokens: Seq<&'a str>) -> CommandModel<'a>
    recommends
        tokens.len() > 0,
{
    let first = tokens[0]@;
    let rest = tokens.skip(1);
    if first == "exit"@ {
        CommandModel::Exit
    } else if first == "echo"@ {
        CommandModel::Echo(rest)
    } else if first == "pwd"@ {
        CommandModel::Pwd
    } else if first == "type"@ {
        if tokens.len() > 1 {
            CommandModel::Type(tokens[1], tokens.skip(2))
        } else {
            CommandModel::Empty
        }
    } else if first == "cd"@ {
        if tokens.len() > 1 {
            CommandModel::Cd(tokens[1], tokens.skip(2))
        } else {
            CommandModel::Empty
        }
    } else {
        CommandModel::External(tokens[0], rest)
    }
}

/// Whether `name` is one of the shell's own commands.
pub fn is_builtin(name: &str) -> (r: bool)
    ensures
        r == is_builtin_name(name@),
{
    same_word(name, "exit") || same_word(name, "echo") || same_word(name, "pwd")
        || same_word(name, "type") || same_word(name, "cd")
}

impl<'a> ShellCommand<'a> {
    /// Classifies a non-empty word list.
    pub fn parse(tokens: &'a [&'a str]) -> (r: Self)
        requires
            tokens@.len() > 0,
        ensures
            r@ == classify(tokens@),
    {
        let first = tokens[0];
        if same_word(first, "exit") {
            ShellCommand::Exit
        } else if same_word(first, "echo") {
            ShellCommand::Echo(trailing_words(tokens, 1))
        } else if same_word(first, "pwd") {
            ShellCommand::Pwd
        } else if same_word(first, "type") {
            if tokens.len() > 1 {
                ShellCommand::Type(tokens[1], trailing_words(tokens, 2))
            } else {
                ShellCommand::Empty
            }
        } else if same_word(first, "cd") {
            if tokens.len() > 1 {
                ShellCommand::Cd(tokens[1], trailing_words(tokens, 2))
            } else {
                ShellCommand::Empty
            }
        } else {
            ShellCommand::External(first, trailing_words(tokens, 1))
        }
    }
}

} // verus!
