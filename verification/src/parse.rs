//! Turning a line of input into a command.
//!
//! A line is split on whitespace; the first token is the verb and at most one
//! further token is consumed as an argument (extra tokens are silently
//! ignored). Dispatch is a case-sensitive exact match on the verb. A blank
//! line, an unknown verb, and a `take` or `drop` without an argument all
//! parse to [`Command::Unknown`], which the interpreter answers with its
//! "I don't understand." message instead of failing.

use crate::text::{skip_spaces, skip_spaces_exec, str_eq, token_end, token_end_exec};
use vstd::prelude::*;
use vstd::string::StrSliceExecFns;
use vstd::string::StringExecFns;

verus! {

/// The two direction verbs the dispatcher recognises.
#[derive(PartialEq, Eq, Structural, Clone, Copy, Debug)]
pub enum Direction {
    East,
    West,
}

impl Direction {
    /// The direction name looked up in a room's exit table.
    pub open spec fn name(self) -> Seq<char> {
        match self {
            Direction::East => "east"@,
            Direction::West => "west"@,
        }
    }
}

/// A parsed command.
pub enum Command {
    Quit,
    Look,
    Take(String),
    Drop(String),
    Inventory,
    Go(Direction),
    Unknown,
}

/// Mathematical value of a [`Command`].
#[verifier::ext_equal]
pub ghost enum CommandModel {
    Quit,
    Look,
    Take(Seq<char>),
    Drop(Seq<char>),
    Inventory,
    Go(Direction),
    Unknown,
}

impl View for Command {
    type V = CommandModel;

    open spec fn view(&self) -> CommandModel {
        match self {
            Command::Quit => CommandModel::Quit,
            Command::Look => CommandModel::Look,
            Command::Take(name) => CommandModel::Take(name@),
            Command::Drop(name) => CommandModel::Drop(name@),
            Command::Inventory => CommandModel::Inventory,
            Command::Go(d) => CommandModel::Go(*d),
            Command::Unknown => CommandModel::Unknown,
        }
    }
}

/// Where the verb token starts.
pub open spec fn verb_start(s: Seq<char>) -> int {
    skip_spaces(s, 0)
}

/// Where the verb token ends.
pub open spec fn verb_end(s: Seq<char>) -> int {
    token_end(s, verb_start(s))
}

/// The verb: the first whitespace-delimited token of the line.
pub open spec fn verb_of(s: Seq<char>) -> Seq<char> {
    s.subrange(verb_start(s), verb_end(s))
}

/// Where the argument token starts.
pub open spec fn arg_start(s: Seq<char>) -> int {
    skip_spaces(s, verb_end(s))
}

/// Where the argument token ends.
pub open spec fn arg_end(s: Seq<char>) -> int {
    token_end(s, arg_start(s))
}

/// The argument: the second whitespace-delimited token of the line.
pub open spec fn arg_of(s: Seq<char>) -> Seq<char> {
    s.subrange(arg_start(s), arg_end(s))
}

/// Whether the line holds a verb at all.
pub open spec fn has_verb(s: Seq<char>) -> bool {
    verb_start(s) < s.len()
}

/// Whether the line holds an argument token after the verb.
pub open spec fn has_arg(s: Seq<char>) -> bool {
    arg_start(s) < s.len()
}

/// What a line of input parses to.
pub open spec fn spec_parse(s: Seq<char>) -> CommandModel {
    if !has_verb(s) {
        CommandModel::Unknown
    } else if verb_of(s) == "quit"@ {
        CommandModel::Quit
    } else if verb_of(s) == "look"@ {
        CommandModel::Look
    } else if verb_of(s) == "inventory"@ {
        CommandModel::Inventory
    } else if verb_of(s) == "east"@ {
        CommandModel::Go(Direction::East)
    } else if verb_of(s) == "west"@ {
        CommandModel::Go(Direction::West)
    } else if verb_of(s) == "take"@ {
        if has_arg(s) {
            CommandModel::Take(arg_of(s))
        } else {
            CommandModel::Unknown
        }
    } else if verb_of(s) == "drop"@ {
        if has_arg(s) {
            CommandModel::Drop(arg_of(s))
        } else {
            CommandModel::Unknown
        }
    } else {
        CommandModel::Unknown
    }
}

/// Parses one line of input.
pub fn parse_command(line: &str) -> (c: Command)
    ensures
        c@ == spec_parse(line@),
{
    let vs = skip_spaces_exec(line, 0);
    let ve = token_end_exec(line, vs);
    let verb = line.substring_char(vs, ve);
    if !(vs < line.unicode_len()) {
        return Command::Unknown;
    }
    if str_eq(verb, "quit") {
        Command::Quit
    } else if str_eq(verb, "look") {
        Command::Look
    } else if str_eq(verb, "inventory") {
        Command::Inventory
    } else if str_eq(verb, "east") {
        Command::Go(Direction::East)
    } else if str_eq(verb, "west") {
        Command::Go(Direction::West)
    } else if str_eq(verb, "take") || str_eq(verb, "drop") {
        let arg_from = skip_spaces_exec(line, ve);
        if !(arg_from < line.unicode_len()) {
            return Command::Unknown;
        }
        let ae = token_end_exec(line, arg_from);
        let arg = line.substring_char(arg_from, ae);
        if str_eq(verb, "take") {
            Command::Take(String::from_str(arg))
        } else {
            Command::Drop(String::from_str(arg))
        }
    } else {
        Command::Unknown
    }
}

} // verus!
