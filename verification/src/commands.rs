//! The two slash commands the conversational front end understands.

use vstd::prelude::*;

use crate::errors::AppError;
use crate::text::str_eq;

verus! {

/// A slash command.
#[derive(Debug, Clone, Copy, PartialEq, Eq, Structural)]
pub enum Command {
    /// Show the help text.
    Help,
    /// Open the menu.
    Start,
}

/// The text each command is sent as.
pub open spec fn command_text(c: Command) -> Seq<char> {
    match c {
        Command::Help => "/help"@,
        Command::Start => "/start"@,
    }
}

impl Command {
    /// The text of this command.
    pub fn text(&self) -> (r: &'static str)
        ensures
            r@ == command_text(*self),
    {
        match self {
            Command::Help => "/help",
            Command::Start => "/start",
        }
    }

    /// Maps a message text back to its command; other text is no command.
    pub fn from_str(s: &str) -> (r: Result<Command, AppError>)
        ensures
            r matches Ok(c) ==> s@ == command_text(c),
            r is Err <==> !exists|c: Command| s@ == command_text(c),
            r matches Err(e) ==> e is InvalidArgument,
    {
        let r = if str_eq(s, "/help") {
            Ok(Command::Help)
        } else if str_eq(s, "/start") {
            Ok(Command::Start)
        } else {
            Err(AppError::InvalidArgument)
        };
        proof {
            match r {
                Ok(c) => {
                    assert(exists|c2: Command| s@ == command_text(c2)) by {
                        assert(s@ == command_text(c));
                    }
                },
                Err(_) => {
                    assert forall|c: Command| s@ != command_text(c) by {
                        match c {
                            Command::Help => {},
                            Command::Start => {},
                        }
                    }
                },
            }
        }
        r
    }
}

} // verus!
