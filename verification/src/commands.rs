//! Helpers for commands typed by a player.

use vstd::prelude::*;
use vstd::string::StringExecFns;

verus! {

/// Why a command's arguments were refused.
#[derive(Clone, Copy, Debug, PartialEq, Eq, Structural)]
pub enum CommandError {
    /// The command takes exactly one argument and got none or several.
    NeedOneArgument,
}

impl CommandError {
    /// The text shown to the player.
    pub fn message(&self) -> (text: String)
        ensures
            text@ == "need 1 argument"@,
    {
        String::from_str("need 1 argument")
    }
}

/// The single argument of a command, or an error when the command was not
/// given exactly one.
pub fn one_arg<'a>(args: &'a [&'a str]) -> (r: Result<&'a str, CommandError>)
    ensures
        args@.len() == 1 ==> r == Ok::<&str, CommandError>(args@[0]),
        args@.len() != 1 ==> r == Err::<&str, CommandError>(CommandError::NeedOneArgument),
{
    if args.len() == 1 {
        Ok(args[0])
    } else {
        Err(CommandError::NeedOneArgument)
    }
}

} // verus!
