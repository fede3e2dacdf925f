//! Command-line arguments: the argument record and the validation of the
//! sub-command against the fixed command set.
use vstd::prelude::*;

use crate::text::str_eq;

verus! {

/// The arguments the tool is invoked with: a sub-command and the dev-mode
/// flag. The command string is expected to pass [`validate_command`] before
/// anything is dispatched.
pub struct Args {
    /// The command to run, one of
    /// `start`, `stop`, `restart`, `status`, `logs`, `clean`, `config`, `install`.
    pub command: String,
    /// Whether dev mode is selected.
    pub dev: bool,
}

/// The closed set of recognized sub-commands.
#[derive(Clone, Copy, PartialEq, Eq, Structural, Debug)]
pub enum Command {
    Start,
    Stop,
    Restart,
    Status,
    Logs,
    Clean,
    Config,
    Install,
}

/// The spelling of each recognized sub-command.
pub open spec fn command_text(c: Command) -> Seq<char> {
    match c {
        Command::Start => "start"@,
        Command::Stop => "stop"@,
        Command::Restart => "restart"@,
        Command::Status => "status"@,
        Command::Logs => "logs"@,
        Command::Clean => "clean"@,
        Command::Config => "config"@,
        Command::Install => "install"@,
    }
}

/// Whether a string is the spelling of some recognized sub-command.
pub open spec fn is_valid_command(s: Seq<char>) -> bool {
    exists|c: Command| command_text(c) == s
}

/// Maps a command string to the sub-command it spells, and to `None` exactly
/// when it spells none of the eight.
pub fn parse_command(command: &str) -> (r: Option<Command>)
    ensures
        r matches Some(c) ==> command@ == command_text(c),
        r is Some <==> is_valid_command(command@),
{
    let r = if str_eq(command, "start") {
        Some(Command::Start)
    } else if str_eq(command, "stop") {
        Some(Command::Stop)
    } else if str_eq(command, "restart") {
        Some(Command::Restart)
    } else if str_eq(command, "status") {
        Some(Command::Status)
    } else if str_eq(command, "logs") {
        Some(Command::Logs)
    } else if str_eq(command, "clean") {
        Some(Command::Clean)
    } else if str_eq(command, "config") {
        Some(Command::Config)
    } else if str_eq(command, "install") {
        Some(Command::Install)
    } else {
        None
    };
    proof {
        if let Some(c) = r {
            assert(command_text(c) == command@);
        }
        if r is None {
            assert forall|c: Command| command_text(c) != command@ by {
                match c {
                    Command::Start => assert(command@ != "start"@),
                    Command::Stop => assert(command@ != "stop"@),
                    Command::Restart => assert(command@ != "restart"@),
                    Command::Status => assert(command@ != "status"@),
                    Command::Logs => assert(command@ != "logs"@),
                    Command::Clean => assert(command@ != "clean"@),
                    Command::Config => assert(command@ != "config"@),
                    Command::Install => assert(command@ != "install"@),
                }
            }
        }
    }
    r
}

/// Validates the command provided by the user: `Ok` exactly when the string
/// is a member of the fixed command set, and otherwise the fixed
/// "command doesn't exist" error, before anything is dispatched.
pub fn validate_command(command: &str) -> (r: Result<(), String>)
    ensures
        r is Ok <==> is_valid_command(command@),
        r matches Err(m) ==> m@ == "Command doesn't exist."@,
{
    match parse_command(command) {
        Some(_) => Ok(()),
        None => Err("Command doesn't exist.".to_owned()),
    }
}

} // verus!
