//! Why an invocation ends without success.

use vstd::prelude::*;
use vstd::string::*;
use crate::command::{command_name, InstantCommand};
use crate::usage::{variable_name, UsageType};

verus! {

/// The reasons for which an invocation fails. Each one ends it at once.
#[derive(Clone, Copy, Debug, PartialEq, Eq, Structural)]
pub enum Failure {
    /// A token names no measurement.
    InvalidUsageType,
    /// The server or the connection failed this instant command.
    CommandFailed { command: InstantCommand },
    /// The server or the connection failed the fetch of this measurement's
    /// variable.
    FetchFailed { variable: UsageType },
    /// The text fetched for this measurement's variable holds no number: it
    /// has no `": "`, or what follows it does not read as one. The two cases
    /// are reported alike.
    VariableNotFound { variable: UsageType },
    /// An event arrived that the pending action cannot have produced.
    OutOfTurn,
}

/// The text that reports a failure to the user.
pub open spec fn failure_message(failure: Failure) -> Seq<char> {
    match failure {
        Failure::InvalidUsageType => "Invalid usage type value."@,
        Failure::CommandFailed { command } => "Command "@ + command_name(command) + " failed"@,
        Failure::FetchFailed { variable } => "Variable "@ + variable_name(variable)
            + " could not be fetched"@,
        Failure::VariableNotFound { variable } => "Variable "@ + variable_name(variable)
            + " not found"@,
        Failure::OutOfTurn => "Unexpected event."@,
    }
}

impl Failure {
    /// The message for the user. A failure of a command or of a variable
    /// names it.
    pub fn message(&self) -> (text: String)
        ensures
            text@ == failure_message(*self),
    {
        match self {
            Failure::InvalidUsageType => String::from_str("Invalid usage type value."),
            Failure::CommandFailed { command } => String::from_str("Command ").concat(
                command.name(),
            ).concat(" failed"),
            Failure::FetchFailed { variable } => String::from_str("Variable ").concat(
                variable.var_name(),
            ).concat(" could not be fetched"),
            Failure::VariableNotFound { variable } => String::from_str("Variable ").concat(
                variable.var_name(),
            ).concat(" not found"),
            Failure::OutOfTurn => String::from_str("Unexpected event."),
        }
    }
}

} // verus!
