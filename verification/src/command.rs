//! What one invocation is asked to do.

use vstd::prelude::*;
use crate::usage::UsageType;

verus! {

/// A one-shot action that the server carries out on a UPS.
#[derive(Clone, Copy, Debug, PartialEq, Eq, Structural)]
pub enum InstantCommand {
    /// Switch the load off.
    LoadOff,
    /// Switch the load on.
    LoadOn,
}

/// The name by which the server knows an instant command.
pub open spec fn command_name(command: InstantCommand) -> Seq<char> {
    match command {
        InstantCommand::LoadOff => "load.off"@,
        InstantCommand::LoadOn => "load.on"@,
    }
}

impl InstantCommand {
    /// The name to send to the server.
    pub fn name(&self) -> (name: &'static str)
        ensures
            name@ == command_name(*self),
    {
        match self {
            InstantCommand::LoadOff => "load.off",
            InstantCommand::LoadOn => "load.on",
        }
    }
}

/// The operation that the user chose.
#[derive(Debug, PartialEq, PartialOrd, Eq, Ord)]
pub enum Command {
    /// Turn the load off on the UPS.
    LoadOff,
    /// Turn the load on on the UPS.
    LoadOn,
    /// Report measurements, one line for each entry, in the order given.
    Usage { usage_types: Vec<UsageType> },
}

} // verus!
