//! Decision logic of a command-line client for Network UPS Tools servers:
//! which measurement a token names, which server variable carries it, and
//! the order of requests and output lines of one invocation.

pub mod command;
pub mod failure;
pub mod laws;
pub mod session;
pub mod text;
pub mod usage;
