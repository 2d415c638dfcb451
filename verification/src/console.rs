//! Plain data shared with the operator console front end.
//!
//! The console's input reading and command dispatching live outside the core;
//! these are the typed values they exchange.

use vstd::prelude::*;

verus! {

/// Where a partially parsed console command is currently routed.
#[derive(Clone, Copy, Debug, PartialEq, Eq, Structural)]
pub enum RoutingName {
    Root,
    Persons,
    Village,
}

/// A console command in flight: its current routing stage and the words not
/// yet consumed.
#[derive(Clone, Debug)]
pub enum ConsoleCommand {
    Routing { name: RoutingName, args: Vec<String> },
}

/// What a combined console-or-mailbox wait produced: an operator line or a
/// value of the other stream.
#[derive(Clone, Debug)]
pub enum Received<T> {
    FromConsole(String),
    FromOther(T),
}

} // verus!
