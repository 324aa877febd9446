//! Errors that sessions and agents report.

use vstd::prelude::*;

verus! {

/// An agent could not do what it was asked. `E` is what else can go wrong in an agent.
#[derive(Debug)]
pub enum AgentError<E> {
    /// A setting was rejected. The text is that of the agent's own error.
    ConfigError(String),
    /// The agent could not be built. The text is that of the factory's own error.
    InternalError(String),
    /// Any other failure.
    Other(E),
}

/// A session could not be created.
#[derive(Debug)]
pub enum SessionError<E> {
    /// The session's agent failed.
    Agent(AgentError<E>),
}

/// A comms command was not sent. `E` is what else can go wrong in a comms runtime.
#[derive(Debug)]
pub enum SendError<E> {
    /// Sending is not supported.
    Unsupported(String),
    /// Any other failure.
    Other(E),
}

} // verus!
