//! The types that the surrounding runtime brings along.

use vstd::prelude::*;

verus! {

/// The runtime's own types.
///
/// The library carries values of these types from where they are configured to where they are
/// used. It never looks inside one, so everything it states about them holds for any runtime.
/// Handles that several builds share are held as `Arc`s, and may be trait objects.
pub trait Host {
    /// Builds agents.
    type Factory;

    /// Configuration handed to the factory with each build.
    type Config: Clone;

    /// A store from which the latest configuration can be read.
    type ConfigStore: ?Sized;

    /// Why a configuration could not be read.
    type ConfigStoreError;

    /// A request to create a session.
    type CreateSessionRequest;

    /// Where a build reports its events.
    type EventSender;

    /// What a session request asks for besides the overrides in
    /// [`AgentBuildConfig`](crate::AgentBuildConfig).
    type BuildOptions;

    /// A client for a large language model.
    type LlmClient: ?Sized;

    /// Runs an agent's tool calls.
    type ToolDispatcher: ?Sized;

    /// Where an agent saves its session.
    type AgentSessionStore: ?Sized;

    /// Where a session service keeps its sessions.
    type SessionStore: ?Sized;

    /// Where a session service keeps its runtime state.
    type RuntimeStore: ?Sized;

    /// The running part of an agent: its loop, its client and its tools.
    type Engine;

    /// Why an agent failed, where neither its settings nor its making are at fault.
    type AgentFailure;

    /// Names a session.
    type SessionId: Clone;

    /// A point in time.
    type Time: Copy;

    /// One message of a session.
    type Message;

    /// Token counts by kind.
    type Usage: Clone;

    /// Names a skill.
    type SkillKey;

    /// System context shared between a session and its agent.
    type SystemContextState: ?Sized;

    /// Carries commands between agents.
    type CommsRuntime: ?Sized;

    /// A command for a comms runtime.
    type CommsCommand;

    /// What a comms runtime answers to a command it took.
    type SendReceipt;

    /// Why a comms runtime did not take a command, where it supports sending.
    type CommsError;

    /// A peer that an agent can reach.
    type PeerDirectoryEntry;

    /// Injects events into a running agent.
    type EventInjector: ?Sized;

    /// Injects events and reports on the interaction each one starts.
    type InteractionEventInjector: ?Sized;
}

} // verus!
