//! Agents and agent builders for session services.
//!
//! A session service creates its agents through a [`FactoryAgentBuilder`], which completes each
//! request with defaults and settles the config before an agent factory does the building. What
//! the factory builds is wrapped as a [`FactoryAgent`], the form in which the service runs it.
//!
//! The library makes the decisions; whatever has to be waited for is left to the caller, who is
//! told what to do next and reports back. It knows the runtime around it only by the types that a
//! [`Host`] names. What holds of every host is proved in [`laws`].

pub mod agent;
pub mod builder;
mod error;
mod host;
pub mod laws;
mod service;
mod session;

pub use agent::{DynAgent, FactoryAgent, PeersStep, SendRequest};
pub use builder::{
    AgentBuildConfig, BuildStep, BuilderState, FactoryAgentBuilder, FactoryCall, ResolvedConfig,
};
pub use error::{AgentError, SendError, SessionError};
pub use host::Host;
pub use service::{
    build_ephemeral_service, build_persistent_service, EphemeralSessionService, PersistenceBundle,
    PersistentSessionService,
};
pub use session::{Session, SessionSnapshot};
