//! What session services are made from.

use crate::builder::{BuilderState, FactoryAgentBuilder};
use crate::host::Host;
use std::sync::Arc;
use vstd::prelude::*;

verus! {

/// The stores that a persistent service works on.
pub struct PersistenceBundle<H: Host> {
    pub store: Arc<H::SessionStore>,
    pub runtime_store: Option<Arc<H::RuntimeStore>>,
}

/// The parts of a service that keeps its sessions in memory.
pub struct EphemeralSessionService<H: Host> {
    pub builder: FactoryAgentBuilder<H>,
    pub max_sessions: usize,
}

/// The parts of a service that keeps its sessions in a store.
pub struct PersistentSessionService<H: Host> {
    pub builder: FactoryAgentBuilder<H>,
    pub max_sessions: usize,
    pub store: Arc<H::SessionStore>,
    pub runtime_store: Option<Arc<H::RuntimeStore>>,
}

impl<H: Host> PersistentSessionService<H> {
    /// Whether this is the service over `persistence` whose agents save their sessions to
    /// `adapted`.
    pub open spec fn assembled_from(
        self,
        factory: H::Factory,
        config: H::Config,
        max_sessions: usize,
        persistence: PersistenceBundle<H>,
        adapted: Arc<H::AgentSessionStore>,
    ) -> bool {
        &&& self.builder@ == (BuilderState::<H> {
            default_session_store: Some(adapted),
            ..BuilderState::plain(factory, config)
        })
        &&& self.max_sessions == max_sessions
        &&& self.store == persistence.store
        &&& self.runtime_store == persistence.runtime_store
    }
}

impl<H: Host> PersistenceBundle<H> {
    /// Take the bundle apart.
    pub fn into_parts(self) -> (r: (Arc<H::SessionStore>, Option<Arc<H::RuntimeStore>>))
        ensures
            r == (self.store, self.runtime_store),
    {
        (self.store, self.runtime_store)
    }
}

/// Convenience: the parts of an in-memory service backed by an agent factory.
pub fn build_ephemeral_service<H: Host>(
    factory: H::Factory,
    config: H::Config,
    max_sessions: usize,
) -> (r: EphemeralSessionService<H>)
    ensures
        r.builder@ == BuilderState::<H>::plain(factory, config),
        r.max_sessions == max_sessions,
{
    let builder = FactoryAgentBuilder::new(factory, config);
    EphemeralSessionService { builder, max_sessions }
}

/// Convenience: the parts of a persistent service backed by an agent factory.
///
/// `adapt` lets the service's session store serve as that of its agents. It is called once, and
/// the result is shared by all builds.
pub fn build_persistent_service<H: Host>(
    factory: H::Factory,
    config: H::Config,
    max_sessions: usize,
    persistence: PersistenceBundle<H>,
    adapt: impl FnOnce(Arc<H::SessionStore>) -> Arc<H::AgentSessionStore>,
) -> (r: PersistentSessionService<H>)
    requires
        adapt.requires((persistence.store,)),
    ensures
        exists|adapted: Arc<H::AgentSessionStore>| #[trigger]
            adapt.ensures((persistence.store,), adapted) && r.assembled_from(
                factory,
                config,
                max_sessions,
                persistence,
                adapted,
            ),
{
    let mut builder = FactoryAgentBuilder::new(factory, config);
    let (store, runtime_store) = persistence.into_parts();
    // Inject the persistence store into agent builds so the factory reuses it instead of opening
    // an independent one, which would conflict with it over the same directory.
    builder.set_default_session_store(Some(adapt(store.clone())));
    PersistentSessionService { builder, max_sessions, store, runtime_store }
}

} // verus!
