//! What services are made of.

use crate::builder::{AgentBuildConfig, BuildStep, FactoryAgentBuilder};
use crate::host::Host;
use crate::service::{
    build_ephemeral_service, build_persistent_service, EphemeralSessionService, PersistenceBundle,
    PersistentSessionService,
};
use std::sync::Arc;
use vstd::prelude::*;

verus! {

/// A bundle comes apart into the stores that were put into it.
pub proof fn law_bundle_keeps_its_stores<H: Host>(
    bundle: PersistenceBundle<H>,
    parts: (Arc<H::SessionStore>, Option<Arc<H::RuntimeStore>>),
)
    requires
        call_ensures(PersistenceBundle::<H>::into_parts, (bundle,), parts),
    ensures
        parts.0 == bundle.store,
        parts.1 == bundle.runtime_store,
{
}

/// An in-memory service takes as many sessions as it was asked to, and its builder has the
/// factory and the config that were given.
pub proof fn law_ephemeral_service_is_what_was_asked_for<H: Host>(
    factory: H::Factory,
    config: H::Config,
    max_sessions: usize,
    service: EphemeralSessionService<H>,
    its_factory: &H::Factory,
    its_config: &H::Config,
)
    requires
        call_ensures(build_ephemeral_service::<H>, (factory, config, max_sessions), service),
        call_ensures(FactoryAgentBuilder::<H>::factory, (&service.builder,), its_factory),
        call_ensures(FactoryAgentBuilder::<H>::config, (&service.builder,), its_config),
    ensures
        service.max_sessions == max_sessions,
        *its_factory == factory,
        *its_config == config,
{
}

/// An in-memory service's requests go to the factory as they are, with its config, and no store
/// is read for it.
pub proof fn law_ephemeral_service_adds_nothing<H: Host>(
    factory: H::Factory,
    config: H::Config,
    max_sessions: usize,
    service: EphemeralSessionService<H>,
    build: AgentBuildConfig<H>,
    step: BuildStep<H>,
)
    requires
        call_ensures(build_ephemeral_service::<H>, (factory, config, max_sessions), service),
        call_ensures(FactoryAgentBuilder::<H>::begin_build, (&service.builder, build), step),
    ensures
        step matches BuildStep::CallFactory(call) && call.build == build && cloned(
            config,
            call.resolved.config,
        ) && call.resolved.store_error is None,
{
}

/// A persistent service takes as many sessions as it was asked to and works on the stores of its
/// bundle; its builder has the factory and the config that were given.
pub proof fn law_persistent_service_is_what_was_asked_for<
    H: Host,
    F: FnOnce(Arc<H::SessionStore>) -> Arc<H::AgentSessionStore>,
>(
    factory: H::Factory,
    config: H::Config,
    max_sessions: usize,
    persistence: PersistenceBundle<H>,
    adapt: F,
    service: PersistentSessionService<H>,
    its_factory: &H::Factory,
    its_config: &H::Config,
)
    requires
        call_ensures(
            build_persistent_service::<H>,
            (factory, config, max_sessions, persistence, adapt),
            service,
        ),
        call_ensures(FactoryAgentBuilder::<H>::factory, (&service.builder,), its_factory),
        call_ensures(FactoryAgentBuilder::<H>::config, (&service.builder,), its_config),
    ensures
        service.max_sessions == max_sessions,
        service.store == persistence.store,
        service.runtime_store == persistence.runtime_store,
        *its_factory == factory,
        *its_config == config,
{
}

/// Unless a request names a session store of its own, a persistent service has the factory use
/// one adapter over the service's store, the same for every request. All else in a request goes
/// to the factory as it is, with the service's config, and no config store is read.
pub proof fn law_persistent_service_adds_its_store_only<
    H: Host,
    F: FnOnce(Arc<H::SessionStore>) -> Arc<H::AgentSessionStore>,
>(
    factory: H::Factory,
    config: H::Config,
    max_sessions: usize,
    persistence: PersistenceBundle<H>,
    adapt: F,
    service: PersistentSessionService<H>,
)
    requires
        call_ensures(
            build_persistent_service::<H>,
            (factory, config, max_sessions, persistence, adapt),
            service,
        ),
    ensures
        exists|adapted: Arc<H::AgentSessionStore>|
            {
                &&& #[trigger] call_ensures(adapt, (persistence.store,), adapted)
                &&& forall|build: AgentBuildConfig<H>, step: BuildStep<H>| #[trigger]
                    call_ensures(
                        FactoryAgentBuilder::<H>::begin_build,
                        (&service.builder, build),
                        step,
                    ) ==> {
                        &&& step matches BuildStep::CallFactory(call)
                        &&& call.build.options == build.options
                        &&& call.build.llm_client_override == build.llm_client_override
                        &&& call.build.tool_dispatcher_override == build.tool_dispatcher_override
                        &&& call.build.session_store_override == (
                        if build.session_store_override is Some {
                            build.session_store_override
                        } else {
                            Some(adapted)
                        })
                        &&& cloned(config, call.resolved.config)
                        &&& call.resolved.store_error is None
                    }
            },
{
    let adapted = choose|adapted: Arc<H::AgentSessionStore>| #[trigger]
        call_ensures(adapt, (persistence.store,), adapted) && service.assembled_from(
            factory,
            config,
            max_sessions,
            persistence,
            adapted,
        );
    assert(call_ensures(adapt, (persistence.store,), adapted));
}

} // verus!
