//! What holds of the library as a whole.
//!
//! The laws here follow a build from its request to the factory. Those in [`agents`], [`builds`]
//! and [`services`] relate single calls to each other by what goes in and what comes out.

use crate::agent::{DynAgent, PeersStep, SendRequest};
use crate::builder::{AgentBuildConfig, BuildStep, BuilderState, FactoryCall, ResolvedConfig};
use crate::error::SendError;
use crate::host::Host;
use crate::service::{PersistenceBundle, PersistentSessionService};
use crate::session::SessionSnapshot;
use std::sync::Arc;
use vstd::prelude::*;

pub mod agents;
pub mod builds;
pub mod services;

verus! {

/// What a session request provides reaches the factory, whatever the builder's defaults and
/// whatever the config store answers.
pub proof fn law_override_wins<H: Host>(
    builder: BuilderState<H>,
    build: AgentBuildConfig<H>,
    read: Option<Result<H::Config, H::ConfigStoreError>>,
    call: FactoryCall<H>,
)
    requires
        builder.reaches(build, read, call),
    ensures
        build.llm_client_override is Some ==> call.build.llm_client_override
            == build.llm_client_override,
        build.tool_dispatcher_override is Some ==> call.build.tool_dispatcher_override
            == build.tool_dispatcher_override,
        build.session_store_override is Some ==> call.build.session_store_override
            == build.session_store_override,
{
}

/// What a session request leaves open is the builder's default when the factory gets it,
/// whatever the config says. Where there is no default it is still open, so that the factory
/// chooses by the config.
pub proof fn law_default_fills_what_is_open<H: Host>(
    builder: BuilderState<H>,
    build: AgentBuildConfig<H>,
    read: Option<Result<H::Config, H::ConfigStoreError>>,
    call: FactoryCall<H>,
)
    requires
        builder.reaches(build, read, call),
    ensures
        build.llm_client_override is None ==> call.build.llm_client_override
            == builder.default_llm_client,
        build.tool_dispatcher_override is None ==> call.build.tool_dispatcher_override
            == builder.default_tool_dispatcher,
        build.session_store_override is None ==> call.build.session_store_override
            == builder.default_session_store,
{
}

/// The rest of a session request reaches the factory as it is.
pub proof fn law_options_reach_the_factory<H: Host>(
    builder: BuilderState<H>,
    build: AgentBuildConfig<H>,
    read: Option<Result<H::Config, H::ConfigStoreError>>,
    call: FactoryCall<H>,
)
    requires
        builder.reaches(build, read, call),
    ensures
        call.build.options == build.options,
{
}

/// A builder without defaults hands each request to the factory unchanged, with its own config.
pub proof fn law_plain_builder_changes_nothing<H: Host>(
    factory: H::Factory,
    config: H::Config,
    build: AgentBuildConfig<H>,
    read: Option<Result<H::Config, H::ConfigStoreError>>,
    call: FactoryCall<H>,
)
    requires
        BuilderState::<H>::plain(factory, config).reaches(build, read, call),
    ensures
        read is None,
        call.build == build,
        cloned(config, call.resolved.config),
        call.resolved.store_error is None,
{
}

/// A config store is read in each build of a builder that has one, and in no other.
pub proof fn law_store_is_read_on_each_build<H: Host>(
    builder: BuilderState<H>,
    build: AgentBuildConfig<H>,
    step: BuildStep<H>,
)
    requires
        builder.begins(build, step),
    ensures
        match builder.config_store {
            Some(own) => step matches BuildStep::ReadConfig { store, .. } && store == own,
            None => step is CallFactory,
        },
{
}

/// A config that was read from the store is the one that the factory gets.
pub proof fn law_latest_config_is_used<H: Host>(
    builder: BuilderState<H>,
    build: AgentBuildConfig<H>,
    config: H::Config,
    call: FactoryCall<H>,
)
    requires
        builder.reaches(build, Some(Ok(config)), call),
    ensures
        call.resolved.config == config,
        call.resolved.store_error is None,
{
}

/// If the store read fails, the build goes on as if the builder had no store but only the config
/// that it was created with; the store's error is reported on the side.
pub proof fn law_failed_read_falls_back<H: Host>(
    builder: BuilderState<H>,
    build: AgentBuildConfig<H>,
    error: H::ConfigStoreError,
    call: FactoryCall<H>,
)
    requires
        builder.reaches(build, Some(Err(error)), call),
    ensures
        call.resolved.store_error == Some(error),
        (BuilderState { config_store: None, ..builder }).reaches(
            build,
            None,
            FactoryCall {
                resolved: ResolvedConfig { store_error: None, ..call.resolved },
                ..call
            },
        ),
{
    let storeless = BuilderState { config_store: None, ..builder };
    let same = FactoryCall {
        resolved: ResolvedConfig { store_error: None, ..call.resolved },
        ..call
    };
    assert(storeless.begins(build, BuildStep::CallFactory(same)));
}

/// Where copies of a config equal it, the config of a build is the one that was read, or else the
/// very config that the builder was created with.
pub proof fn law_fallback_is_the_initial_config<H: Host>(
    builder: BuilderState<H>,
    read: Option<Result<H::Config, H::ConfigStoreError>>,
    resolved: ResolvedConfig<H>,
)
    requires
        forall|a: H::Config, b: H::Config| #[trigger] cloned(a, b) ==> a == b,
        builder.resolves(read, resolved),
    ensures
        resolved.config == match read {
            Some(Ok(latest)) => latest,
            _ => builder.config_snapshot,
        },
{
}

/// A failed read between two successful ones is answered with the initial config, not with the
/// last one read, and does not stop the later read from being used.
pub proof fn law_failed_read_does_not_stick<H: Host>(
    builder: BuilderState<H>,
    earlier: H::Config,
    error: H::ConfigStoreError,
    later: H::Config,
    first: ResolvedConfig<H>,
    second: ResolvedConfig<H>,
    third: ResolvedConfig<H>,
)
    requires
        forall|a: H::Config, b: H::Config| #[trigger] cloned(a, b) ==> a == b,
        builder.resolves(Some(Ok(earlier)), first),
        builder.resolves(Some(Err(error)), second),
        builder.resolves(Some(Ok(later)), third),
    ensures
        first.config == earlier,
        second.config == builder.config_snapshot,
        third.config == later,
{
}

/// A store that cannot be read is the same as no store: both give the initial config.
pub proof fn law_unreadable_store_is_no_store<H: Host>(
    factory: H::Factory,
    config: H::Config,
    store: Arc<H::ConfigStore>,
    error: H::ConfigStoreError,
    unreadable: ResolvedConfig<H>,
    storeless: ResolvedConfig<H>,
)
    requires
        forall|a: H::Config, b: H::Config| #[trigger] cloned(a, b) ==> a == b,
        (BuilderState::<H> { config_store: Some(store), ..BuilderState::plain(factory, config) })
            .resolves(Some(Err(error)), unreadable),
        BuilderState::<H>::plain(factory, config).resolves(None, storeless),
    ensures
        unreadable.config == config,
        storeless.config == config,
{
}

/// Each build comes to the factory, whatever its request holds, and whatever the config store
/// answers where there is one to be read.
pub proof fn law_each_build_reaches_the_factory<H: Host>(
    builder: BuilderState<H>,
    build: AgentBuildConfig<H>,
    read: Option<Result<H::Config, H::ConfigStoreError>>,
)
    requires
        read is Some <==> builder.config_store is Some,
    ensures
        exists|call: FactoryCall<H>| #[trigger] builder.reaches(build, read, call),
{
    let resolved = match read {
        Some(Ok(config)) => ResolvedConfig { config, store_error: None },
        Some(Err(error)) => ResolvedConfig {
            config: builder.config_snapshot,
            store_error: Some(error),
        },
        None => ResolvedConfig { config: builder.config_snapshot, store_error: None },
    };
    let call = FactoryCall { build: builder.with_defaults(build), resolved };
    let step = match builder.config_store {
        Some(store) => BuildStep::ReadConfig { store, build: call.build },
        None => BuildStep::CallFactory(call),
    };
    assert(builder.begins(build, step));
    assert(builder.reaches(build, read, call));
}

/// Which client, dispatcher and store an agent is built with does not depend on the config.
pub proof fn law_injection_ignores_config<H: Host>(
    builder: BuilderState<H>,
    build: AgentBuildConfig<H>,
    first_read: Option<Result<H::Config, H::ConfigStoreError>>,
    first: FactoryCall<H>,
    second_read: Option<Result<H::Config, H::ConfigStoreError>>,
    second: FactoryCall<H>,
)
    requires
        builder.reaches(build, first_read, first),
        builder.reaches(build, second_read, second),
    ensures
        first.build == second.build,
{
}

/// A request that went through a builder once is not changed by going through it again.
pub proof fn law_defaults_fill_once<H: Host>(
    builder: BuilderState<H>,
    build: AgentBuildConfig<H>,
)
    ensures
        builder.with_defaults(builder.with_defaults(build)) == builder.with_defaults(build),
{
}

/// Each default bears on its own override only.
pub proof fn law_defaults_are_independent<H: Host>(
    builder: BuilderState<H>,
    build: AgentBuildConfig<H>,
    client: Option<Arc<H::LlmClient>>,
    dispatcher: Option<Arc<H::ToolDispatcher>>,
    store: Option<Arc<H::AgentSessionStore>>,
)
    ensures
        ({
            let before = builder.with_defaults(build);
            let changed = BuilderState { default_llm_client: client, ..builder };
            let after = changed.with_defaults(build);
            after == (AgentBuildConfig { llm_client_override: after.llm_client_override, ..before })
        }),
        ({
            let before = builder.with_defaults(build);
            let changed = BuilderState { default_tool_dispatcher: dispatcher, ..builder };
            let after = changed.with_defaults(build);
            after == (AgentBuildConfig {
                tool_dispatcher_override: after.tool_dispatcher_override,
                ..before
            })
        }),
        ({
            let before = builder.with_defaults(build);
            let changed = BuilderState { default_session_store: store, ..builder };
            let after = changed.with_defaults(build);
            after == (AgentBuildConfig {
                session_store_override: after.session_store_override,
                ..before
            })
        }),
{
}

/// The agents of a persistent service save their sessions to the service's own store: unless a
/// request names another one, the factory gets the adapter over it and opens none itself. All
/// else in the request, and the config, are as they were given.
pub proof fn law_persistent_service_shares_its_store<H: Host>(
    service: PersistentSessionService<H>,
    factory: H::Factory,
    config: H::Config,
    max_sessions: usize,
    persistence: PersistenceBundle<H>,
    adapted: Arc<H::AgentSessionStore>,
    build: AgentBuildConfig<H>,
    read: Option<Result<H::Config, H::ConfigStoreError>>,
    call: FactoryCall<H>,
)
    requires
        service.assembled_from(factory, config, max_sessions, persistence, adapted),
        service.builder@.reaches(build, read, call),
    ensures
        service.store == persistence.store,
        call.build == (AgentBuildConfig {
            session_store_override: match build.session_store_override {
                Some(named) => Some(named),
                None => Some(adapted),
            },
            ..build
        }),
        cloned(config, call.resolved.config),
{
}

/// An agent sends, and asks for its peers, through one and the same runtime. Without one it
/// refuses every command and has no peers.
pub proof fn law_comms_go_through_one_runtime<H: Host>(
    agent: DynAgent<H>,
    cmd: H::CommsCommand,
    sent: Result<SendRequest<H>, SendError<H::CommsError>>,
    peers: PeersStep<H>,
)
    requires
        crate::agent::sends(agent, cmd, sent),
        crate::agent::lists_peers(agent, peers),
    ensures
        sent is Err <==> agent.comms is None,
        peers is Known <==> agent.comms is None,
        sent is Err ==> sent->Err_0 is Unsupported,
        peers matches PeersStep::Known(known) ==> known@.len() == 0,
        sent matches Ok(request) ==> peers == PeersStep::<H>::Ask(request.runtime)
            && agent.comms == Some(request.runtime) && request.cmd == cmd,
{
}

/// Two snapshots that show one session are equal, where copies of token counts equal them: taking
/// a snapshot does not touch the session.
pub proof fn law_snapshots_of_one_session_agree<H: Host>(
    agent: DynAgent<H>,
    first: SessionSnapshot<H>,
    second: SessionSnapshot<H>,
)
    requires
        forall|a: H::Usage, b: H::Usage| #[trigger] cloned(a, b) ==> a == b,
        first.shows(agent.session),
        second.shows(agent.session),
    ensures
        first == second,
        first.usage == agent.session.total_usage,
{
}

/// The id that an agent gives is its session's, each time that it is asked, where copies of an id
/// equal it.
pub proof fn law_session_id_is_the_sessions<H: Host>(
    agent: DynAgent<H>,
    first: H::SessionId,
    second: H::SessionId,
)
    requires
        forall|a: H::SessionId, b: H::SessionId| #[trigger] cloned(a, b) ==> a == b,
        crate::agent::gives_id(agent, first),
        crate::agent::gives_id(agent, second),
    ensures
        first == agent.session.id,
        first == second,
{
}

} // verus!
