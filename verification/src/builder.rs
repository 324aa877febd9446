//! The builder of a session service's agents.
//!
//! A build takes up to three steps, between which the caller does what has to be waited for:
//!
//! 1. [`FactoryAgentBuilder::build_agent`] completes the request and says what comes next.
//! 2. Where a config store is to be read, [`FactoryAgentBuilder::config_read`] takes what the
//!    store answered.
//! 3. The factory builds from the [`FactoryCall`], and [`FactoryAgentBuilder::agent_built`] takes
//!    what came of it.

use crate::agent::{DynAgent, FactoryAgent};
use crate::error::{AgentError, SessionError};
use crate::host::Host;
use std::fmt::Display;
use std::sync::Arc;
use vstd::prelude::*;

verus! {

/// What an agent is to be built from.
pub struct AgentBuildConfig<H: Host> {
    /// Everything that the builder has no default for.
    pub options: H::BuildOptions,
    /// The client to use in place of one that the factory would choose.
    pub llm_client_override: Option<Arc<H::LlmClient>>,
    /// The dispatcher to use in place of one that the factory would set up.
    pub tool_dispatcher_override: Option<Arc<H::ToolDispatcher>>,
    /// The session store to use in place of one that the factory would open.
    pub session_store_override: Option<Arc<H::AgentSessionStore>>,
}

/// Builds agents with an agent factory, for a session service.
pub struct FactoryAgentBuilder<H: Host> {
    factory: H::Factory,
    config_snapshot: H::Config,
    config_store: Option<Arc<H::ConfigStore>>,
    /// Optional default LLM client injected when no override is provided (for testing).
    pub default_llm_client: Option<Arc<H::LlmClient>>,
    /// Optional default tool dispatcher injected when no override is provided.
    /// Used where filesystem-based tool resolution is unavailable.
    pub default_tool_dispatcher: Option<Arc<H::ToolDispatcher>>,
    /// Optional default session store injected when no override is provided.
    /// Used where filesystem-based stores are unavailable.
    pub default_session_store: Option<Arc<H::AgentSessionStore>>,
}

/// What a [`FactoryAgentBuilder`] holds.
pub struct BuilderState<H: Host> {
    pub factory: H::Factory,
    pub config_snapshot: H::Config,
    pub config_store: Option<Arc<H::ConfigStore>>,
    pub default_llm_client: Option<Arc<H::LlmClient>>,
    pub default_tool_dispatcher: Option<Arc<H::ToolDispatcher>>,
    pub default_session_store: Option<Arc<H::AgentSessionStore>>,
}

impl<H: Host> View for FactoryAgentBuilder<H> {
    type V = BuilderState<H>;

    closed spec fn view(&self) -> BuilderState<H> {
        BuilderState {
            factory: self.factory,
            config_snapshot: self.config_snapshot,
            config_store: self.config_store,
            default_llm_client: self.default_llm_client,
            default_tool_dispatcher: self.default_tool_dispatcher,
            default_session_store: self.default_session_store,
        }
    }
}

/// A configuration, and what went wrong on the way to a later one.
pub struct ResolvedConfig<H: Host> {
    pub config: H::Config,
    /// Why the store's configuration was not taken.
    pub store_error: Option<H::ConfigStoreError>,
}

/// What the factory is to build.
pub struct FactoryCall<H: Host> {
    pub build: AgentBuildConfig<H>,
    pub resolved: ResolvedConfig<H>,
}

/// What a build needs next.
pub enum BuildStep<H: Host> {
    /// Read `store`, and hand what it answers to [`FactoryAgentBuilder::config_read`] together
    /// with `build`.
    ReadConfig { store: Arc<H::ConfigStore>, build: AgentBuildConfig<H> },
    /// Have the factory build, and hand what comes of it to
    /// [`FactoryAgentBuilder::agent_built`].
    CallFactory(FactoryCall<H>),
}

/// What stands in a slot that was given `provided` and has the default `default`.
pub open spec fn or_default<T: ?Sized>(
    provided: Option<Arc<T>>,
    default: Option<Arc<T>>,
) -> Option<Arc<T>> {
    match provided {
        Some(_) => provided,
        None => default,
    }
}

/// Give a slot its default, if none was provided.
fn inject<T: ?Sized>(provided: Option<Arc<T>>, default: &Option<Arc<T>>) -> (r: Option<Arc<T>>)
    ensures
        r == or_default(provided, *default),
{
    if provided.is_none() {
        if let Some(value) = default {
            return Some(value.clone());
        }
    }
    provided
}

/// `error` is the outcome of a build that failed for `reason`.
pub open spec fn reports_build_error<F, E: Display>(error: SessionError<F>, reason: E) -> bool {
    error matches SessionError::Agent(AgentError::InternalError(text))
        && vstd::string::to_string_from_display_ensures::<E>(&reason, text)
}

impl<H: Host> BuilderState<H> {
    /// `build` with this builder's defaults for what it leaves open.
    pub open spec fn with_defaults(self, build: AgentBuildConfig<H>) -> AgentBuildConfig<H> {
        AgentBuildConfig {
            options: build.options,
            llm_client_override: or_default(build.llm_client_override, self.default_llm_client),
            tool_dispatcher_override: or_default(
                build.tool_dispatcher_override,
                self.default_tool_dispatcher,
            ),
            session_store_override: or_default(
                build.session_store_override,
                self.default_session_store,
            ),
        }
    }

    /// Whether `resolved` is what this builder makes of `read`: what the config store answered,
    /// or `None` where no store was read.
    pub open spec fn resolves(
        self,
        read: Option<Result<H::Config, H::ConfigStoreError>>,
        resolved: ResolvedConfig<H>,
    ) -> bool {
        match read {
            Some(Ok(config)) => resolved.config == config && resolved.store_error is None,
            Some(Err(error)) => {
                &&& cloned(self.config_snapshot, resolved.config)
                &&& resolved.store_error == Some(error)
            },
            None => {
                &&& cloned(self.config_snapshot, resolved.config)
                &&& resolved.store_error is None
            },
        }
    }

    /// Whether `step` is how this builder begins a build from `build`.
    pub open spec fn begins(self, build: AgentBuildConfig<H>, step: BuildStep<H>) -> bool {
        match self.config_store {
            Some(store) => step == (BuildStep::<H>::ReadConfig {
                store,
                build: self.with_defaults(build),
            }),
            None => {
                &&& step matches BuildStep::CallFactory(call)
                &&& call.build == self.with_defaults(build)
                &&& self.resolves(None, call.resolved)
            },
        }
    }

    /// Whether `call` is how this builder goes on with `build` once a config was `read`.
    pub open spec fn goes_on(
        self,
        build: AgentBuildConfig<H>,
        read: Result<H::Config, H::ConfigStoreError>,
        call: FactoryCall<H>,
    ) -> bool {
        call.build == build && self.resolves(Some(read), call.resolved)
    }

    /// Whether a build from `build` comes to the factory as `call`, when `read` is what the
    /// config store answered, or `None` where no store was read.
    pub open spec fn reaches(
        self,
        build: AgentBuildConfig<H>,
        read: Option<Result<H::Config, H::ConfigStoreError>>,
        call: FactoryCall<H>,
    ) -> bool {
        exists|step: BuildStep<H>|
            {
                &&& #[trigger] self.begins(build, step)
                &&& match step {
                    BuildStep::ReadConfig { store: _, build: completed } => {
                        read matches Some(answer) && self.goes_on(completed, answer, call)
                    },
                    BuildStep::CallFactory(made) => read is None && call == made,
                }
            }
    }

    /// A builder with nothing but a factory and a config.
    pub open spec fn plain(factory: H::Factory, config: H::Config) -> Self {
        BuilderState {
            factory,
            config_snapshot: config,
            config_store: None,
            default_llm_client: None,
            default_tool_dispatcher: None,
            default_session_store: None,
        }
    }
}

impl<H: Host> FactoryAgentBuilder<H> {
    /// Create a new builder backed by the given factory and config.
    pub fn new(factory: H::Factory, config: H::Config) -> (r: Self)
        ensures
            r@ == BuilderState::<H>::plain(factory, config),
    {
        FactoryAgentBuilder {
            factory,
            config_snapshot: config,
            config_store: None,
            default_llm_client: None,
            default_tool_dispatcher: None,
            default_session_store: None,
        }
    }

    /// Create a new builder that resolves config from a store on each build.
    ///
    /// If the store read fails, the builder falls back to `initial_config`.
    pub fn new_with_config_store(
        factory: H::Factory,
        initial_config: H::Config,
        config_store: Arc<H::ConfigStore>,
    ) -> (r: Self)
        ensures
            r@ == (BuilderState::<H> {
                config_store: Some(config_store),
                ..BuilderState::plain(factory, initial_config)
            }),
    {
        FactoryAgentBuilder {
            factory,
            config_snapshot: initial_config,
            config_store: Some(config_store),
            default_llm_client: None,
            default_tool_dispatcher: None,
            default_session_store: None,
        }
    }

    /// Set the default LLM client, as assigning the field does, and say so to the verifier.
    pub fn set_default_llm_client(&mut self, client: Option<Arc<H::LlmClient>>)
        ensures
            final(self)@ == (BuilderState { default_llm_client: client, ..old(self)@ }),
    {
        self.default_llm_client = client;
    }

    /// Set the default tool dispatcher, as assigning the field does, and say so to the verifier.
    pub fn set_default_tool_dispatcher(&mut self, dispatcher: Option<Arc<H::ToolDispatcher>>)
        ensures
            final(self)@ == (BuilderState { default_tool_dispatcher: dispatcher, ..old(self)@ }),
    {
        self.default_tool_dispatcher = dispatcher;
    }

    /// Set the default session store, as assigning the field does, and say so to the verifier.
    pub fn set_default_session_store(&mut self, store: Option<Arc<H::AgentSessionStore>>)
        ensures
            final(self)@ == (BuilderState { default_session_store: store, ..old(self)@ }),
    {
        self.default_session_store = store;
    }

    /// The config for a build: the one that was `read` from the store, or a copy of the
    /// builder's own where no store was read or the read failed.
    pub fn resolve_config(&self, read: Option<Result<H::Config, H::ConfigStoreError>>) -> (r:
        ResolvedConfig<H>)
        ensures
            self@.resolves(read, r),
    {
        let mut store_error = None;
        if let Some(answer) = read {
            match answer {
                Ok(config) => {
                    return ResolvedConfig { config, store_error: None };
                },
                Err(error) => {
                    store_error = Some(error);
                },
            }
        }
        ResolvedConfig { config: self.config_snapshot.clone(), store_error }
    }

    /// Get a reference to the factory.
    pub fn factory(&self) -> (r: &H::Factory)
        ensures
            *r == self@.factory,
    {
        &self.factory
    }

    /// Get a reference to the config.
    pub fn config(&self) -> (r: &H::Config)
        ensures
            *r == self@.config_snapshot,
    {
        &self.config_snapshot
    }

    /// Begin to build an agent for a session request.
    ///
    /// `configure` reads off the request what the agent is to be built from; the build's events
    /// go to `event_tx`. The builder's defaults fill what the request leaves open.
    pub fn build_agent(
        &self,
        req: &H::CreateSessionRequest,
        event_tx: H::EventSender,
        configure: impl FnOnce(&H::CreateSessionRequest, H::EventSender) -> AgentBuildConfig<H>,
    ) -> (r: BuildStep<H>)
        requires
            configure.requires((req, event_tx)),
        ensures
            exists|build: AgentBuildConfig<H>| #[trigger]
                configure.ensures((req, event_tx), build) && self@.begins(build, r),
    {
        self.begin_build(configure(req, event_tx))
    }

    /// Begin to build an agent from `build`.
    ///
    /// The builder's defaults fill what `build` leaves open. A builder with a config store reads
    /// it anew for each build; one without needs no more than its own config.
    pub fn begin_build(&self, build: AgentBuildConfig<H>) -> (r: BuildStep<H>)
        ensures
            self@.begins(build, r),
    {
        let mut build = build;

        // Inject default LLM client if none provided.
        build.llm_client_override = inject(build.llm_client_override, &self.default_llm_client);

        // Inject default tool dispatcher if none provided.
        build.tool_dispatcher_override = inject(
            build.tool_dispatcher_override,
            &self.default_tool_dispatcher,
        );

        // Inject default session store if none provided.
        build.session_store_override = inject(
            build.session_store_override,
            &self.default_session_store,
        );

        match &self.config_store {
            Some(store) => BuildStep::ReadConfig { store: store.clone(), build },
            None => BuildStep::CallFactory(
                FactoryCall { build, resolved: self.resolve_config(None) },
            ),
        }
    }

    /// Go on with a build for which the config store was read.
    pub fn config_read(
        &self,
        build: AgentBuildConfig<H>,
        read: Result<H::Config, H::ConfigStoreError>,
    ) -> (r: FactoryCall<H>)
        ensures
            self@.goes_on(build, read, r),
    {
        FactoryCall { build, resolved: self.resolve_config(Some(read)) }
    }

    /// Finish a build with what came of the factory's work.
    ///
    /// The factory's agent is wrapped as it is. A failure is an internal error of the session's
    /// agent, with the text of the factory's own error.
    pub fn agent_built<E: Display>(built: Result<DynAgent<H>, E>) -> (r: Result<
        FactoryAgent<H>,
        SessionError<H::AgentFailure>,
    >)
        ensures
            match built {
                Ok(agent) => r matches Ok(wrapped) && wrapped@ == agent,
                Err(reason) => r matches Err(error) && reports_build_error(error, reason),
            },
    {
        match built {
            Ok(agent) => Ok(FactoryAgent::new(agent)),
            Err(reason) => Err(SessionError::Agent(AgentError::InternalError(reason.to_string()))),
        }
    }
}

} // verus!
