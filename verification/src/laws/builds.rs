//! What the steps of a build have to do with each other, and with how the builder was set up.
//!
//! Each law speaks of calls and of what they returned. Where a builder is asked twice, it is
//! unchanged in between unless the law says otherwise.

use crate::agent::{DynAgent, FactoryAgent};
use crate::builder::{
    AgentBuildConfig, BuildStep, FactoryAgentBuilder, FactoryCall, ResolvedConfig,
};
use crate::error::{AgentError, SessionError};
use crate::host::Host;
use std::fmt::Display;
use std::sync::Arc;
use vstd::prelude::*;

verus! {

/// What an agent is to be built from, as a step carries it.
pub open spec fn carried<H: Host>(step: BuildStep<H>) -> AgentBuildConfig<H> {
    match step {
        BuildStep::ReadConfig { store: _, build } => build,
        BuildStep::CallFactory(call) => call.build,
    }
}

/// A new builder has the factory and the config that it was given, and neither a config store nor
/// a default: each request goes to the factory as it is, with that config.
pub proof fn law_new_builder_adds_nothing<H: Host>(
    factory: H::Factory,
    config: H::Config,
    builder: FactoryAgentBuilder<H>,
    its_factory: &H::Factory,
    its_config: &H::Config,
    build: AgentBuildConfig<H>,
    step: BuildStep<H>,
)
    requires
        call_ensures(FactoryAgentBuilder::<H>::new, (factory, config), builder),
        call_ensures(FactoryAgentBuilder::<H>::factory, (&builder,), its_factory),
        call_ensures(FactoryAgentBuilder::<H>::config, (&builder,), its_config),
        call_ensures(FactoryAgentBuilder::<H>::begin_build, (&builder, build), step),
    ensures
        *its_factory == factory,
        *its_config == config,
        step matches BuildStep::CallFactory(call) && call.build == build && cloned(
            config,
            call.resolved.config,
        ) && call.resolved.store_error is None,
{
}

/// A new builder over a config store has the factory and the config that it was given and no
/// default: the first thing in each build is to read that store, and the request is kept as it is.
pub proof fn law_new_builder_reads_its_store<H: Host>(
    factory: H::Factory,
    config: H::Config,
    store: Arc<H::ConfigStore>,
    builder: FactoryAgentBuilder<H>,
    its_factory: &H::Factory,
    its_config: &H::Config,
    build: AgentBuildConfig<H>,
    step: BuildStep<H>,
)
    requires
        call_ensures(
            FactoryAgentBuilder::<H>::new_with_config_store,
            (factory, config, store),
            builder,
        ),
        call_ensures(FactoryAgentBuilder::<H>::factory, (&builder,), its_factory),
        call_ensures(FactoryAgentBuilder::<H>::config, (&builder,), its_config),
        call_ensures(FactoryAgentBuilder::<H>::begin_build, (&builder, build), step),
    ensures
        *its_factory == factory,
        *its_config == config,
        step matches BuildStep::ReadConfig { store: asked, build: kept } && asked == store && kept
            == build,
{
}

/// What a request provides is carried on by the first step, whatever the builder's defaults.
pub proof fn law_step_keeps_what_was_provided<H: Host>(
    builder: &FactoryAgentBuilder<H>,
    build: AgentBuildConfig<H>,
    step: BuildStep<H>,
)
    requires
        call_ensures(FactoryAgentBuilder::<H>::begin_build, (builder, build), step),
    ensures
        carried(step).options == build.options,
        build.llm_client_override is Some ==> carried(step).llm_client_override
            == build.llm_client_override,
        build.tool_dispatcher_override is Some ==> carried(step).tool_dispatcher_override
            == build.tool_dispatcher_override,
        build.session_store_override is Some ==> carried(step).session_store_override
            == build.session_store_override,
{
}

/// Whether a store is read, and which, is the same for every request. Where none is, the factory
/// gets a copy of the builder's config.
pub proof fn law_step_kind_is_the_builders<H: Host>(
    builder: &FactoryAgentBuilder<H>,
    its_config: &H::Config,
    build: AgentBuildConfig<H>,
    step: BuildStep<H>,
    other_build: AgentBuildConfig<H>,
    other_step: BuildStep<H>,
)
    requires
        call_ensures(FactoryAgentBuilder::<H>::config, (builder,), its_config),
        call_ensures(FactoryAgentBuilder::<H>::begin_build, (builder, build), step),
        call_ensures(FactoryAgentBuilder::<H>::begin_build, (builder, other_build), other_step),
    ensures
        step is ReadConfig <==> other_step is ReadConfig,
        step matches BuildStep::ReadConfig { store, .. } ==> (
        other_step matches BuildStep::ReadConfig { store: same, .. } && same == store),
        step matches BuildStep::CallFactory(call) ==> cloned(*its_config, call.resolved.config)
            && call.resolved.store_error is None,
{
}

/// What two requests leave open is filled with the same thing in both.
pub proof fn law_open_slots_are_filled_alike<H: Host>(
    builder: &FactoryAgentBuilder<H>,
    build: AgentBuildConfig<H>,
    step: BuildStep<H>,
    other_build: AgentBuildConfig<H>,
    other_step: BuildStep<H>,
)
    requires
        call_ensures(FactoryAgentBuilder::<H>::begin_build, (builder, build), step),
        call_ensures(FactoryAgentBuilder::<H>::begin_build, (builder, other_build), other_step),
    ensures
        build.llm_client_override is None && other_build.llm_client_override is None
            ==> carried(step).llm_client_override == carried(other_step).llm_client_override,
        build.tool_dispatcher_override is None && other_build.tool_dispatcher_override is None
            ==> carried(step).tool_dispatcher_override
            == carried(other_step).tool_dispatcher_override,
        build.session_store_override is None && other_build.session_store_override is None
            ==> carried(step).session_store_override == carried(other_step).session_store_override,
{
}

/// Setting an LLM client as default makes it, and nothing else, the one that open requests get. What else
/// a build begins with stays as it was, and so do the factory and the config.
pub proof fn law_default_llm_client_is_what_was_set<H: Host>(
    builder: &mut FactoryAgentBuilder<H>,
    client: Option<Arc<H::LlmClient>>,
    build: AgentBuildConfig<H>,
    before: BuildStep<H>,
    after: BuildStep<H>,
    factory_before: &H::Factory,
    factory_after: &H::Factory,
    config_before: &H::Config,
    config_after: &H::Config,
)
    requires
        call_ensures(FactoryAgentBuilder::<H>::begin_build, (&*old(builder), build), before),
        call_ensures(FactoryAgentBuilder::<H>::factory, (&*old(builder),), factory_before),
        call_ensures(FactoryAgentBuilder::<H>::config, (&*old(builder),), config_before),
        call_ensures(FactoryAgentBuilder::<H>::set_default_llm_client, (builder, client), ()),
        call_ensures(FactoryAgentBuilder::<H>::begin_build, (&*final(builder), build), after),
        call_ensures(FactoryAgentBuilder::<H>::factory, (&*final(builder),), factory_after),
        call_ensures(FactoryAgentBuilder::<H>::config, (&*final(builder),), config_after),
    ensures
        build.llm_client_override is None ==> carried(after).llm_client_override == client,
        build.llm_client_override is Some ==> carried(after).llm_client_override
            == build.llm_client_override,
        carried(after).tool_dispatcher_override == carried(before).tool_dispatcher_override,
        carried(after).session_store_override == carried(before).session_store_override,
        carried(after).options == carried(before).options,
        after is ReadConfig <==> before is ReadConfig,
        before matches BuildStep::ReadConfig { store: asked, .. } ==> (
        after matches BuildStep::ReadConfig { store: same, .. } && same == asked),
        *factory_after == *factory_before,
        *config_after == *config_before,
{
}

/// Setting a tool dispatcher as default makes it, and nothing else, the one that open requests get. What else
/// a build begins with stays as it was, and so do the factory and the config.
pub proof fn law_default_tool_dispatcher_is_what_was_set<H: Host>(
    builder: &mut FactoryAgentBuilder<H>,
    dispatcher: Option<Arc<H::ToolDispatcher>>,
    build: AgentBuildConfig<H>,
    before: BuildStep<H>,
    after: BuildStep<H>,
    factory_before: &H::Factory,
    factory_after: &H::Factory,
    config_before: &H::Config,
    config_after: &H::Config,
)
    requires
        call_ensures(FactoryAgentBuilder::<H>::begin_build, (&*old(builder), build), before),
        call_ensures(FactoryAgentBuilder::<H>::factory, (&*old(builder),), factory_before),
        call_ensures(FactoryAgentBuilder::<H>::config, (&*old(builder),), config_before),
        call_ensures(FactoryAgentBuilder::<H>::set_default_tool_dispatcher, (builder, dispatcher), ()),
        call_ensures(FactoryAgentBuilder::<H>::begin_build, (&*final(builder), build), after),
        call_ensures(FactoryAgentBuilder::<H>::factory, (&*final(builder),), factory_after),
        call_ensures(FactoryAgentBuilder::<H>::config, (&*final(builder),), config_after),
    ensures
        build.tool_dispatcher_override is None ==> carried(after).tool_dispatcher_override == dispatcher,
        build.tool_dispatcher_override is Some ==> carried(after).tool_dispatcher_override
            == build.tool_dispatcher_override,
        carried(after).llm_client_override == carried(before).llm_client_override,
        carried(after).session_store_override == carried(before).session_store_override,
        carried(after).options == carried(before).options,
        after is ReadConfig <==> before is ReadConfig,
        before matches BuildStep::ReadConfig { store: asked, .. } ==> (
        after matches BuildStep::ReadConfig { store: same, .. } && same == asked),
        *factory_after == *factory_before,
        *config_after == *config_before,
{
}

/// Setting a session store as default makes it, and nothing else, the one that open requests get. What else
/// a build begins with stays as it was, and so do the factory and the config.
pub proof fn law_default_session_store_is_what_was_set<H: Host>(
    builder: &mut FactoryAgentBuilder<H>,
    store: Option<Arc<H::AgentSessionStore>>,
    build: AgentBuildConfig<H>,
    before: BuildStep<H>,
    after: BuildStep<H>,
    factory_before: &H::Factory,
    factory_after: &H::Factory,
    config_before: &H::Config,
    config_after: &H::Config,
)
    requires
        call_ensures(FactoryAgentBuilder::<H>::begin_build, (&*old(builder), build), before),
        call_ensures(FactoryAgentBuilder::<H>::factory, (&*old(builder),), factory_before),
        call_ensures(FactoryAgentBuilder::<H>::config, (&*old(builder),), config_before),
        call_ensures(FactoryAgentBuilder::<H>::set_default_session_store, (builder, store), ()),
        call_ensures(FactoryAgentBuilder::<H>::begin_build, (&*final(builder), build), after),
        call_ensures(FactoryAgentBuilder::<H>::factory, (&*final(builder),), factory_after),
        call_ensures(FactoryAgentBuilder::<H>::config, (&*final(builder),), config_after),
    ensures
        build.session_store_override is None ==> carried(after).session_store_override == store,
        build.session_store_override is Some ==> carried(after).session_store_override
            == build.session_store_override,
        carried(after).llm_client_override == carried(before).llm_client_override,
        carried(after).tool_dispatcher_override == carried(before).tool_dispatcher_override,
        carried(after).options == carried(before).options,
        after is ReadConfig <==> before is ReadConfig,
        before matches BuildStep::ReadConfig { store: asked, .. } ==> (
        after matches BuildStep::ReadConfig { store: same, .. } && same == asked),
        *factory_after == *factory_before,
        *config_after == *config_before,
{
}

/// Beginning a build for a session request is beginning it from what `configure` reads off that
/// very request: what it provides is carried on, what it leaves open is filled as for any other
/// request, and the store to be read is the builder's.
pub proof fn law_request_is_configured<
    H: Host,
    F: FnOnce(&H::CreateSessionRequest, H::EventSender) -> AgentBuildConfig<H>,
>(
    builder: &FactoryAgentBuilder<H>,
    its_config: &H::Config,
    req: &H::CreateSessionRequest,
    event_tx: H::EventSender,
    configure: F,
    step: BuildStep<H>,
    other_build: AgentBuildConfig<H>,
    other_step: BuildStep<H>,
)
    requires
        call_ensures(FactoryAgentBuilder::<H>::config, (builder,), its_config),
        call_ensures(
            FactoryAgentBuilder::<H>::build_agent,
            (builder, req, event_tx, configure),
            step,
        ),
        call_ensures(FactoryAgentBuilder::<H>::begin_build, (builder, other_build), other_step),
    ensures
        exists|build: AgentBuildConfig<H>|
            {
                &&& #[trigger] call_ensures(configure, (req, event_tx), build)
                &&& carried(step).options == build.options
                &&& build.llm_client_override is Some ==> carried(step).llm_client_override
                    == build.llm_client_override
                &&& build.tool_dispatcher_override is Some
                    ==> carried(step).tool_dispatcher_override == build.tool_dispatcher_override
                &&& build.session_store_override is Some ==> carried(step).session_store_override
                    == build.session_store_override
                &&& build.llm_client_override is None && other_build.llm_client_override is None
                    ==> carried(step).llm_client_override
                    == carried(other_step).llm_client_override
                &&& build.tool_dispatcher_override is None
                    && other_build.tool_dispatcher_override is None
                    ==> carried(step).tool_dispatcher_override
                    == carried(other_step).tool_dispatcher_override
                &&& build.session_store_override is None
                    && other_build.session_store_override is None
                    ==> carried(step).session_store_override
                    == carried(other_step).session_store_override
            },
        step is ReadConfig <==> other_step is ReadConfig,
        step matches BuildStep::ReadConfig { store, .. } ==> (
        other_step matches BuildStep::ReadConfig { store: same, .. } && same == store),
        step matches BuildStep::CallFactory(call) ==> cloned(*its_config, call.resolved.config)
            && call.resolved.store_error is None,
{
}

/// A config that was read is the one a build goes on with, and a failed read leaves it with a
/// copy of the builder's own and says what failed. The request is the same before and after.
pub proof fn law_build_goes_on_with_what_was_read<H: Host>(
    builder: &FactoryAgentBuilder<H>,
    its_config: &H::Config,
    build: AgentBuildConfig<H>,
    read: Result<H::Config, H::ConfigStoreError>,
    call: FactoryCall<H>,
)
    requires
        call_ensures(FactoryAgentBuilder::<H>::config, (builder,), its_config),
        call_ensures(FactoryAgentBuilder::<H>::config_read, (builder, build, read), call),
    ensures
        call.build == build,
        read matches Ok(config) ==> call.resolved.config == config && call.resolved.store_error
            is None,
        read matches Err(error) ==> cloned(*its_config, call.resolved.config)
            && call.resolved.store_error == Some(error),
{
}

/// The config for a build is the one that was read, if one was, and else a copy of the builder's
/// own; an error is reported if and only if a read failed, and it is that read's.
pub proof fn law_config_is_read_or_own<H: Host>(
    builder: &FactoryAgentBuilder<H>,
    its_config: &H::Config,
    read: Option<Result<H::Config, H::ConfigStoreError>>,
    resolved: ResolvedConfig<H>,
)
    requires
        call_ensures(FactoryAgentBuilder::<H>::config, (builder,), its_config),
        call_ensures(FactoryAgentBuilder::<H>::resolve_config, (builder, read), resolved),
    ensures
        read matches Some(Ok(config)) ==> resolved.config == config,
        !(read matches Some(Ok(_))) ==> cloned(*its_config, resolved.config),
        read matches Some(Err(error)) ==> resolved.store_error == Some(error),
        !(read matches Some(Err(_))) ==> resolved.store_error is None,
{
}

/// From the first step to the factory, nothing is lost: what the first step carries is what the
/// factory gets, whatever the store answers.
pub proof fn law_factory_gets_what_the_first_step_carried<H: Host>(
    builder: &FactoryAgentBuilder<H>,
    build: AgentBuildConfig<H>,
    step: BuildStep<H>,
    read: Result<H::Config, H::ConfigStoreError>,
    call: FactoryCall<H>,
)
    requires
        call_ensures(FactoryAgentBuilder::<H>::begin_build, (builder, build), step),
        call_ensures(FactoryAgentBuilder::<H>::config_read, (builder, carried(step), read), call),
    ensures
        call.build == carried(step),
        call.build.options == build.options,
{
}

/// The agent that a factory built is the one that the session's agent wraps.
pub proof fn law_built_agent_is_wrapped<H: Host, E: Display>(
    built: DynAgent<H>,
    outcome: Result<FactoryAgent<H>, SessionError<H::AgentFailure>>,
)
    requires
        call_ensures(FactoryAgentBuilder::<H>::agent_built::<E>, (Ok(built),), outcome),
    ensures
        outcome is Ok,
        forall|inner: &DynAgent<H>| #[trigger]
            call_ensures(FactoryAgent::<H>::agent, (&outcome->Ok_0,), inner) ==> *inner == built,
{
}

/// A factory's failure, whatever its text, is an internal error of the session's agent, and it
/// keeps that text.
pub proof fn law_build_failure_is_an_internal_error<H: Host, E: Display>(
    reason: E,
    outcome: Result<FactoryAgent<H>, SessionError<H::AgentFailure>>,
)
    requires
        call_ensures(FactoryAgentBuilder::<H>::agent_built::<E>, (Err(reason),), outcome),
    ensures
        outcome matches Err(SessionError::Agent(AgentError::InternalError(text)))
            && vstd::string::to_string_from_display_ensures::<E>(&reason, text),
{
}

} // verus!
