//! What calls on one agent have to do with each other.
//!
//! Each law speaks of calls and of what they returned. Where an agent is asked twice, it is
//! unchanged in between unless the law says otherwise.

use crate::agent::{DynAgent, FactoryAgent, PeersStep, SendRequest};
use crate::error::{AgentError, SendError};
use crate::host::Host;
use crate::session::{Session, SessionSnapshot};
use std::fmt::Display;
use std::sync::Arc;
use vstd::prelude::*;

verus! {

/// The session that an agent shows is the one that its underlying agent carries on.
pub proof fn law_session_is_the_agents<H: Host>(
    agent: &FactoryAgent<H>,
    inner: &DynAgent<H>,
    session: &Session<H>,
)
    requires
        call_ensures(FactoryAgent::<H>::agent, (agent,), inner),
        call_ensures(FactoryAgent::<H>::session, (agent,), session),
    ensures
        *session == inner.session,
{
}

/// What [`FactoryAgent::agent_mut`] lends is the agent that [`FactoryAgent::agent`] shows, and
/// what is left there when the loan ends is what it shows from then on.
pub proof fn law_agent_mut_lends_the_agent<H: Host>(
    agent: &mut FactoryAgent<H>,
    lent: &mut DynAgent<H>,
    before: &DynAgent<H>,
    after: &DynAgent<H>,
)
    requires
        call_ensures(FactoryAgent::<H>::agent, (&*old(agent),), before),
        call_ensures(FactoryAgent::<H>::agent_mut, (agent,), lent),
        call_ensures(FactoryAgent::<H>::agent, (&*final(agent),), after),
    ensures
        *old(lent) == *before,
        *final(lent) == *after,
{
}

/// A snapshot counts the session's messages, all of them.
pub proof fn law_snapshot_counts_every_message<H: Host>(
    agent: &FactoryAgent<H>,
    session: &Session<H>,
    snapshot: SessionSnapshot<H>,
)
    requires
        call_ensures(FactoryAgent::<H>::session, (agent,), session),
        call_ensures(FactoryAgent::<H>::snapshot, (agent,), snapshot),
    ensures
        snapshot.message_count == session.messages@.len(),
{
}

/// A snapshot repeats the session's times, its tokens and its latest assistant text, whatever
/// else the session holds; the usage it gives is a copy of the session's.
pub proof fn law_snapshot_repeats_the_session<H: Host>(
    agent: &FactoryAgent<H>,
    session: &Session<H>,
    snapshot: SessionSnapshot<H>,
)
    requires
        call_ensures(FactoryAgent::<H>::session, (agent,), session),
        call_ensures(FactoryAgent::<H>::snapshot, (agent,), snapshot),
    ensures
        snapshot.created_at == session.created_at,
        snapshot.updated_at == session.updated_at,
        snapshot.total_tokens == session.total_tokens,
        snapshot.last_assistant_text == session.last_assistant_text,
        cloned(session.total_usage, snapshot.usage),
{
}

/// One more message in the session is one more in its next snapshot.
pub proof fn law_snapshot_counts_one_more<H: Host>(
    shorter: &FactoryAgent<H>,
    longer: &FactoryAgent<H>,
    message: H::Message,
    few: SessionSnapshot<H>,
    more: SessionSnapshot<H>,
)
    requires
        longer@.session.messages@ == shorter@.session.messages@.push(message),
        call_ensures(FactoryAgent::<H>::snapshot, (shorter,), few),
        call_ensures(FactoryAgent::<H>::snapshot, (longer,), more),
    ensures
        more.message_count == few.message_count + 1,
{
}

/// The id that an agent gives is a copy of its session's.
pub proof fn law_session_id_copies_the_sessions<H: Host>(
    agent: &FactoryAgent<H>,
    session: &Session<H>,
    id: H::SessionId,
)
    requires
        call_ensures(FactoryAgent::<H>::session, (agent,), session),
        call_ensures(FactoryAgent::<H>::session_id, (agent,), id),
    ensures
        cloned(session.id, id),
{
}

/// The comms runtime and the system context that an agent gives out are those it holds.
pub proof fn law_handles_are_the_agents<H: Host>(
    agent: &FactoryAgent<H>,
    inner: &DynAgent<H>,
    runtime: Option<Arc<H::CommsRuntime>>,
    context: Arc<H::SystemContextState>,
)
    requires
        call_ensures(FactoryAgent::<H>::agent, (agent,), inner),
        call_ensures(FactoryAgent::<H>::comms_runtime, (agent,), runtime),
        call_ensures(FactoryAgent::<H>::system_context_state, (agent,), context),
    ensures
        runtime == inner.comms,
        context == inner.system_context,
{
}

/// A command goes, as it is, to the runtime that [`FactoryAgent::comms_runtime`] gives. Where
/// there is none, sending is unsupported, and the error says why.
pub proof fn law_command_goes_to_the_runtime<H: Host>(
    agent: &FactoryAgent<H>,
    cmd: H::CommsCommand,
    runtime: Option<Arc<H::CommsRuntime>>,
    sent: Result<SendRequest<H>, SendError<H::CommsError>>,
)
    requires
        call_ensures(FactoryAgent::<H>::comms_runtime, (agent,), runtime),
        call_ensures(FactoryAgent::<H>::send, (agent, cmd), sent),
    ensures
        sent is Ok <==> runtime is Some,
        sent matches Ok(request) ==> runtime == Some(request.runtime) && request.cmd == cmd,
        sent matches Err(error) ==> (error matches SendError::Unsupported(text) && text@
            == "comms runtime is not configured"@),
{
}

/// What the runtime answers to a command is the outcome of sending it.
pub proof fn law_reply_is_the_outcome<H: Host>(
    reply: Result<H::SendReceipt, SendError<H::CommsError>>,
    outcome: Result<H::SendReceipt, SendError<H::CommsError>>,
)
    requires
        call_ensures(FactoryAgent::<H>::sent, (reply,), outcome),
    ensures
        outcome == reply,
{
}

/// The runtime that [`FactoryAgent::comms_runtime`] gives is the one to be asked for peers. Where
/// there is none, there are no peers.
pub proof fn law_peers_are_the_runtimes<H: Host>(
    agent: &FactoryAgent<H>,
    runtime: Option<Arc<H::CommsRuntime>>,
    peers: PeersStep<H>,
)
    requires
        call_ensures(FactoryAgent::<H>::comms_runtime, (agent,), runtime),
        call_ensures(FactoryAgent::<H>::peers, (agent,), peers),
    ensures
        peers is Ask <==> runtime is Some,
        peers matches PeersStep::Ask(asked) ==> runtime == Some(asked),
        peers matches PeersStep::Known(known) ==> known@ == Seq::<H::PeerDirectoryEntry>::empty(),
{
}

/// An agent's event injector is what its runtime answers, and there is none without a runtime.
pub proof fn law_event_injector_is_the_runtimes<
    H: Host,
    F: FnOnce(Arc<H::CommsRuntime>) -> Option<Arc<H::EventInjector>>,
>(
    agent: &FactoryAgent<H>,
    ask: F,
    runtime: Option<Arc<H::CommsRuntime>>,
    injector: Option<Arc<H::EventInjector>>,
)
    requires
        call_ensures(FactoryAgent::<H>::comms_runtime, (agent,), runtime),
        call_ensures(FactoryAgent::<H>::event_injector, (agent, ask), injector),
    ensures
        runtime is None ==> injector is None,
        runtime matches Some(asked) ==> call_ensures(ask, (asked,), injector),
{
}

/// An agent's interaction event injector is what its runtime answers, and there is none without
/// a runtime.
pub proof fn law_interaction_event_injector_is_the_runtimes<
    H: Host,
    F: FnOnce(Arc<H::CommsRuntime>) -> Option<Arc<H::InteractionEventInjector>>,
>(
    agent: &FactoryAgent<H>,
    ask: F,
    runtime: Option<Arc<H::CommsRuntime>>,
    injector: Option<Arc<H::InteractionEventInjector>>,
)
    requires
        call_ensures(FactoryAgent::<H>::comms_runtime, (agent,), runtime),
        call_ensures(FactoryAgent::<H>::interaction_event_injector, (agent, ask), injector),
    ensures
        runtime is None ==> injector is None,
        runtime matches Some(asked) ==> call_ensures(ask, (asked,), injector),
{
}

/// Setting skill references puts exactly those in place and leaves the rest of the agent alone.
pub proof fn law_skill_references_are_what_was_set<H: Host>(
    agent: &mut FactoryAgent<H>,
    refs: Option<Vec<H::SkillKey>>,
    before: &DynAgent<H>,
    after: &DynAgent<H>,
)
    requires
        call_ensures(FactoryAgent::<H>::agent, (&*old(agent),), before),
        call_ensures(FactoryAgent::<H>::set_skill_references, (agent, refs), ()),
        call_ensures(FactoryAgent::<H>::agent, (&*final(agent),), after),
    ensures
        after.pending_skill_references == refs,
        after.engine == before.engine,
        after.session == before.session,
        after.system_context == before.system_context,
        after.comms == before.comms,
{
}

/// A tool overlay that the agent rejects, for whatever reason, is a configuration error.
pub proof fn law_rejected_overlay_is_a_config_error<
    H: Host,
    O,
    E: Display,
    F: FnOnce(&mut DynAgent<H>, Option<O>) -> Result<(), E>,
>(
    agent: &mut FactoryAgent<H>,
    overlay: Option<O>,
    apply: F,
    outcome: Result<(), AgentError<H::AgentFailure>>,
)
    requires
        forall|inner: &mut DynAgent<H>, answer: Result<(), E>| #[trigger]
            call_ensures(apply, (inner, overlay), answer) ==> answer is Err,
        call_ensures(FactoryAgent::<H>::set_flow_tool_overlay, (agent, overlay, apply), outcome),
    ensures
        outcome matches Err(AgentError::ConfigError(_)),
{
}

/// A tool overlay is put to the agent once, as it was given. The outcome is a success if and only
/// if the agent takes it; a rejection carries the text of the agent's reason.
pub proof fn law_overlay_is_put_to_the_agent<
    H: Host,
    O,
    E: Display,
    F: FnOnce(&mut DynAgent<H>, Option<O>) -> Result<(), E>,
>(
    agent: &mut FactoryAgent<H>,
    overlay: Option<O>,
    apply: F,
    outcome: Result<(), AgentError<H::AgentFailure>>,
    before: &DynAgent<H>,
    after: &DynAgent<H>,
)
    requires
        call_ensures(FactoryAgent::<H>::agent, (&*old(agent),), before),
        call_ensures(FactoryAgent::<H>::set_flow_tool_overlay, (agent, overlay, apply), outcome),
        call_ensures(FactoryAgent::<H>::agent, (&*final(agent),), after),
    ensures
        exists|inner: &mut DynAgent<H>, answer: Result<(), E>|
            {
                &&& #[trigger] call_ensures(apply, (inner, overlay), answer)
                &&& *inner == *before
                &&& *final(inner) == *after
                &&& outcome is Ok <==> answer is Ok
                &&& answer matches Err(reason) ==> (outcome matches Err(
                    AgentError::ConfigError(text),
                ) && vstd::string::to_string_from_display_ensures::<E>(&reason, text))
            },
{
}

/// A tool filter that the agent rejects, for whatever reason, is a configuration error.
pub proof fn law_rejected_filter_is_a_config_error<
    H: Host,
    T,
    A,
    E: Display,
    F: FnOnce(&mut DynAgent<H>, T) -> Result<A, E>,
>(
    agent: &mut FactoryAgent<H>,
    filter: T,
    stage: F,
    outcome: Result<(), AgentError<H::AgentFailure>>,
)
    requires
        forall|inner: &mut DynAgent<H>, answer: Result<A, E>| #[trigger]
            call_ensures(stage, (inner, filter), answer) ==> answer is Err,
        call_ensures(
            FactoryAgent::<H>::stage_external_tool_filter,
            (agent, filter, stage),
            outcome,
        ),
    ensures
        outcome matches Err(AgentError::ConfigError(_)),
{
}

/// A tool filter is put to the agent once, as it was given. The outcome is a success if and only
/// if the agent takes it; a rejection carries the text of the agent's reason.
pub proof fn law_filter_is_put_to_the_agent<
    H: Host,
    T,
    A,
    E: Display,
    F: FnOnce(&mut DynAgent<H>, T) -> Result<A, E>,
>(
    agent: &mut FactoryAgent<H>,
    filter: T,
    stage: F,
    outcome: Result<(), AgentError<H::AgentFailure>>,
    before: &DynAgent<H>,
    after: &DynAgent<H>,
)
    requires
        call_ensures(FactoryAgent::<H>::agent, (&*old(agent),), before),
        call_ensures(
            FactoryAgent::<H>::stage_external_tool_filter,
            (agent, filter, stage),
            outcome,
        ),
        call_ensures(FactoryAgent::<H>::agent, (&*final(agent),), after),
    ensures
        exists|inner: &mut DynAgent<H>, answer: Result<A, E>|
            {
                &&& #[trigger] call_ensures(stage, (inner, filter), answer)
                &&& *inner == *before
                &&& *final(inner) == *after
                &&& outcome is Ok <==> answer is Ok
                &&& answer matches Err(reason) ==> (outcome matches Err(
                    AgentError::ConfigError(text),
                ) && vstd::string::to_string_from_display_ensures::<E>(&reason, text))
            },
{
}

/// A new client is handed to the agent, as it was given, and whatever the agent makes of it is
/// all that changes.
pub proof fn law_client_is_handed_to_the_agent<
    H: Host,
    C,
    F: FnOnce(&mut DynAgent<H>, C),
>(
    agent: &mut FactoryAgent<H>,
    client: C,
    replace: F,
    before: &DynAgent<H>,
    after: &DynAgent<H>,
)
    requires
        call_ensures(FactoryAgent::<H>::agent, (&*old(agent),), before),
        call_ensures(FactoryAgent::<H>::replace_client, (agent, client, replace), ()),
        call_ensures(FactoryAgent::<H>::agent, (&*final(agent),), after),
    ensures
        exists|inner: &mut DynAgent<H>|
            {
                &&& #[trigger] call_ensures(replace, (inner, client), ())
                &&& *inner == *before
                &&& *final(inner) == *after
            },
{
}

/// Cancelling is put to the agent, and whatever the agent makes of it is all that changes.
pub proof fn law_cancel_is_put_to_the_agent<H: Host, F: FnOnce(&mut DynAgent<H>)>(
    agent: &mut FactoryAgent<H>,
    stop: F,
    before: &DynAgent<H>,
    after: &DynAgent<H>,
)
    requires
        call_ensures(FactoryAgent::<H>::agent, (&*old(agent),), before),
        call_ensures(FactoryAgent::<H>::cancel, (agent, stop), ()),
        call_ensures(FactoryAgent::<H>::agent, (&*final(agent),), after),
    ensures
        exists|inner: &mut DynAgent<H>|
            {
                &&& #[trigger] call_ensures(stop, (inner,), ())
                &&& *inner == *before
                &&& *final(inner) == *after
            },
{
}

/// A copy of the session is what the agent itself gives.
pub proof fn law_session_copy_is_the_agents<
    H: Host,
    F: FnOnce(&DynAgent<H>) -> Session<H>,
>(agent: &FactoryAgent<H>, copy: F, inner: &DynAgent<H>, session: Session<H>)
    requires
        call_ensures(FactoryAgent::<H>::agent, (agent,), inner),
        call_ensures(FactoryAgent::<H>::session_clone, (agent, copy), session),
    ensures
        call_ensures(copy, (inner,), session),
{
}

/// System context is appended to the agent's session, as it was given, and only the session
/// changes.
pub proof fn law_context_is_appended_to_the_session<
    H: Host,
    A,
    F: FnOnce(&mut Session<H>, &[A]),
>(
    agent: &mut FactoryAgent<H>,
    appends: &[A],
    append: F,
    before: &DynAgent<H>,
    after: &DynAgent<H>,
)
    requires
        call_ensures(FactoryAgent::<H>::agent, (&*old(agent),), before),
        call_ensures(
            FactoryAgent::<H>::apply_runtime_system_context,
            (agent, appends, append),
            (),
        ),
        call_ensures(FactoryAgent::<H>::agent, (&*final(agent),), after),
    ensures
        after.engine == before.engine,
        after.system_context == before.system_context,
        after.pending_skill_references == before.pending_skill_references,
        after.comms == before.comms,
        exists|session: &mut Session<H>|
            {
                &&& #[trigger] call_ensures(append, (session, appends), ())
                &&& *session == before.session
                &&& *final(session) == after.session
            },
{
}

} // verus!
