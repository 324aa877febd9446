//! The agent that a session service runs.

use crate::error::{AgentError, SendError};
use crate::host::Host;
use crate::session::{Session, SessionSnapshot};
use std::fmt::Display;
use std::sync::Arc;
use vstd::prelude::*;

verus! {

/// An agent as the factory built it.
pub struct DynAgent<H: Host> {
    /// The running part.
    pub engine: H::Engine,
    /// The session that the agent carries on.
    pub session: Session<H>,
    /// System context shared with the session's service.
    pub system_context: Arc<H::SystemContextState>,
    /// Skills to be resolved at the start of the next turn.
    pub pending_skill_references: Option<Vec<H::SkillKey>>,
    /// Reaches other agents, where the agent was built with comms.
    pub comms: Option<Arc<H::CommsRuntime>>,
}

/// Wrapper around [`DynAgent`] with what a session service asks of its agents.
pub struct FactoryAgent<H: Host> {
    agent: DynAgent<H>,
}

impl<H: Host> View for FactoryAgent<H> {
    type V = DynAgent<H>;

    /// The wrapped agent.
    closed spec fn view(&self) -> DynAgent<H> {
        self.agent
    }
}

/// A comms command on its way: `runtime` is to be sent `cmd`.
pub struct SendRequest<H: Host> {
    pub runtime: Arc<H::CommsRuntime>,
    pub cmd: H::CommsCommand,
}

/// How to learn an agent's peers.
pub enum PeersStep<H: Host> {
    /// These are all of them.
    Known(Vec<H::PeerDirectoryEntry>),
    /// The runtime lists them.
    Ask(Arc<H::CommsRuntime>),
}

/// Whether an agent answers `r` when it is asked to send `cmd`: where it has comms, the request
/// goes to its runtime; where it has none, sending is unsupported.
pub open spec fn sends<H: Host>(
    agent: DynAgent<H>,
    cmd: H::CommsCommand,
    r: Result<SendRequest<H>, SendError<H::CommsError>>,
) -> bool {
    match agent.comms {
        Some(runtime) => r == Ok::<SendRequest<H>, SendError<H::CommsError>>(
            SendRequest { runtime, cmd },
        ),
        None => {
            &&& r matches Err(SendError::Unsupported(text))
            &&& text@ == "comms runtime is not configured"@
        },
    }
}

/// Whether an agent answers `step` when it is asked for its peers: where it has comms, its
/// runtime knows them; where it has none, there are none.
pub open spec fn lists_peers<H: Host>(agent: DynAgent<H>, step: PeersStep<H>) -> bool {
    match agent.comms {
        Some(runtime) => step == PeersStep::<H>::Ask(runtime),
        None => step matches PeersStep::Known(peers) && peers@.len() == 0,
    }
}

/// Whether an agent answers `id` when it is asked for its session's: a copy of it.
pub open spec fn gives_id<H: Host>(agent: DynAgent<H>, id: H::SessionId) -> bool {
    cloned(agent.session.id, id)
}

/// `error` is the outcome of an agent that rejected a setting with `reason`.
pub open spec fn reports_config_error<F, E: Display>(error: AgentError<F>, reason: E) -> bool {
    error matches AgentError::ConfigError(text)
        && vstd::string::to_string_from_display_ensures::<E>(&reason, text)
}

impl<H: Host> FactoryAgent<H> {
    /// Wrap an agent that the factory built.
    pub(crate) fn new(agent: DynAgent<H>) -> (r: Self)
        ensures
            r@ == agent,
    {
        FactoryAgent { agent }
    }

    /// Access the underlying agent.
    pub fn agent(&self) -> (r: &DynAgent<H>)
        ensures
            *r == self@,
    {
        &self.agent
    }

    /// Access the underlying agent mutably.
    pub fn agent_mut(&mut self) -> (r: &mut DynAgent<H>)
        ensures
            *r == old(self)@,
            *final(r) == final(self)@,
    {
        &mut self.agent
    }

    /// Access the current session for inspection.
    pub fn session(&self) -> (r: &Session<H>)
        ensures
            *r == self@.session,
    {
        &self.agent.session
    }

    /// Send a canonical comms command through the wrapped agent runtime.
    ///
    /// Gives the runtime that is to be sent `cmd`; its reply goes to
    /// [`sent`](FactoryAgent::sent). An agent without comms cannot send.
    pub fn send(&self, cmd: H::CommsCommand) -> (r: Result<
        SendRequest<H>,
        SendError<H::CommsError>,
    >)
        ensures
            sends(self@, cmd, r),
    {
        match &self.agent.comms {
            Some(runtime) => Ok(SendRequest { runtime: runtime.clone(), cmd }),
            None => Err(SendError::Unsupported("comms runtime is not configured".to_string())),
        }
    }

    /// The outcome of a send, given the runtime's reply to the [`SendRequest`]: the reply itself,
    /// be it a receipt or a refusal.
    pub fn sent(reply: Result<H::SendReceipt, SendError<H::CommsError>>) -> (r: Result<
        H::SendReceipt,
        SendError<H::CommsError>,
    >)
        ensures
            r == reply,
    {
        reply
    }

    /// List peers discoverable to this agent runtime.
    ///
    /// An agent without comms has none, and nothing needs to be asked.
    pub fn peers(&self) -> (r: PeersStep<H>)
        ensures
            lists_peers(self@, r),
    {
        match &self.agent.comms {
            Some(runtime) => PeersStep::Ask(runtime.clone()),
            None => PeersStep::Known(Vec::new()),
        }
    }

    /// Set the skills to be resolved at the start of the next turn.
    pub fn set_skill_references(&mut self, refs: Option<Vec<H::SkillKey>>)
        ensures
            final(self)@ == (DynAgent { pending_skill_references: refs, ..old(self)@ }),
    {
        self.agent.pending_skill_references = refs;
    }

    /// Have the agent `apply` a tool overlay, or lift the one in force.
    ///
    /// A rejection is a configuration error with the text of the agent's own.
    pub fn set_flow_tool_overlay<O, E: Display>(
        &mut self,
        overlay: Option<O>,
        apply: impl FnOnce(&mut DynAgent<H>, Option<O>) -> Result<(), E>,
    ) -> (r: Result<(), AgentError<H::AgentFailure>>)
        requires
            forall|agent: &mut DynAgent<H>|
                *agent == old(self)@ ==> apply.requires((agent, overlay)),
        ensures
            exists|agent: &mut DynAgent<H>, outcome: Result<(), E>|
                {
                    &&& #[trigger] apply.ensures((agent, overlay), outcome)
                    &&& *agent == old(self)@
                    &&& *final(agent) == final(self)@
                    &&& match outcome {
                        Ok(_) => r is Ok,
                        Err(reason) => r matches Err(error) && reports_config_error(error, reason),
                    }
                },
    {
        match apply(&mut self.agent, overlay) {
            Ok(()) => Ok(()),
            Err(reason) => Err(AgentError::ConfigError(reason.to_string())),
        }
    }

    /// Have the agent `replace` the client that it talks to its model with.
    pub fn replace_client<C>(&mut self, client: C, replace: impl FnOnce(&mut DynAgent<H>, C))
        requires
            forall|agent: &mut DynAgent<H>|
                *agent == old(self)@ ==> replace.requires((agent, client)),
        ensures
            exists|agent: &mut DynAgent<H>|
                {
                    &&& #[trigger] replace.ensures((agent, client), ())
                    &&& *agent == old(self)@
                    &&& *final(agent) == final(self)@
                },
    {
        replace(&mut self.agent, client)
    }

    /// Have the agent `stage` a filter over external tools.
    ///
    /// What the agent answers on success is dropped. A rejection is a configuration error with
    /// the text of the agent's own.
    pub fn stage_external_tool_filter<F, T, E: Display>(
        &mut self,
        filter: F,
        stage: impl FnOnce(&mut DynAgent<H>, F) -> Result<T, E>,
    ) -> (r: Result<(), AgentError<H::AgentFailure>>)
        requires
            forall|agent: &mut DynAgent<H>|
                *agent == old(self)@ ==> stage.requires((agent, filter)),
        ensures
            exists|agent: &mut DynAgent<H>, outcome: Result<T, E>|
                {
                    &&& #[trigger] stage.ensures((agent, filter), outcome)
                    &&& *agent == old(self)@
                    &&& *final(agent) == final(self)@
                    &&& match outcome {
                        Ok(_) => r is Ok,
                        Err(reason) => r matches Err(error) && reports_config_error(error, reason),
                    }
                },
    {
        match stage(&mut self.agent, filter) {
            Ok(_) => Ok(()),
            Err(reason) => Err(AgentError::ConfigError(reason.to_string())),
        }
    }

    /// Have the agent `stop` what it is doing.
    pub fn cancel(&mut self, stop: impl FnOnce(&mut DynAgent<H>))
        requires
            forall|agent: &mut DynAgent<H>| *agent == old(self)@ ==> stop.requires((agent,)),
        ensures
            exists|agent: &mut DynAgent<H>|
                {
                    &&& #[trigger] stop.ensures((agent,), ())
                    &&& *agent == old(self)@
                    &&& *final(agent) == final(self)@
                },
    {
        stop(&mut self.agent)
    }

    /// The id of the agent's session.
    pub fn session_id(&self) -> (r: H::SessionId)
        ensures
            gives_id(self@, r),
    {
        self.agent.session.id.clone()
    }

    /// What the session looks like now.
    pub fn snapshot(&self) -> (r: SessionSnapshot<H>)
        ensures
            r.shows(self@.session),
    {
        let s = &self.agent.session;
        SessionSnapshot {
            created_at: s.created_at,
            updated_at: s.updated_at,
            message_count: s.messages.len(),
            total_tokens: s.total_tokens,
            usage: s.total_usage.clone(),
            last_assistant_text: s.last_assistant_text.clone(),
        }
    }

    /// A copy of the session with its system context, which `copy` takes from the agent.
    pub fn session_clone(&self, copy: impl FnOnce(&DynAgent<H>) -> Session<H>) -> (r: Session<H>)
        requires
            copy.requires((&self@,)),
        ensures
            copy.ensures((&self@,), r),
    {
        copy(&self.agent)
    }

    /// Have `append` add blocks of system context to the session.
    pub fn apply_runtime_system_context<A>(
        &mut self,
        appends: &[A],
        append: impl FnOnce(&mut Session<H>, &[A]),
    )
        requires
            forall|session: &mut Session<H>|
                *session == old(self)@.session ==> append.requires((session, appends)),
        ensures
            final(self)@ == (DynAgent { session: final(self)@.session, ..old(self)@ }),
            exists|session: &mut Session<H>|
                {
                    &&& #[trigger] append.ensures((session, appends), ())
                    &&& *session == old(self)@.session
                    &&& *final(session) == final(self)@.session
                },
    {
        append(&mut self.agent.session, appends)
    }

    /// The system context that the agent shares.
    pub fn system_context_state(&self) -> (r: Arc<H::SystemContextState>)
        ensures
            r == self@.system_context,
    {
        self.agent.system_context.clone()
    }

    /// The event injector of the agent's comms runtime, which `ask` requests from it.
    pub fn event_injector(
        &self,
        ask: impl FnOnce(Arc<H::CommsRuntime>) -> Option<Arc<H::EventInjector>>,
    ) -> (r: Option<Arc<H::EventInjector>>)
        requires
            self@.comms matches Some(runtime) ==> ask.requires((runtime,)),
        ensures
            match self@.comms {
                Some(runtime) => ask.ensures((runtime,), r),
                None => r is None,
            },
    {
        match &self.agent.comms {
            Some(runtime) => ask(runtime.clone()),
            None => None,
        }
    }

    /// The interaction event injector of the agent's comms runtime, which `ask` requests from it.
    pub fn interaction_event_injector(
        &self,
        ask: impl FnOnce(Arc<H::CommsRuntime>) -> Option<Arc<H::InteractionEventInjector>>,
    ) -> (r: Option<Arc<H::InteractionEventInjector>>)
        requires
            self@.comms matches Some(runtime) ==> ask.requires((runtime,)),
        ensures
            match self@.comms {
                Some(runtime) => ask.ensures((runtime,), r),
                None => r is None,
            },
    {
        match &self.agent.comms {
            Some(runtime) => ask(runtime.clone()),
            None => None,
        }
    }

    /// The agent's comms runtime, where it has one.
    pub fn comms_runtime(&self) -> (r: Option<Arc<H::CommsRuntime>>)
        ensures
            r == self@.comms,
    {
        match &self.agent.comms {
            Some(runtime) => Some(runtime.clone()),
            None => None,
        }
    }
}

} // verus!
