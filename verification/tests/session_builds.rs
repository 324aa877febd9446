//! Builds of session agents, from the request to the agent that runs.

use service_factory::{
    build_ephemeral_service, build_persistent_service, AgentBuildConfig, AgentError, BuildStep,
    DynAgent, FactoryAgent, FactoryAgentBuilder, FactoryCall, Host, PeersStep, PersistenceBundle,
    SendError, Session, SessionError,
};
use std::cell::Cell;
use std::collections::HashMap;
use std::sync::Arc;

trait LlmClient {
    fn reply(&self) -> String;
}

struct MockLlmClient {
    delta: &'static str,
}

impl Default for MockLlmClient {
    fn default() -> Self {
        Self { delta: "ok" }
    }
}

impl LlmClient for MockLlmClient {
    fn reply(&self) -> String {
        self.delta.to_string()
    }
}

/// A client that the factory made from a provider's API key.
struct ProviderClient {
    provider: &'static str,
    key: String,
}

impl LlmClient for ProviderClient {
    fn reply(&self) -> String {
        format!("{}:{}", self.provider, self.key)
    }
}

#[derive(Clone, Default, Debug, PartialEq)]
struct Providers {
    api_keys: Option<HashMap<String, String>>,
}

#[derive(Clone, Default, Debug, PartialEq)]
struct Config {
    providers: Providers,
}

/// Answers each read with what it was made with.
struct TestConfigStore {
    answer: Result<Config, String>,
    reads: Cell<usize>,
}

impl TestConfigStore {
    fn new(answer: Result<Config, String>) -> Arc<Self> {
        Arc::new(Self {
            answer,
            reads: Cell::new(0),
        })
    }

    fn get(&self) -> Result<Config, String> {
        self.reads.set(self.reads.get() + 1);
        self.answer.clone()
    }
}

struct CreateSessionRequest {
    model: String,
    llm_client_override: Option<Arc<dyn LlmClient>>,
    session_store_override: Option<Arc<StoreAdapter>>,
}

/// An agent session store over a service's session store.
struct StoreAdapter {
    over: Arc<&'static str>,
}

struct TestEngine {
    client: Arc<dyn LlmClient>,
    session_store: Option<Arc<StoreAdapter>>,
}

struct TestHost;

impl Host for TestHost {
    type Factory = AgentFactory;
    type Config = Config;
    type ConfigStore = TestConfigStore;
    type ConfigStoreError = String;
    type CreateSessionRequest = CreateSessionRequest;
    type EventSender = u8;
    type BuildOptions = (String, u8);
    type LlmClient = dyn LlmClient;
    type ToolDispatcher = str;
    type AgentSessionStore = StoreAdapter;
    type SessionStore = &'static str;
    type RuntimeStore = &'static str;
    type Engine = TestEngine;
    type AgentFailure = String;
    type SessionId = u128;
    type Time = u64;
    type Message = String;
    type Usage = (u64, u64);
    type SkillKey = String;
    type SystemContextState = str;
    type CommsRuntime = str;
    type CommsCommand = String;
    type SendReceipt = u64;
    type CommsError = String;
    type PeerDirectoryEntry = String;
    type EventInjector = str;
    type InteractionEventInjector = str;
}

fn configure(req: &CreateSessionRequest, event_tx: u8) -> AgentBuildConfig<TestHost> {
    AgentBuildConfig {
        options: (req.model.clone(), event_tx),
        llm_client_override: req.llm_client_override.clone(),
        tool_dispatcher_override: None,
        session_store_override: req.session_store_override.clone(),
    }
}

/// Takes the client it is given, or else makes one by the model's prefix from the config's keys.
#[derive(Debug, PartialEq)]
struct AgentFactory {
    name: &'static str,
}

impl AgentFactory {
    fn build_agent(
        &self,
        build: AgentBuildConfig<TestHost>,
        config: &Config,
    ) -> Result<DynAgent<TestHost>, String> {
        let model = &build.options.0;
        let client = match build.llm_client_override {
            Some(client) => client,
            None => {
                let provider = if model.starts_with("sonnet") {
                    "anthropic"
                } else if model.starts_with("gpt") {
                    "openai"
                } else if model.starts_with("gemini") {
                    "gemini"
                } else {
                    return Err(format!("unknown provider for model {model}"));
                };
                let key = config
                    .providers
                    .api_keys
                    .as_ref()
                    .and_then(|keys| keys.get(provider))
                    .ok_or_else(|| format!("no API key for {provider}"))?;
                Arc::new(ProviderClient {
                    provider,
                    key: key.clone(),
                })
            }
        };
        Ok(DynAgent {
            engine: TestEngine {
                client,
                session_store: build.session_store_override,
            },
            session: Session {
                id: 42,
                created_at: 1,
                updated_at: 1,
                messages: Vec::new(),
                total_tokens: 0,
                total_usage: (0, 0),
                last_assistant_text: None,
            },
            system_context: Arc::from("context"),
            pending_skill_references: None,
            comms: None,
        })
    }
}

fn factory_call(
    builder: &FactoryAgentBuilder<TestHost>,
    req: &CreateSessionRequest,
) -> FactoryCall<TestHost> {
    match builder.build_agent(req, 8, configure) {
        BuildStep::ReadConfig { store, build } => builder.config_read(build, store.get()),
        BuildStep::CallFactory(call) => call,
    }
}

fn build_agent(
    builder: &FactoryAgentBuilder<TestHost>,
    req: &CreateSessionRequest,
) -> Result<FactoryAgent<TestHost>, SessionError<String>> {
    let call = factory_call(builder, req);
    let built = builder
        .factory()
        .build_agent(call.build, &call.resolved.config);
    FactoryAgentBuilder::agent_built(built)
}

/// One turn: what the client replies to the prompt.
fn run(agent: &mut FactoryAgent<TestHost>, prompt: &str) -> String {
    let text = agent.agent().engine.client.reply();
    let session = &mut agent.agent_mut().session;
    session.messages.push(prompt.to_string());
    session.messages.push(text.clone());
    session.last_assistant_text = Some(text.clone());
    text
}

fn factory() -> AgentFactory {
    AgentFactory { name: "sessions" }
}

fn make_session_request(model: &str) -> CreateSessionRequest {
    CreateSessionRequest {
        model: model.to_string(),
        llm_client_override: None,
        session_store_override: None,
    }
}

fn config_with_keys(keys: &[(&str, &str)]) -> Config {
    let mut config = Config::default();
    config.providers.api_keys = Some(
        keys.iter()
            .map(|(provider, key)| (provider.to_string(), key.to_string()))
            .collect(),
    );
    config
}

fn mock_agent() -> FactoryAgent<TestHost> {
    let mut builder = FactoryAgentBuilder::<TestHost>::new(factory(), Config::default());
    builder.default_llm_client = Some(Arc::new(MockLlmClient::default()));
    match build_agent(&builder, &make_session_request("sonnet-4-5")) {
        Ok(agent) => agent,
        Err(error) => panic!("build failed: {error:?}"),
    }
}

#[test]
fn test_factory_agent_send_without_comms_runtime_is_unsupported() -> Result<(), String> {
    let build_config = AgentBuildConfig::<TestHost> {
        options: ("sonnet-4-5".to_string(), 8),
        llm_client_override: Some(Arc::new(MockLlmClient::default())),
        tool_dispatcher_override: None,
        session_store_override: None,
    };
    let built = factory().build_agent(build_config, &Config::default());
    let agent = FactoryAgentBuilder::agent_built(built).map_err(|err| format!("{err:?}"))?;
    let session_id = agent.session().id;
    let result = agent.send(format!("input for {session_id}: hello"));
    assert!(matches!(result, Err(SendError::Unsupported(_))));

    Ok(())
}

#[test]
fn test_session_llm_override_is_applied_end_to_end() -> Result<(), String> {
    let mut builder = FactoryAgentBuilder::<TestHost>::new(factory(), Config::default());
    builder.default_llm_client = Some(Arc::new(MockLlmClient { delta: "default" }));

    let mut req = make_session_request("sonnet-4-5");
    req.llm_client_override = Some(Arc::new(MockLlmClient { delta: "override" }));

    let mut agent = build_agent(&builder, &req).map_err(|err| format!("{err:?}"))?;
    assert_eq!(run(&mut agent, "hello"), "override");
    Ok(())
}

#[test]
fn test_config_api_keys_resolve_different_providers_per_model() -> Result<(), String> {
    let config = config_with_keys(&[
        ("anthropic", "test-anthropic-key"),
        ("openai", "test-openai-key"),
        ("gemini", "test-gemini-key"),
    ]);
    let builder = FactoryAgentBuilder::<TestHost>::new(factory(), config);

    let mut agent = build_agent(&builder, &make_session_request("sonnet-4-5"))
        .map_err(|e| format!("anthropic model should build: {e:?}"))?;
    assert_eq!(run(&mut agent, "hello"), "anthropic:test-anthropic-key");

    let mut agent = build_agent(&builder, &make_session_request("gpt-5.2"))
        .map_err(|e| format!("openai model should build: {e:?}"))?;
    assert_eq!(run(&mut agent, "hello"), "openai:test-openai-key");

    let mut agent = build_agent(&builder, &make_session_request("gemini-3-flash-preview"))
        .map_err(|e| format!("gemini model should build: {e:?}"))?;
    assert_eq!(run(&mut agent, "hello"), "gemini:test-gemini-key");

    Ok(())
}

#[test]
fn test_default_llm_client_takes_precedence_over_config_keys() -> Result<(), String> {
    let config = Config::default();
    let mut builder = FactoryAgentBuilder::<TestHost>::new(factory(), config);
    builder.default_llm_client = Some(Arc::new(MockLlmClient {
        delta: "from-default",
    }));

    let mut agent = build_agent(&builder, &make_session_request("sonnet-4-5"))
        .map_err(|e| format!("build failed: {e:?}"))?;
    assert_eq!(run(&mut agent, "hello"), "from-default");

    let config = config_with_keys(&[("anthropic", "test-key")]);
    let mut builder = FactoryAgentBuilder::<TestHost>::new(factory(), config);
    builder.default_llm_client = Some(Arc::new(MockLlmClient {
        delta: "from-default",
    }));
    let mut agent = build_agent(&builder, &make_session_request("sonnet-4-5"))
        .map_err(|e| format!("build failed: {e:?}"))?;
    assert_eq!(run(&mut agent, "hello"), "from-default");
    Ok(())
}

#[test]
fn test_unknown_model_prefix_fails_even_with_config_keys() -> Result<(), String> {
    let config = config_with_keys(&[("anthropic", "test-key")]);
    let builder = FactoryAgentBuilder::<TestHost>::new(factory(), config);

    let result = build_agent(&builder, &make_session_request("llama-3.1-70b"));
    assert!(result.is_err(), "unknown model prefix should fail");
    Ok(())
}

#[test]
fn factory_errors_keep_their_text() {
    let builder = FactoryAgentBuilder::<TestHost>::new(factory(), Config::default());
    let result = build_agent(&builder, &make_session_request("llama-3.1-70b"));
    match result {
        Err(SessionError::Agent(AgentError::InternalError(text))) => {
            assert_eq!(text, "unknown provider for model llama-3.1-70b")
        }
        _ => panic!("expected an internal error"),
    }
}

#[test]
fn new_builder_has_no_defaults_and_reads_no_store() {
    let config = config_with_keys(&[("openai", "k")]);
    let builder = FactoryAgentBuilder::<TestHost>::new(factory(), config.clone());
    assert_eq!(builder.factory(), &factory());
    assert_eq!(builder.config(), &config);

    let step = builder.build_agent(&make_session_request("gpt-5.2"), 3, configure);
    match step {
        BuildStep::CallFactory(call) => {
            assert_eq!(call.build.options, ("gpt-5.2".to_string(), 3));
            assert!(call.build.llm_client_override.is_none());
            assert!(call.build.tool_dispatcher_override.is_none());
            assert!(call.build.session_store_override.is_none());
            assert_eq!(call.resolved.config, config);
            assert!(call.resolved.store_error.is_none());
        }
        BuildStep::ReadConfig { .. } => panic!("there is no store to read"),
    }
}

#[test]
fn latest_config_is_read_on_each_build() {
    let initial = config_with_keys(&[("openai", "initial")]);
    let latest = config_with_keys(&[("openai", "latest")]);
    let store = TestConfigStore::new(Ok(latest.clone()));
    let builder = FactoryAgentBuilder::<TestHost>::new_with_config_store(
        factory(),
        initial.clone(),
        store.clone(),
    );

    for reads in 1..4 {
        let call = factory_call(&builder, &make_session_request("gpt-5.2"));
        assert_eq!(call.resolved.config, latest);
        assert!(call.resolved.store_error.is_none());
        assert_eq!(store.reads.get(), reads);
    }
    assert_eq!(builder.config(), &initial);
}

#[test]
fn failed_store_read_falls_back_to_initial_config() {
    let initial = config_with_keys(&[("openai", "initial")]);
    let store = TestConfigStore::new(Err("store is locked".to_string()));
    let builder = FactoryAgentBuilder::<TestHost>::new_with_config_store(
        factory(),
        initial.clone(),
        store.clone(),
    );

    let call = factory_call(&builder, &make_session_request("gpt-5.2"));
    assert_eq!(call.resolved.config, initial);
    assert_eq!(call.resolved.store_error, Some("store is locked".to_string()));
    assert_eq!(store.reads.get(), 1);
}

#[test]
fn failed_read_does_not_stick() {
    let initial = config_with_keys(&[("openai", "initial")]);
    let first = config_with_keys(&[("openai", "first")]);
    let second = config_with_keys(&[("openai", "second")]);
    let store = TestConfigStore::new(Err("unused".to_string()));
    let builder = FactoryAgentBuilder::<TestHost>::new_with_config_store(
        factory(),
        initial.clone(),
        store,
    );
    let resolved = builder.resolve_config(Some(Ok(first.clone())));
    assert_eq!(resolved.config, first);
    let resolved = builder.resolve_config(Some(Err("flaky".to_string())));
    assert_eq!(resolved.config, initial);
    let resolved = builder.resolve_config(Some(Ok(second.clone())));
    assert_eq!(resolved.config, second);
}

#[test]
fn unreadable_store_is_the_same_as_no_store() {
    let initial = config_with_keys(&[("openai", "initial")]);
    let plain = FactoryAgentBuilder::<TestHost>::new(factory(), initial.clone());
    let store = TestConfigStore::new(Err("gone".to_string()));
    let backed = FactoryAgentBuilder::<TestHost>::new_with_config_store(
        factory(),
        initial.clone(),
        store,
    );
    for _ in 0..3 {
        let with_store = factory_call(&backed, &make_session_request("gpt-5.2"));
        let without = factory_call(&plain, &make_session_request("gpt-5.2"));
        assert_eq!(with_store.resolved.config, initial);
        assert_eq!(without.resolved.config, initial);
    }
}

#[test]
fn setters_replace_one_default_each() {
    let mut builder = FactoryAgentBuilder::<TestHost>::new(factory(), Config::default());
    builder.set_default_llm_client(Some(Arc::new(MockLlmClient { delta: "set" })));
    assert!(builder.default_tool_dispatcher.is_none());
    builder.set_default_tool_dispatcher(Some(Arc::from("tools")));
    assert!(builder.default_session_store.is_none());
    builder.set_default_session_store(Some(Arc::new(StoreAdapter {
        over: Arc::new("store"),
    })));
    let build = factory_call(&builder, &make_session_request("gpt-5.2")).build;
    let reply = build.llm_client_override.map(|client| client.reply());
    assert_eq!(reply, Some("set".to_string()));
    assert_eq!(build.tool_dispatcher_override.as_deref(), Some("tools"));
    let store = build.session_store_override.map(|store| *store.over);
    assert_eq!(store, Some("store"));
}

#[test]
fn resolve_config_covers_every_answer() {
    let own = config_with_keys(&[("gemini", "own")]);
    let other = config_with_keys(&[("gemini", "other")]);
    let builder = FactoryAgentBuilder::<TestHost>::new(factory(), own.clone());

    let resolved = builder.resolve_config(None);
    assert_eq!((resolved.config, resolved.store_error), (own.clone(), None));

    let resolved = builder.resolve_config(Some(Ok(other.clone())));
    assert_eq!((resolved.config, resolved.store_error), (other, None));

    let resolved = builder.resolve_config(Some(Err("gone".to_string())));
    assert_eq!(
        (resolved.config, resolved.store_error),
        (own, Some("gone".to_string()))
    );
}

#[test]
fn each_slot_is_filled_on_its_own() {
    let mut builder = FactoryAgentBuilder::<TestHost>::new(factory(), Config::default());
    builder.default_tool_dispatcher = Some(Arc::from("default tools"));
    builder.default_session_store = Some(Arc::new(StoreAdapter {
        over: Arc::new("default store"),
    }));

    let build = AgentBuildConfig::<TestHost> {
        options: ("gpt-5.2".to_string(), 1),
        llm_client_override: None,
        tool_dispatcher_override: Some(Arc::from("own tools")),
        session_store_override: None,
    };
    match builder.begin_build(build) {
        BuildStep::CallFactory(call) => {
            assert!(call.build.llm_client_override.is_none());
            assert_eq!(call.build.tool_dispatcher_override.as_deref(), Some("own tools"));
            let store = call.build.session_store_override.map(|store| *store.over);
            assert_eq!(store, Some("default store"));
            assert_eq!(call.build.options, ("gpt-5.2".to_string(), 1));
        }
        BuildStep::ReadConfig { .. } => panic!("there is no store to read"),
    }
}

#[test]
fn defaults_fill_once() {
    let mut builder = FactoryAgentBuilder::<TestHost>::new(factory(), Config::default());
    builder.default_llm_client = Some(Arc::new(MockLlmClient { delta: "first" }));
    let first = factory_call(&builder, &make_session_request("gpt-5.2")).build;

    builder.default_llm_client = Some(Arc::new(MockLlmClient { delta: "second" }));
    match builder.begin_build(first) {
        BuildStep::CallFactory(call) => {
            let reply = call.build.llm_client_override.map(|client| client.reply());
            assert_eq!(reply, Some("first".to_string()));
        }
        BuildStep::ReadConfig { .. } => panic!("there is no store to read"),
    }
}

#[test]
fn ephemeral_service_has_a_plain_builder() {
    let config = config_with_keys(&[("anthropic", "k")]);
    let service = build_ephemeral_service::<TestHost>(factory(), config.clone(), 5);
    assert_eq!(service.max_sessions, 5);
    assert_eq!(service.builder.config(), &config);
    assert_eq!(service.builder.factory(), &factory());
    let build = AgentBuildConfig {
        options: ("gpt-5.2".to_string(), 1),
        llm_client_override: None,
        tool_dispatcher_override: None,
        session_store_override: None,
    };
    assert!(matches!(service.builder.begin_build(build), BuildStep::CallFactory(_)));
    assert!(service.builder.default_llm_client.is_none());
    assert!(service.builder.default_tool_dispatcher.is_none());
    assert!(service.builder.default_session_store.is_none());
}

#[test]
fn persistent_service_shares_its_store_with_its_agents() {
    let store: Arc<&'static str> = Arc::new("sessions.redb");
    let runtime_store: Arc<&'static str> = Arc::new("runtime");
    let service = build_persistent_service::<TestHost>(
        factory(),
        config_with_keys(&[("openai", "k")]),
        64,
        PersistenceBundle {
            store: store.clone(),
            runtime_store: Some(runtime_store.clone()),
        },
        |over| Arc::new(StoreAdapter { over }),
    );
    assert_eq!(service.max_sessions, 64);
    assert!(Arc::ptr_eq(&service.store, &store));
    assert!(service
        .runtime_store
        .as_ref()
        .is_some_and(|own| Arc::ptr_eq(own, &runtime_store)));

    let adapter_of = |req: &CreateSessionRequest| match build_agent(&service.builder, req) {
        Ok(agent) => agent.agent().engine.session_store.clone(),
        Err(error) => panic!("build failed: {error:?}"),
    };
    let first = adapter_of(&make_session_request("gpt-5.2")).expect("an adapter");
    let second = adapter_of(&make_session_request("gpt-5.2")).expect("an adapter");
    assert!(Arc::ptr_eq(&first, &second));
    assert!(Arc::ptr_eq(&first.over, &store));

    let mut req = make_session_request("gpt-5.2");
    let named = Arc::new(StoreAdapter {
        over: Arc::new("elsewhere"),
    });
    req.session_store_override = Some(named.clone());
    let third = adapter_of(&req).expect("an adapter");
    assert!(Arc::ptr_eq(&third, &named));
}

#[test]
fn persistence_bundle_comes_apart() {
    let bundle = PersistenceBundle::<TestHost> {
        store: Arc::new("sessions"),
        runtime_store: None,
    };
    let (store, runtime_store) = bundle.into_parts();
    assert_eq!(*store, "sessions");
    assert!(runtime_store.is_none());
}

#[test]
fn agent_without_comms_reaches_nobody() {
    let agent = mock_agent();
    match agent.send("hello".to_string()) {
        Err(SendError::Unsupported(text)) => assert_eq!(text, "comms runtime is not configured"),
        _ => panic!("expected sending to be unsupported"),
    }
    assert!(matches!(agent.peers(), PeersStep::Known(peers) if peers.is_empty()));
    assert!(agent.comms_runtime().is_none());
    assert!(agent.event_injector(|_| panic!("nobody to ask")).is_none());
    assert!(agent
        .interaction_event_injector(|_| panic!("nobody to ask"))
        .is_none());
}

#[test]
fn agent_with_comms_goes_through_its_runtime() {
    let mut agent = mock_agent();
    let runtime: Arc<str> = Arc::from("runtime");
    agent.agent_mut().comms = Some(runtime.clone());

    match agent.send("hello".to_string()) {
        Ok(request) => {
            assert!(Arc::ptr_eq(&request.runtime, &runtime));
            assert_eq!(request.cmd, "hello");
        }
        Err(_) => panic!("expected a request"),
    }
    assert!(matches!(agent.peers(), PeersStep::Ask(asked) if Arc::ptr_eq(&asked, &runtime)));
    assert!(agent
        .comms_runtime()
        .is_some_and(|own| Arc::ptr_eq(&own, &runtime)));
    let injector = agent.event_injector(|asked| Some(Arc::from(format!("events of {asked}"))));
    assert_eq!(injector.as_deref(), Some("events of runtime"));
    assert!(agent.event_injector(|_| None).is_none());
    let injector =
        agent.interaction_event_injector(|asked| Some(Arc::from(format!("turns of {asked}"))));
    assert_eq!(injector.as_deref(), Some("turns of runtime"));
}

#[test]
fn runtime_replies_come_back_as_they_are() {
    assert!(matches!(FactoryAgent::<TestHost>::sent(Ok(9)), Ok(9)));
    let refused = Err(SendError::Unsupported("no streams here".to_string()));
    match FactoryAgent::<TestHost>::sent(refused) {
        Err(SendError::Unsupported(text)) => assert_eq!(text, "no streams here"),
        _ => panic!("expected the runtime's refusal"),
    }
    let failed = Err(SendError::Other("peer is offline".to_string()));
    match FactoryAgent::<TestHost>::sent(failed) {
        Err(SendError::Other(error)) => assert_eq!(error, "peer is offline"),
        _ => panic!("expected the runtime's error"),
    }
}

#[test]
fn snapshot_shows_the_session() {
    let mut agent = mock_agent();
    {
        let session = &mut agent.agent_mut().session;
        session.created_at = 100;
        session.updated_at = 250;
        session.messages = vec!["a".to_string(), "b".to_string(), "c".to_string()];
        session.total_tokens = 77;
        session.total_usage = (70, 7);
        session.last_assistant_text = Some("c".to_string());
    }
    let snapshot = agent.snapshot();
    assert_eq!(snapshot.created_at, 100);
    assert_eq!(snapshot.updated_at, 250);
    assert_eq!(snapshot.message_count, 3);
    assert_eq!(snapshot.total_tokens, 77);
    assert_eq!(snapshot.usage, (70, 7));
    assert_eq!(snapshot.last_assistant_text, Some("c".to_string()));
    let again = agent.snapshot();
    assert_eq!(again.updated_at, snapshot.updated_at);
    assert_eq!(again.message_count, snapshot.message_count);
    assert_eq!(again.usage, snapshot.usage);
    assert_eq!(again.last_assistant_text, snapshot.last_assistant_text);
    assert_eq!(agent.session_id(), 42);
    assert_eq!(agent.session_id(), agent.session().id);
}

#[test]
fn snapshot_of_a_fresh_session_is_empty() {
    let snapshot = mock_agent().snapshot();
    assert_eq!(snapshot.message_count, 0);
    assert_eq!(snapshot.total_tokens, 0);
    assert_eq!(snapshot.last_assistant_text, None);
}

#[test]
fn skill_references_are_replaced() {
    let mut agent = mock_agent();
    agent.set_skill_references(Some(vec!["review".to_string()]));
    assert_eq!(
        agent.agent().pending_skill_references,
        Some(vec!["review".to_string()])
    );
    assert_eq!(agent.snapshot().message_count, 0);
    agent.set_skill_references(None);
    assert_eq!(agent.agent().pending_skill_references, None);
}

#[test]
fn rejected_settings_are_config_errors() {
    let mut agent = mock_agent();
    let rejected = agent.set_flow_tool_overlay(Some(3), |_, overlay: Option<i32>| {
        Err(format!("no tool {overlay:?}"))
    });
    match rejected {
        Err(AgentError::ConfigError(text)) => assert_eq!(text, "no tool Some(3)"),
        _ => panic!("expected a config error"),
    }
    let rejected = agent.stage_external_tool_filter("deny", |_, filter| {
        Err::<u64, String>(format!("bad filter {filter}"))
    });
    match rejected {
        Err(AgentError::ConfigError(text)) => assert_eq!(text, "bad filter deny"),
        _ => panic!("expected a config error"),
    }
}

#[test]
fn accepted_settings_reach_the_agent() {
    let mut agent = mock_agent();
    let accepted = agent.set_flow_tool_overlay(Some(3), |agent, overlay| {
        agent.session.total_tokens = overlay.unwrap_or(0);
        Ok::<(), String>(())
    });
    assert!(accepted.is_ok());
    assert_eq!(agent.session().total_tokens, 3);
    let accepted = agent.stage_external_tool_filter(11, |agent, filter| {
        agent.session.total_tokens = filter;
        Ok::<&str, String>("revision")
    });
    assert!(accepted.is_ok());
    assert_eq!(agent.session().total_tokens, 11);
}

#[test]
fn system_context_is_shared_and_appended() {
    let mut agent = mock_agent();
    assert!(Arc::ptr_eq(
        &agent.system_context_state(),
        &agent.agent().system_context
    ));
    agent.apply_runtime_system_context(&["one", "two"], |session, appends| {
        for append in appends {
            session.messages.push(append.to_string());
        }
    });
    assert_eq!(agent.session().messages, vec!["one", "two"]);
}

#[test]
fn client_is_replaced_and_turn_cancelled() {
    let mut agent = mock_agent();
    assert_eq!(run(&mut agent, "hello"), "ok");
    let client: Arc<dyn LlmClient> = Arc::new(MockLlmClient { delta: "swapped" });
    agent.replace_client(client, |agent, client| agent.engine.client = client);
    assert_eq!(run(&mut agent, "hello"), "swapped");

    agent.cancel(|agent| agent.session.messages.clear());
    assert_eq!(agent.snapshot().message_count, 0);
}

#[test]
fn session_copy_is_taken_from_the_agent() {
    let mut agent = mock_agent();
    run(&mut agent, "hello");
    let copy = agent.session_clone(|agent| Session {
        id: agent.session.id,
        created_at: agent.session.created_at,
        updated_at: agent.session.updated_at,
        messages: agent.session.messages.clone(),
        total_tokens: agent.session.total_tokens,
        total_usage: agent.session.total_usage,
        last_assistant_text: Some(agent.system_context.to_string()),
    });
    assert_eq!(copy.messages, vec!["hello", "ok"]);
    assert_eq!(copy.last_assistant_text, Some("context".to_string()));
}
