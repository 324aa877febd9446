# service_factory

Agents and agent builders for session services, with machine-checked contracts.

A session service creates its agents through a `FactoryAgentBuilder`. The builder completes each
request with its defaults, settles the config (the latest from a config store, or its own where
there is none or the read fails), and has an agent factory do the building. The result is wrapped
as a `FactoryAgent`, which answers what the service asks of an agent.

The library decides and never waits. Where something has to be waited for, it says what to do next
and takes the answer back:

1. `FactoryAgentBuilder::build_agent` gives a `BuildStep`.
2. For `BuildStep::ReadConfig`, read the store and call `config_read`.
3. Have the factory build from the `FactoryCall`, and call `agent_built`.

## Layout

- `src/host.rs`: the types that the runtime around the library brings along
- `src/agent.rs`: `FactoryAgent` and the agent it wraps
- `src/builder.rs`: `FactoryAgentBuilder` and the steps of a build
- `src/service.rs`: the parts of in-memory and persistent services
- `src/session.rs`, `src/error.rs`: sessions, snapshots and errors
- `src/laws.rs`: what holds of the library as a whole
- `app/`: the asynchronous side, which reads stores, runs factories and agents, and logs
- `tests/`: builds and agents over a small test host
