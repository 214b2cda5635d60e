# Slipstream

The parts of the Slipstream terminal that decide: which conversations of a Codex or an OpenCode
server are shown and what is sent there, how the agent service on this machine is configured,
started and tested, which MCP servers run, what the panel of Docker containers does, how a relay for
shared sessions is chosen, and what the login slide, the command suggestions and the SSH transport
make of what they are told.

Everything under `src/` is verified with Verus. Each executable function states what it returns, or
how it changes its state, over plain mathematical models: texts are sequences of characters, JSON
documents are trees, the panels are state machines from a state and an event to the next state and
the effects that the terminal has to carry out. Public functions whose names begin with `law_` state
what holds across several of them.

- `src/text.rs`, `path.rs`, `ordered.rs`, `modeled.rs`, `text_map.rs`: texts, paths and lists.
- `src/json.rs`, `members.rs`, `decode.rs`, `shape.rs`, `server_url.rs`, `time.rs`, `shell.rs`:
  documents and their faults, addresses, times and shell words, around the crates that read and
  write them.
- `src/codex_app_server/`, `src/opencode_server/`, `src/reconnect.rs`: the two kinds of agent servers.
- `src/local_multi_agent/`: the agent service on this machine.
- `src/mcp/`: MCP servers named by configuration files.
- The other files of `src/` each hold one page, panel or setting of the terminal.
- `app/` performs the effects: HTTP, WebSockets, processes and files.
- `tests/` runs the library.
