# client_ui_common

The shared, view-agnostic model and controller of the assistant's user interfaces, written in Verus.

A client supplies the view. It turns input and daemon signals into messages, feeds them to
`WindowState::apply`, and performs the effects that come back.

- `src/transition.rs` states the window's state machine as a mathematical function;
  `src/reducer.rs` is the code that is proved to compute it.
- `src/conversation.rs` holds the per-conversation models and the routing of replies.
- `src/laws.rs` and `src/laws/` hold what is proved of the state machine as a whole.
- `src/mcp_servers.rs`, `src/context_usage.rs` and `src/settings.rs` are the view-models of the
  servers panel, the context-window indicator and the settings panels, each with its laws.
- `src/text.rs` and `src/json.rs` declare what is taken on trust of the standard library and of
  `serde_json`.
- `app/` is what clients need around the library: floating point, serialization, JSON schemas and
  the standard error traits.
