# mcpr

A Model Context Protocol (MCP) library whose protocol logic is verified with
Verus, and the `mcpr` command line built on it.

## Layout

- `src/` — the verified library.
  - `json.rs`, `jsonrpc.rs`, `schema.rs`: the JSON value model, JSON-RPC
    messages with their JSON form (and the law that reading back what was
    written gives the message), and the tool, prompt and resource
    descriptions a server lists.
  - `server.rs`: the server's configuration, its registry of tool handlers,
    `dispatch`, the decision what to answer to each message, and the serving
    loop's steps (read, or close once a shutdown was requested).
  - `client.rs`: the requests a client sends, the ids it gives them, and
    what it makes of each answer.
  - `transport/`: the transports' logic — HTTP framing and sessions of the
    SSE server, the SSE client's event handling and reconnection policy, the
    WebSocket message queue, stdio framing, connection states.
  - `generator.rs`, `templates/`: which names the generator accepts, which
    files it writes from which template, the templates' texts, and how a
    template is filled in.
  - `cli.rs`: the decisions of the command line.
  - `text.rs`: character-level string helpers, each proved against a spec.
- `app/` — the asynchronous runtime around the library: the transports over
  stdio, HTTP (SSE) and WebSocket, the client and server loops, file writing
  for the generator, and `main`.
- `tests/` — tests of the library on concrete values.

Calls into outside crates made by the library (URL parsing, UUIDs) go
through a few trusted wrappers whose contracts are stated next to them.
