# ghost

The decision and text-building core of Ghost, a desktop-automation MCP server,
written in Verus.

- `src/` is the verified library:
  - `mcp/server.rs`: the two stdio framings (`Content-Length` headers or
    newline-delimited JSON), transport detection, the fields read from a
    message body, and JSON-RPC routing of
    `initialize`, `tools/list`, `tools/call`, `ping` and unknown methods;
  - `tools/overlay_events.rs`: the ghost-cursor overlay channel: bounded intent
    labels, sequence numbers, event bodies and the loopback HTTP request;
  - `tools/journal.rs`: journal markers for Shadow's ingest endpoint, bearer
    token precedence, the request, and the answer (an error when Shadow rejects
    the marker);
  - `tools/wait.rs`: wait conditions, their checks and the poll decisions;
  - `tools/mod.rs`: tool parameters;
  - `cli.rs`: the command line and the `setup`/`doctor` report lines;
  - `text.rs`, `json.rs`, `clock.rs`: strings; JSON values (parsed by serde_json),
    their compact text and string literals (written by serde_json); the wall
    clock.
- `app/` is the binary around it: stdio, sockets, the environment, the
  permission and window APIs, and the clap rendering of usage errors. It reads
  lines and bodies and hands every decision to the library.
- `tests/` runs the library on concrete values.
