# mcpg_plugin_backend_mock

A mock backend binding (`kind: mock`) for the mcpg gateway: every call is
answered with the response the operator configured, as a simulated tool
error, as a literal `CallToolResult` (passthrough), or as the response's
text plus structured metadata, wrapped in the host's verbatim-result
envelope.

Layout:

- `src/` — the verified library (Verus):
  - `json.rs`: the JSON values the plugin reads and builds, with their model;
  - `codec.rs`: the calls into serde_json (reading payload bytes, pretty and
    compact text, payload bytes), with names for their results;
  - `profile.rs`: binding specs, stored profiles, errors, and the check a
    spec must pass to be registered;
  - `result.rs`: the tool name, call arguments, mode-dependent
    `CallToolResult` and verbatim envelope of a call;
  - `plugin.rs`: the plugin, its manifest and its profiles by binding name;
  - `laws.rs`: properties across operations (a registered profile is read
    back, refused registrations change nothing, every accepted profile answers
    with a `CallToolResult`, error mode takes precedence, ...).
- `app/` — plain Rust around it: reading binding specs with serde, the
  simulated delay (tokio), and a synchronous bridge over the async surface.
- `tests/` — tests of the library.
