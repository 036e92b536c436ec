//! Mock backend binding plugin (`kind: "mock"`).
//!
//! A developer and test fixture: every call is answered with a response the
//! operator configured, with no outside I/O, in one of three modes:
//!
//! - `error: true`: a simulated tool-level error (`isError: true`);
//! - `passthrough: true`: `response` is a literal `CallToolResult`, surfaced
//!   unchanged (image, audio, embedded-resource or mixed content);
//! - otherwise `response` is pretty-printed into a text content block, with
//!   the call's metadata as structured content.
//!
//! The result travels under the host's verbatim-result envelope, a single
//! object `{ "__mcpg_verbatim_result": <CallToolResult> }`, which the gateway
//! projects onto `tools/call` as it stands.

use vstd::prelude::*;

pub mod codec;
pub mod json;
pub mod laws;
pub mod plugin;
pub mod profile;
pub mod result;

verus! {

/// Manifest id this plugin registers under, matching `id:` in
/// [`BINDING_DESCRIPTOR_YAML`]. The gateway compares it with the operator's
/// `plugins[]` entries before it falls back to its statically linked copy:
/// registering both would collide on the alias.
pub const PLUGIN_ID: &'static str = "dev.mcpg.backend.mock";

/// The plugin's display name.
pub const PLUGIN_NAME: &'static str = "Mock Binding";

/// The plugin descriptor handed to the gateway registrar at startup.
pub const BINDING_DESCRIPTOR_YAML: &'static str = "id: dev.mcpg.backend.mock\nname: Mock Binding\nclass: backend\nkind: native\npackage: mcpg-plugin-backend-mock\nartifact: libmcpg_plugin_backend_mock.so\nlicense: Apache-2.0\ncapabilities: []\npipeline_capable: true\n";

} // verus!
