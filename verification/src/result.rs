//! The answer to one call: which tool was called, with which arguments, and
//! the `CallToolResult` that the binding's mode makes of them, wrapped in the
//! host's verbatim-result envelope.

use vstd::prelude::*;
use vstd::string::*;

use crate::json::{
    clone_json, entries_view, items_view, lemma_entries_view, lemma_items_view, Json, JsonView,
};
use crate::codec::{
    compact, compact_text, json_bytes, json_read, json_reads_back, pretty, pretty_text, read_json,
    to_bytes,
};
use vstd::utf8::encode_utf8;
use crate::profile::{MockProfile, MockProfileView};

verus! {

/// The key under which the result travels to the gateway: a payload that is
/// an object with this key is projected onto `tools/call` verbatim, content
/// and `isError` as the operator wrote them.
pub const VERBATIM_RESULT_KEY: &'static str = "__mcpg_verbatim_result";

/// The header that names the called tool; its name is compared without regard
/// to ASCII case.
pub const TOOL_NAME_HEADER: &'static str = "mcpg-tool-name";

/// The body of a simulated error where the profile sets no message.
pub const DEFAULT_ERROR_MESSAGE: &'static str = "mock error";

/// The binding kind this plugin serves.
pub const MOCK_KIND: &'static str = "mock";

/// One call routed to a binding.
pub struct BackendRequest {
    /// The call's arguments, as JSON bytes.
    pub payload: Vec<u8>,
    /// The request headers, as (name, value) pairs.
    pub headers: Vec<(String, String)>,
    pub request_id: String,
    pub session_id: Option<String>,
}

/// The model of request headers.
pub open spec fn headers_view(headers: Seq<(String, String)>) -> Seq<(Seq<char>, Seq<char>)> {
    Seq::new(headers.len(), |i: int| (headers[i].0@, headers[i].1@))
}

/// The ASCII lower-case of a character's code; other codes are left as they are.
pub open spec fn ascii_lower(code: u32) -> u32 {
    if 65 <= code <= 90 {
        (code + 32) as u32
    } else {
        code
    }
}

/// Whether `a` and `b` are the same text when ASCII letters are compared without regard to case.
pub open spec fn eq_ignore_ascii_case(a: Seq<char>, b: Seq<char>) -> bool {
    &&& a.len() == b.len()
    &&& forall|i: int| 0 <= i < a.len() ==> ascii_lower(a[i] as u32) == ascii_lower(b[i] as u32)
}

/// The tool a call names: the value of the first header whose name is
/// `mcpg-tool-name` in any ASCII case, or else the binding's own name.
pub open spec fn tool_name_of(headers: Seq<(Seq<char>, Seq<char>)>, backend_name: Seq<char>) -> Seq<
    char,
>
    decreases headers.len(),
{
    if headers.len() == 0 {
        backend_name
    } else if eq_ignore_ascii_case(headers[0].0, TOOL_NAME_HEADER@) {
        headers[0].1
    } else {
        tool_name_of(headers.drop_first(), backend_name)
    }
}

/// The arguments of a call: `{}` for an empty payload or one that is no
/// JSON; otherwise the JSON the payload holds. `parsed` is the payload read
/// as JSON, `None` where it is no JSON.
pub open spec fn call_arguments_of(payload: Seq<u8>, parsed: Option<JsonView>) -> JsonView {
    if payload.len() == 0 {
        JsonView::Object(Seq::empty())
    } else {
        match parsed {
            Some(v) => v,
            None => JsonView::Object(Seq::empty()),
        }
    }
}

/// The model of an optional JSON value.
pub open spec fn opt_json_view(v: Option<Json>) -> Option<JsonView> {
    match v {
        Some(j) => Some(j@),
        None => None,
    }
}

/// A single text content block, in the MCP `ToolContent` wire shape.
pub open spec fn text_block(text: Seq<char>) -> JsonView {
    JsonView::Object(seq![("text"@, JsonView::Str(text)), ("type"@, JsonView::Str("text"@))])
}

/// The body of a profile's simulated error.
pub open spec fn error_text(p: MockProfileView) -> Seq<char> {
    match p.error_message {
        Some(m) => m,
        None => DEFAULT_ERROR_MESSAGE@,
    }
}

/// The `CallToolResult` for profile `p`, answering a call of `tool_name` on
/// binding `backend_name` with `arguments` (each object's keys in the order
/// serde_json's map keeps them):
/// - with `error` set, a tool error whose text is the error message (this
///   takes precedence over `passthrough`);
/// - with `passthrough` set, the configured response itself;
/// - otherwise the response as a text block (`response_text`, the response
///   pretty-printed as JSON) with the call's metadata as structured content.
pub open spec fn mock_result(
    p: MockProfileView,
    tool_name: Seq<char>,
    backend_name: Seq<char>,
    arguments: JsonView,
    response_text: Seq<char>,
) -> JsonView {
    if p.error {
        JsonView::Object(
            seq![
                ("content"@, JsonView::Array(seq![text_block(error_text(p))])),
                ("isError"@, JsonView::Bool(true)),
                (
                    "structuredContent"@,
                    JsonView::Object(
                        seq![
                            ("arguments"@, arguments),
                            ("bindingKind"@, JsonView::Str(MOCK_KIND@)),
                            ("error"@, JsonView::Str(error_text(p))),
                            ("profile"@, JsonView::Str(backend_name)),
                            ("simulated"@, JsonView::Bool(true)),
                            ("toolName"@, JsonView::Str(tool_name)),
                        ],
                    ),
                ),
            ],
        )
    } else if p.passthrough {
        p.response
    } else {
        JsonView::Object(
            seq![
                ("content"@, JsonView::Array(seq![text_block(response_text)])),
                ("isError"@, JsonView::Bool(false)),
                (
                    "structuredContent"@,
                    JsonView::Object(
                        seq![
                            ("arguments"@, arguments),
                            ("bindingKind"@, JsonView::Str(MOCK_KIND@)),
                            ("delayMs"@, JsonView::UInt(p.delay_ms)),
                            ("profile"@, JsonView::Str(backend_name)),
                            ("response"@, p.response),
                            ("simulated"@, JsonView::Bool(true)),
                            ("toolName"@, JsonView::Str(tool_name)),
                        ],
                    ),
                ),
            ],
        )
    }
}

/// The payload model: the result under the verbatim-result key, alone.
pub open spec fn verbatim_envelope_of(result: JsonView) -> JsonView {
    JsonView::Object(seq![(VERBATIM_RESULT_KEY@, result)])
}

/// `a` and `b` are the same text when ASCII letters are compared without regard to case.
pub fn eq_ignore_ascii_case_str(a: &str, b: &str) -> (r: bool)
    ensures
        r == eq_ignore_ascii_case(a@, b@),
{
    let n = a.unicode_len();
    let m = b.unicode_len();
    if n != m {
        return false;
    }
    let mut i: usize = 0;
    while i < n
        invariant
            n == a@.len(),
            m == b@.len(),
            n == m,
            i <= n,
            forall|k: int| 0 <= k < i ==> ascii_lower(a@[k] as u32) == ascii_lower(b@[k] as u32),
        decreases n - i,
    {
        let x = a.get_char(i) as u32;
        let y = b.get_char(i) as u32;
        let lx = if 65 <= x && x <= 90 {
            x + 32
        } else {
            x
        };
        let ly = if 65 <= y && y <= 90 {
            y + 32
        } else {
            y
        };
        if lx != ly {
            return false;
        }
        i = i + 1;
    }
    true
}

/// The tool a call names: the value of the first `mcpg-tool-name` header
/// (its name in any ASCII case), or else the binding's own name.
pub fn tool_name(headers: &Vec<(String, String)>, backend_name: &str) -> (r: String)
    ensures
        r@ == tool_name_of(headers_view(headers@), backend_name@),
{
    let ghost hv = headers_view(headers@);
    let mut i: usize = 0;
    assert(hv.skip(0) =~= hv);
    while i < headers.len()
        invariant
            i <= headers.len(),
            hv == headers_view(headers@),
            tool_name_of(hv.skip(i as int), backend_name@) == tool_name_of(hv, backend_name@),
        decreases headers.len() - i,
    {
        assert(hv.skip(i as int)[0] == hv[i as int]);
        assert(hv.skip(i as int).drop_first() =~= hv.skip(i + 1));
        if eq_ignore_ascii_case_str(headers[i].0.as_str(), TOOL_NAME_HEADER) {
            return headers[i].1.clone();
        }
        i = i + 1;
    }
    String::from_str(backend_name)
}

/// The arguments of a call with `payload`: `{}` for an empty payload, else
/// the JSON read from it (`parsed`), or `{}` where it held no JSON.
pub fn call_arguments(payload: &Vec<u8>, parsed: Option<Json>) -> (r: Json)
    ensures
        r@ == call_arguments_of(payload@, opt_json_view(parsed)),
{
    if payload.len() == 0 {
        Json::Object(Vec::new())
    } else {
        match parsed {
            Some(v) => v,
            None => Json::Object(Vec::new()),
        }
    }
}

/// A single text content block in MCP `ToolContent` wire shape.
pub fn text_content(text: String) -> (r: Json)
    ensures
        r@ == text_block(text@),
{
    let mut entries: Vec<(String, Json)> = Vec::new();
    entries.push((String::from_str("text"), Json::Str(text)));
    entries.push((String::from_str("type"), Json::string("text")));
    let r = Json::Object(entries);
    proof {
        lemma_entries_view(entries@);
        assert(entries_view(entries@) =~= text_block(text@)->Object_0);
    }
    r
}

/// An object entry: `key` with `value`.
fn entry(key: &str, value: Json) -> (r: (String, Json))
    ensures
        r.0@ == key@,
        r.1@ == value@,
{
    (String::from_str(key), value)
}

/// The `CallToolResult` for `profile`, answering a call of `tool_name` on
/// binding `backend_name` with `arguments`, across the error / passthrough /
/// default modes. `response_text` is the profile's response pretty-printed as
/// JSON; only the default mode uses it.
pub fn build_mock_result(
    profile: &MockProfile,
    tool_name: &str,
    backend_name: &str,
    arguments: &Json,
    response_text: String,
) -> (r: Json)
    ensures
        r@ == mock_result(profile@, tool_name@, backend_name@, arguments@, response_text@),
{
    if profile.error {
        let error_msg = match &profile.error_message {
            Some(m) => m.clone(),
            None => String::from_str(DEFAULT_ERROR_MESSAGE),
        };
        let mut content: Vec<Json> = Vec::new();
        content.push(text_content(error_msg.clone()));
        let mut structured: Vec<(String, Json)> = Vec::new();
        structured.push(entry("arguments", clone_json(arguments)));
        structured.push(entry("bindingKind", Json::string(MOCK_KIND)));
        structured.push(entry("error", Json::Str(error_msg)));
        structured.push(entry("profile", Json::string(backend_name)));
        structured.push(entry("simulated", Json::Bool(true)));
        structured.push(entry("toolName", Json::string(tool_name)));
        let mut top: Vec<(String, Json)> = Vec::new();
        top.push(entry("content", Json::Array(content)));
        top.push(entry("isError", Json::Bool(true)));
        top.push(entry("structuredContent", Json::Object(structured)));
        let r = Json::Object(top);
        proof {
            let p = profile@;
            lemma_items_view(content@);
            lemma_entries_view(structured@);
            lemma_entries_view(top@);
            assert(items_view(content@) =~= seq![text_block(error_text(p))]);
            assert(entries_view(structured@) =~= seq![
                ("arguments"@, arguments@),
                ("bindingKind"@, JsonView::Str(MOCK_KIND@)),
                ("error"@, JsonView::Str(error_text(p))),
                ("profile"@, JsonView::Str(backend_name@)),
                ("simulated"@, JsonView::Bool(true)),
                ("toolName"@, JsonView::Str(tool_name@)),
            ]);
            assert(entries_view(top@) =~= mock_result(
                p,
                tool_name@,
                backend_name@,
                arguments@,
                response_text@,
            )->Object_0);
        }
        return r;
    }
    if profile.passthrough {
        return clone_json(&profile.response);
    }
    let mut content: Vec<Json> = Vec::new();
    content.push(text_content(response_text));
    let mut structured: Vec<(String, Json)> = Vec::new();
    structured.push(entry("arguments", clone_json(arguments)));
    structured.push(entry("bindingKind", Json::string(MOCK_KIND)));
    structured.push(entry("delayMs", Json::UInt(profile.delay_ms)));
    structured.push(entry("profile", Json::string(backend_name)));
    structured.push(entry("response", clone_json(&profile.response)));
    structured.push(entry("simulated", Json::Bool(true)));
    structured.push(entry("toolName", Json::string(tool_name)));
    let mut top: Vec<(String, Json)> = Vec::new();
    top.push(entry("content", Json::Array(content)));
    top.push(entry("isError", Json::Bool(false)));
    top.push(entry("structuredContent", Json::Object(structured)));
    let r = Json::Object(top);
    proof {
        let p = profile@;
        lemma_items_view(content@);
        lemma_entries_view(structured@);
        lemma_entries_view(top@);
        assert(items_view(content@) =~= seq![text_block(response_text@)]);
        assert(entries_view(structured@) =~= seq![
            ("arguments"@, arguments@),
            ("bindingKind"@, JsonView::Str(MOCK_KIND@)),
            ("delayMs"@, JsonView::UInt(p.delay_ms)),
            ("profile"@, JsonView::Str(backend_name@)),
            ("response"@, p.response),
            ("simulated"@, JsonView::Bool(true)),
            ("toolName"@, JsonView::Str(tool_name@)),
        ]);
        assert(entries_view(top@) =~= mock_result(
            p,
            tool_name@,
            backend_name@,
            arguments@,
            response_text@,
        )->Object_0);
    }
    r
}

/// Wraps `result` under the verbatim-result key, so that the gateway
/// projects the `CallToolResult` (content and `isError`) as it stands.
pub fn verbatim_envelope(result: Json) -> (r: Json)
    ensures
        r@ == verbatim_envelope_of(result@),
{
    let mut top: Vec<(String, Json)> = Vec::new();
    top.push(entry(VERBATIM_RESULT_KEY, result));
    let r = Json::Object(top);
    proof {
        lemma_entries_view(top@);
        assert(entries_view(top@) =~= verbatim_envelope_of(result@)->Object_0);
    }
    r
}

/// The envelope that answers `request` on binding `backend_name` with
/// `profile`: the `CallToolResult` of the profile's mode for the tool the
/// request names and the request's arguments, under the verbatim-result key.
/// `parsed_payload` is the request's payload read as JSON (`None` where it
/// is no JSON); `response_text` is the profile's response pretty-printed.
pub fn verbatim_result(
    profile: &MockProfile,
    request: &BackendRequest,
    backend_name: &str,
    parsed_payload: Option<Json>,
    response_text: String,
) -> (r: Json)
    ensures
        r@ == verbatim_envelope_of(
            mock_result(
                profile@,
                tool_name_of(headers_view(request.headers@), backend_name@),
                backend_name@,
                call_arguments_of(request.payload@, opt_json_view(parsed_payload)),
                response_text@,
            ),
        ),
{
    let arguments = call_arguments(&request.payload, parsed_payload);
    let tool = tool_name(&request.headers, backend_name);
    let result = build_mock_result(profile, tool.as_str(), backend_name, &arguments, response_text);
    verbatim_envelope(result)
}

/// The arguments of a call with `payload`, reading the payload as JSON with
/// serde_json where it is not empty.
pub fn read_call_arguments(payload: &Vec<u8>) -> (r: Json)
    ensures
        r@ == call_arguments_of(payload@, json_read(payload@)),
{
    if payload.len() == 0 {
        call_arguments(payload, None)
    } else {
        call_arguments(payload, read_json(payload))
    }
}

/// The text of a response in the default mode: serde_json's pretty-printed
/// JSON, or its compact JSON where pretty-printing fails.
pub open spec fn response_text_of(response: JsonView) -> Seq<char> {
    match pretty_text(response) {
        Some(t) => t,
        None => compact_text(response),
    }
}

/// The text of `response` in the default mode: pretty-printed JSON, or
/// compact JSON where pretty-printing fails. Read as JSON, the text gives the
/// response back wherever serde_json reads the response back unchanged.
pub fn response_text(response: &Json) -> (r: String)
    ensures
        r@ == response_text_of(response@),
        pretty_text(response@) == Some(r@),
        json_reads_back(response@) ==> json_read(encode_utf8(r@)) == Some(response@),
{
    match pretty(response) {
        Some(t) => t,
        None => compact(response),
    }
}

/// The payload bytes of an envelope: its JSON bytes, or `{}` where they
/// cannot be written.
pub open spec fn payload_of(envelope: JsonView) -> Seq<u8> {
    match json_bytes(envelope) {
        Some(b) => b,
        None => seq![123u8, 125u8],
    }
}

/// The envelope that answers a call with `headers` and `payload` on binding
/// `backend_name` with profile `p`, the payload read by serde_json and the
/// response printed by it.
pub open spec fn answer_of(
    p: MockProfileView,
    headers: Seq<(Seq<char>, Seq<char>)>,
    payload: Seq<u8>,
    backend_name: Seq<char>,
) -> JsonView {
    verbatim_envelope_of(
        mock_result(
            p,
            tool_name_of(headers, backend_name),
            backend_name,
            call_arguments_of(payload, json_read(payload)),
            response_text_of(p.response),
        ),
    )
}

/// The payload that answers `request` on binding `backend_name` with
/// `profile`: the JSON bytes of the verbatim-result envelope around the
/// `CallToolResult` of the profile's mode, for the tool the request names and
/// the arguments its payload holds. The bytes read back as that envelope, and
/// in the default mode the text block reads back as the configured response,
/// wherever serde_json reads these values back unchanged.
pub fn respond(profile: &MockProfile, request: &BackendRequest, backend_name: &str) -> (r: Vec<u8>)
    ensures
        r@ == payload_of(answer_of(profile@, headers_view(request.headers@), request.payload@, backend_name@)),
        json_bytes(answer_of(profile@, headers_view(request.headers@), request.payload@, backend_name@)) is Some,
        json_reads_back(answer_of(profile@, headers_view(request.headers@), request.payload@, backend_name@))
            ==> json_read(r@) == Some(answer_of(profile@, headers_view(request.headers@), request.payload@, backend_name@)),
        json_reads_back(profile@.response) ==> json_read(
            encode_utf8(response_text_of(profile@.response)),
        ) == Some(profile@.response),
{
    let arguments = read_call_arguments(&request.payload);
    let tool = tool_name(&request.headers, backend_name);
    let text = response_text(&profile.response);
    let result = build_mock_result(profile, tool.as_str(), backend_name, &arguments, text);
    let envelope = verbatim_envelope(result);
    match to_bytes(&envelope) {
        Some(b) => b,
        None => {
            let mut b: Vec<u8> = Vec::new();
            b.push(123u8);
            b.push(125u8);
            assert(b@ =~= seq![123u8, 125u8]);
            b
        },
    }
}

} // verus!
