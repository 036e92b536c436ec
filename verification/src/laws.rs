//! What holds of the plugin across its operations: what registration keeps
//! and refuses, what a lookup gives back, and what each mode answers.

use vstd::prelude::*;
use vstd::utf8::is_ascii_chars;

use crate::codec::{
    json_plain, json_reads_back, lemma_ascii_less_at, lemma_keys_ordered, lemma_plain_deeper,
    pretty_text,
};
use crate::json::{lemma_entries_lookup_absent, lemma_entries_lookup_at, JsonView};
use crate::plugin::{after_register, audit_metadata_of, lookup, mock_manifest, PluginClass};
use crate::profile::{registration, BackendErrorView, MockProfileView, PASSTHROUGH_SHAPE_MESSAGE};
use crate::result::{
    answer_of, ascii_lower, call_arguments_of, eq_ignore_ascii_case, error_text, mock_result,
    response_text_of, text_block, tool_name_of, verbatim_envelope_of, MOCK_KIND,
    TOOL_NAME_HEADER, VERBATIM_RESULT_KEY,
};

verus! {

/// After a binding is registered with an accepted spec, looking it up gives
/// back the profile that the spec made.
pub proof fn registered_profile_is_found(
    store: Map<Seq<char>, MockProfileView>,
    name: Seq<char>,
    parsed: Result<MockProfileView, Seq<char>>,
)
    requires
        registration(parsed) is Ok,
    ensures
        lookup(after_register(store, name, parsed), name) == registration(parsed),
{
}

/// Registering one binding leaves every other binding as it was.
pub proof fn registration_leaves_other_bindings(
    store: Map<Seq<char>, MockProfileView>,
    name: Seq<char>,
    other: Seq<char>,
    parsed: Result<MockProfileView, Seq<char>>,
)
    requires
        other != name,
    ensures
        lookup(after_register(store, name, parsed), other) == lookup(store, other),
{
}

/// A refused registration changes nothing: what was registered before,
/// under that name too, stays registered.
pub proof fn refused_registration_changes_nothing(
    store: Map<Seq<char>, MockProfileView>,
    name: Seq<char>,
    parsed: Result<MockProfileView, Seq<char>>,
)
    requires
        registration(parsed) is Err,
    ensures
        after_register(store, name, parsed) == store,
{
}

/// A spec that was read is refused exactly where it asks for passthrough of
/// a response that is no `CallToolResult`, and then with an invalid-spec error.
pub proof fn passthrough_requires_call_tool_result(spec: MockProfileView)
    ensures
        registration(Ok(spec)) is Err <==> (spec.passthrough
            && !spec.response.is_call_tool_result_shape()),
        registration(Ok(spec)) is Err ==> registration(Ok(spec)) == Err::<
            MockProfileView,
            BackendErrorView,
        >(BackendErrorView::InvalidSpec(PASSTHROUGH_SHAPE_MESSAGE@)),
{
}

/// Every profile that registration accepts answers every call with a
/// `CallToolResult`: an object whose `content` member is an array.
pub proof fn accepted_profiles_answer_with_call_tool_results(
    parsed: Result<MockProfileView, Seq<char>>,
    tool_name: Seq<char>,
    backend_name: Seq<char>,
    arguments: JsonView,
    response_text: Seq<char>,
)
    requires
        registration(parsed) is Ok,
    ensures
        mock_result(
            registration(parsed)->Ok_0,
            tool_name,
            backend_name,
            arguments,
            response_text,
        ).is_call_tool_result_shape(),
{
    let p = registration(parsed)->Ok_0;
    reveal_strlit("content");
    reveal_strlit("isError");
    reveal_strlit("structuredContent");
    let r = mock_result(p, tool_name, backend_name, arguments, response_text);
    if !p.passthrough || p.error {
        assert("isError"@[0] != "content"@[0]);
        assert("structuredContent"@.len() != "content"@.len());
        lemma_entries_lookup_at(r->Object_0, "content"@, 0);
    }
}

/// With `error` set, the answer is a tool error whose only content is the
/// error message (`mock error` where none is set), whatever `passthrough` says.
pub proof fn error_takes_precedence(
    p: MockProfileView,
    tool_name: Seq<char>,
    backend_name: Seq<char>,
    arguments: JsonView,
    response_text: Seq<char>,
)
    requires
        p.error,
    ensures
        mock_result(p, tool_name, backend_name, arguments, response_text).field("isError"@)
            == Some(JsonView::Bool(true)),
        mock_result(p, tool_name, backend_name, arguments, response_text).field("content"@)
            == Some(JsonView::Array(seq![text_block(error_text(p))])),
        p.error_message is None ==> error_text(p) == "mock error"@,
{
    reveal_strlit("content");
    reveal_strlit("isError");
    reveal_strlit("structuredContent");
    let entries = mock_result(p, tool_name, backend_name, arguments, response_text)->Object_0;
    assert("isError"@[0] != "content"@[0]);
    assert("structuredContent"@.len() != "content"@.len());
    lemma_entries_lookup_at(entries, "content"@, 0);
    assert("isError"@.len() != "structuredContent"@.len());
    lemma_entries_lookup_at(entries, "isError"@, 1);
}

/// With `passthrough` set and `error` not, the answer is the configured
/// response, unchanged.
pub proof fn passthrough_surfaces_response_unchanged(
    p: MockProfileView,
    tool_name: Seq<char>,
    backend_name: Seq<char>,
    arguments: JsonView,
    response_text: Seq<char>,
)
    requires
        p.passthrough,
        !p.error,
    ensures
        mock_result(p, tool_name, backend_name, arguments, response_text) == p.response,
{
}

/// In the default mode the answer is no error; its only content is the
/// response's text, and its structured content carries the configured
/// response, the binding kind `mock` and `simulated: true`.
pub proof fn default_mode_wraps_response_as_text(
    p: MockProfileView,
    tool_name: Seq<char>,
    backend_name: Seq<char>,
    arguments: JsonView,
    response_text: Seq<char>,
)
    requires
        !p.passthrough,
        !p.error,
    ensures
        mock_result(p, tool_name, backend_name, arguments, response_text).field("isError"@)
            == Some(JsonView::Bool(false)),
        mock_result(p, tool_name, backend_name, arguments, response_text).field("content"@)
            == Some(JsonView::Array(seq![text_block(response_text)])),
        ({
            let structured = mock_result(
                p,
                tool_name,
                backend_name,
                arguments,
                response_text,
            ).field("structuredContent"@)->Some_0;
            &&& structured.field("response"@) == Some(p.response)
            &&& structured.field("arguments"@) == Some(arguments)
            &&& structured.field("toolName"@) == Some(JsonView::Str(tool_name))
            &&& structured.field("bindingKind"@) == Some(JsonView::Str(MOCK_KIND@))
            &&& structured.field("simulated"@) == Some(JsonView::Bool(true))
        }),
{
    reveal_strlit("content");
    reveal_strlit("isError");
    reveal_strlit("structuredContent");
    reveal_strlit("toolName");
    reveal_strlit("profile");
    reveal_strlit("bindingKind");
    reveal_strlit("arguments");
    reveal_strlit("response");
    reveal_strlit("delayMs");
    reveal_strlit("simulated");
    let entries = mock_result(p, tool_name, backend_name, arguments, response_text)->Object_0;
    assert("isError"@[0] != "content"@[0]);
    assert("structuredContent"@.len() != "content"@.len());
    lemma_entries_lookup_at(entries, "content"@, 0);
    assert("isError"@.len() != "structuredContent"@.len());
    lemma_entries_lookup_at(entries, "structuredContent"@, 2);
    lemma_entries_lookup_at(entries, "isError"@, 1);
    let s = entries[2].1->Object_0;
    assert("profile"@[0] != "toolName"@[0]);
    assert("bindingKind"@[0] != "toolName"@[0]);
    assert("arguments"@[0] != "toolName"@[0]);
    assert("response"@[0] != "toolName"@[0]);
    assert("delayMs"@[0] != "toolName"@[0]);
    assert("simulated"@[0] != "toolName"@[0]);
    assert("arguments"@[0] != "bindingKind"@[0]);
    assert("response"@[0] != "bindingKind"@[0]);
    assert("delayMs"@[0] != "bindingKind"@[0]);
    assert("simulated"@[0] != "bindingKind"@[0]);
    assert("response"@[0] != "arguments"@[0]);
    assert("delayMs"@[0] != "arguments"@[0]);
    assert("simulated"@[0] != "arguments"@[0]);
    assert("delayMs"@[0] != "response"@[0]);
    assert("simulated"@[0] != "response"@[0]);
    lemma_entries_lookup_at(s, "toolName"@, 6);
    lemma_entries_lookup_at(s, "bindingKind"@, 1);
    lemma_entries_lookup_at(s, "arguments"@, 0);
    lemma_entries_lookup_at(s, "response"@, 4);
    lemma_entries_lookup_at(s, "simulated"@, 5);
}

/// The payload holds the result under the verbatim-result key, and nothing else.
pub proof fn envelope_holds_the_result_alone(result: JsonView)
    ensures
        verbatim_envelope_of(result).field(VERBATIM_RESULT_KEY@) == Some(result),
        verbatim_envelope_of(result)->Object_0.len() == 1,
{
    lemma_entries_lookup_at(verbatim_envelope_of(result)->Object_0, VERBATIM_RESULT_KEY@, 0);
}

/// A text block is a value serde_json reads back unchanged.
proof fn text_block_reads_back(text: Seq<char>, depth: nat)
    requires
        depth > 0,
    ensures
        json_plain(text_block(text), depth),
{
    reveal_strlit("text");
    reveal_strlit("type");
    assert(is_ascii_chars("text"@));
    assert(is_ascii_chars("type"@));
    lemma_ascii_less_at("text"@, "type"@, 1);
    let entries = text_block(text)->Object_0;
    assert(entries.len() == 2);
    assert(entries[0].0 == "text"@);
    assert(entries[1].0 == "type"@);
    assert(crate::codec::bytes_less(
        vstd::utf8::encode_utf8(entries[0].0),
        vstd::utf8::encode_utf8(entries[1].0),
    ));
    assert forall|i: int, j: int| 0 <= i < j < entries.len() implies crate::codec::bytes_less(
        vstd::utf8::encode_utf8(#[trigger] entries[i].0),
        vstd::utf8::encode_utf8(#[trigger] entries[j].0),
    ) by {
        assert(i == 0 && j == 1);
    }
    assert(json_plain(entries[0].1, (depth - 1) as nat));
    assert(json_plain(entries[1].1, (depth - 1) as nat));
    assert forall|i: int| 0 <= i < entries.len() implies json_plain(#[trigger] entries[i].1, (depth - 1) as nat) by {
        assert(i == 0 || i == 1);
    }
}

/// Where the configured response and the call's arguments are values that
/// serde_json reads back unchanged, nested at most 124 deep, so is the whole
/// envelope that answers the call: the payload bytes then read back as the
/// envelope (see `respond`).
pub proof fn plain_calls_get_payloads_that_read_back(
    p: MockProfileView,
    headers: Seq<(Seq<char>, Seq<char>)>,
    payload: Seq<u8>,
    backend_name: Seq<char>,
)
    requires
        json_plain(p.response, 124),
        json_plain(crate::result::call_arguments_of(payload, crate::codec::json_read(payload)), 124),
    ensures
        json_reads_back(answer_of(p, headers, payload, backend_name)),
{
    let arguments = crate::result::call_arguments_of(payload, crate::codec::json_read(payload));
    let tool = crate::result::tool_name_of(headers, backend_name);
    let text = crate::result::response_text_of(p.response);
    let result = mock_result(p, tool, backend_name, arguments, text);
    reveal_strlit("content");
    reveal_strlit("isError");
    reveal_strlit("structuredContent");
    reveal_strlit("arguments");
    reveal_strlit("bindingKind");
    reveal_strlit("delayMs");
    reveal_strlit("error");
    reveal_strlit("profile");
    reveal_strlit("response");
    reveal_strlit("simulated");
    reveal_strlit("toolName");
    assert(is_ascii_chars("content"@));
    assert(is_ascii_chars("isError"@));
    assert(is_ascii_chars("structuredContent"@));
    assert(is_ascii_chars("arguments"@));
    assert(is_ascii_chars("bindingKind"@));
    assert(is_ascii_chars("delayMs"@));
    assert(is_ascii_chars("error"@));
    assert(is_ascii_chars("profile"@));
    assert(is_ascii_chars("response"@));
    assert(is_ascii_chars("simulated"@));
    assert(is_ascii_chars("toolName"@));
    if p.error {
        let top = result->Object_0;
        let sc = top[2].1->Object_0;
        lemma_keys_ordered(top);
        lemma_keys_ordered(sc);
        text_block_reads_back(error_text(p), 124);
        assert(json_plain(top[0].1, 125));
        assert forall|i: int| 0 <= i < sc.len() implies json_plain(#[trigger] sc[i].1, 124) by {
            assert(0 <= i < 7);
        }
        assert(json_plain(top[2].1, 125));
        assert forall|i: int| 0 <= i < top.len() implies json_plain(#[trigger] top[i].1, 125) by {
            assert(0 <= i < 3);
        }
        assert(json_plain(result, 126));
    } else if p.passthrough {
        lemma_plain_deeper(p.response, 124, 126);
    } else {
        let top = result->Object_0;
        let sc = top[2].1->Object_0;
        lemma_keys_ordered(top);
        lemma_keys_ordered(sc);
        text_block_reads_back(text, 124);
        assert(json_plain(top[0].1, 125));
        assert forall|i: int| 0 <= i < sc.len() implies json_plain(#[trigger] sc[i].1, 124) by {
            assert(0 <= i < 7);
        }
        assert(json_plain(top[2].1, 125));
        assert forall|i: int| 0 <= i < top.len() implies json_plain(#[trigger] top[i].1, 125) by {
            assert(0 <= i < 3);
        }
        assert(json_plain(result, 126));
    }
    assert(json_plain(verbatim_envelope_of(result), 127));
}

/// Registration keeps an accepted spec as it was written: the profile it
/// makes has the spec's response, delay, error flag, message and passthrough
/// flag, every one unchanged.
pub proof fn accepted_spec_is_kept_as_written(spec: MockProfileView)
    ensures
        registration(Ok(spec)) is Ok ==> registration(Ok(spec)) == Ok::<
            MockProfileView,
            BackendErrorView,
        >(spec),
{
}

/// After a spec is registered and accepted, looking the binding up gives the
/// spec back, its response unchanged.
pub proof fn registered_spec_is_read_back(
    store: Map<Seq<char>, MockProfileView>,
    name: Seq<char>,
    spec: MockProfileView,
)
    requires
        registration(Ok(spec)) is Ok,
    ensures
        lookup(after_register(store, name, Ok(spec)), name) == Ok::<
            MockProfileView,
            BackendErrorView,
        >(spec),
        lookup(after_register(store, name, Ok(spec)), name)->Ok_0.response == spec.response,
{
}

/// A spec without passthrough is always accepted; one with passthrough is
/// accepted exactly where its response is an object whose `content` member
/// is a JSON array.
pub proof fn passthrough_accepted_only_with_content_array(spec: MockProfileView)
    ensures
        !spec.passthrough ==> registration(Ok(spec)) is Ok,
        spec.passthrough ==> (registration(Ok(spec)) is Ok <==> (spec.response is Object
            && spec.response.field("content"@) matches Some(JsonView::Array(_)))),
{
}

/// Whatever `parsed` says, a registration that is accepted with passthrough
/// set keeps a response whose `content` member is a JSON array.
pub proof fn accepted_passthrough_keeps_content_array(
    parsed: Result<MockProfileView, Seq<char>>,
)
    ensures
        registration(parsed) is Ok && registration(parsed)->Ok_0.passthrough ==> registration(
            parsed,
        )->Ok_0.response.field("content"@) matches Some(JsonView::Array(_)),
{
}

/// The default-mode text is serde_json's pretty text of the response,
/// whatever the response holds, fractional numbers included.
pub proof fn default_text_is_serde_pretty_text(response: JsonView)
    requires
        pretty_text(response) is Some,
    ensures
        response_text_of(response) == pretty_text(response)->Some_0,
{
}

/// Two texts are the same but for ASCII case exactly where they have the
/// same length and, at each position, the same character code, or an
/// upper-case letter (codes 65 to 90, 'A' to 'Z') against its lower-case
/// letter, 32 codes higher.
pub proof fn ascii_case_is_folded(a: Seq<char>, b: Seq<char>)
    ensures
        eq_ignore_ascii_case(a, b) <==> (a.len() == b.len() && forall|i: int|
            0 <= i < a.len() ==> {
                ||| (a[i] as u32) == (b[i] as u32)
                ||| (65 <= (a[i] as u32) <= 90 && (a[i] as u32) + 32 == (b[i] as u32))
                ||| (65 <= (b[i] as u32) <= 90 && (b[i] as u32) + 32 == (a[i] as u32))
            }),
{
    if eq_ignore_ascii_case(a, b) {
        assert forall|i: int| 0 <= i < a.len() implies {
            ||| (a[i] as u32) == (b[i] as u32)
            ||| (65 <= (a[i] as u32) <= 90 && (a[i] as u32) + 32 == (b[i] as u32))
            ||| (65 <= (b[i] as u32) <= 90 && (b[i] as u32) + 32 == (a[i] as u32))
        } by {
            assert(ascii_lower(a[i] as u32) == ascii_lower(b[i] as u32));
        }
    }
    if a.len() == b.len() && forall|i: int|
        0 <= i < a.len() ==> {
            ||| (a[i] as u32) == (b[i] as u32)
            ||| (65 <= (a[i] as u32) <= 90 && (a[i] as u32) + 32 == (b[i] as u32))
            ||| (65 <= (b[i] as u32) <= 90 && (b[i] as u32) + 32 == (a[i] as u32))
        } {
        assert forall|i: int| 0 <= i < a.len() implies ascii_lower(a[i] as u32) == ascii_lower(
            b[i] as u32,
        ) by {

        }
    }
}

/// The first header is the tool-name header wherever its name is
/// `mcpg-tool-name` with any of its letters upper-cased, and then the call
/// names the tool that the header's value gives.
pub proof fn upper_cased_tool_name_header_is_recognised(
    headers: Seq<(Seq<char>, Seq<char>)>,
    backend_name: Seq<char>,
)
    requires
        headers.len() > 0,
        headers[0].0.len() == TOOL_NAME_HEADER@.len(),
        forall|i: int|
            0 <= i < headers[0].0.len() ==> {
                ||| (headers[0].0[i] as u32) == (TOOL_NAME_HEADER@[i] as u32)
                ||| (97 <= (TOOL_NAME_HEADER@[i] as u32) <= 122 && (headers[0].0[i] as u32) + 32
                    == (TOOL_NAME_HEADER@[i] as u32))
            },
    ensures
        tool_name_of(headers, backend_name) == headers[0].1,
{
    let name = headers[0].0;
    let h = TOOL_NAME_HEADER@;
    assert forall|i: int| 0 <= i < name.len() implies ascii_lower(name[i] as u32) == ascii_lower(
        h[i] as u32,
    ) by {
        assert((name[i] as u32) == (h[i] as u32) || (97 <= (h[i] as u32) <= 122 && (name[i] as u32)
            + 32 == (h[i] as u32)));
    }
    assert(eq_ignore_ascii_case(name, h));
}

/// Where no header is the tool-name header, the call names the binding itself.
pub proof fn tool_name_falls_back_to_binding_name(
    headers: Seq<(Seq<char>, Seq<char>)>,
    backend_name: Seq<char>,
)
    requires
        forall|i: int| 0 <= i < headers.len() ==> !eq_ignore_ascii_case(#[trigger] headers[i].0, TOOL_NAME_HEADER@),
    ensures
        tool_name_of(headers, backend_name) == backend_name,
    decreases headers.len(),
{
    if headers.len() > 0 {
        assert forall|i: int| 0 <= i < headers.drop_first().len() implies !eq_ignore_ascii_case(
            #[trigger] headers.drop_first()[i].0,
            TOOL_NAME_HEADER@,
        ) by {
            assert(headers.drop_first()[i] == headers[i + 1]);
        }
        tool_name_falls_back_to_binding_name(headers.drop_first(), backend_name);
    }
}

/// A call with an empty payload, or one that holds no JSON, has the empty
/// object `{}` for arguments; one whose payload holds JSON has that JSON.
pub proof fn call_arguments_come_from_the_payload(payload: Seq<u8>, parsed: Option<JsonView>)
    ensures
        payload.len() == 0 ==> call_arguments_of(payload, parsed) == JsonView::Object(Seq::empty()),
        parsed is None ==> call_arguments_of(payload, parsed) == JsonView::Object(Seq::empty()),
        payload.len() > 0 && parsed is Some ==> call_arguments_of(payload, parsed) == parsed->Some_0,
{
}

/// A text block holds its text under `text` and the type `text` under `type`.
pub proof fn text_block_holds_its_text(text: Seq<char>)
    ensures
        text_block(text).field("text"@) == Some(JsonView::Str(text)),
        text_block(text).field("type"@) == Some(JsonView::Str("text"@)),
{
    reveal_strlit("text");
    reveal_strlit("type");
    let e = text_block(text)->Object_0;
    assert("type"@[1] != "text"@[1]);
    lemma_entries_lookup_at(e, "text"@, 0);
    lemma_entries_lookup_at(e, "type"@, 1);
}

/// The distinct first letters of the structured-content keys.
proof fn structured_keys_differ()
    ensures
        "arguments"@ != "bindingKind"@,
        "arguments"@ != "delayMs"@,
        "arguments"@ != "error"@,
        "arguments"@ != "profile"@,
        "arguments"@ != "response"@,
        "arguments"@ != "simulated"@,
        "arguments"@ != "toolName"@,
        "bindingKind"@ != "delayMs"@,
        "bindingKind"@ != "error"@,
        "bindingKind"@ != "profile"@,
        "bindingKind"@ != "response"@,
        "bindingKind"@ != "simulated"@,
        "bindingKind"@ != "toolName"@,
        "delayMs"@ != "profile"@,
        "delayMs"@ != "response"@,
        "delayMs"@ != "simulated"@,
        "delayMs"@ != "toolName"@,
        "error"@ != "profile"@,
        "error"@ != "response"@,
        "error"@ != "delayMs"@,
        "error"@ != "simulated"@,
        "error"@ != "toolName"@,
        "profile"@ != "response"@,
        "profile"@ != "simulated"@,
        "profile"@ != "toolName"@,
        "response"@ != "simulated"@,
        "response"@ != "toolName"@,
        "simulated"@ != "toolName"@,
        "content"@ != "isError"@,
        "content"@ != "structuredContent"@,
        "isError"@ != "structuredContent"@,
{
    reveal_strlit("arguments");
    reveal_strlit("bindingKind");
    reveal_strlit("delayMs");
    reveal_strlit("error");
    reveal_strlit("profile");
    reveal_strlit("response");
    reveal_strlit("simulated");
    reveal_strlit("toolName");
    reveal_strlit("content");
    reveal_strlit("isError");
    reveal_strlit("structuredContent");
    assert("arguments"@[0] != "bindingKind"@[0]);
    assert("arguments"@[0] != "delayMs"@[0]);
    assert("arguments"@[0] != "error"@[0]);
    assert("arguments"@[0] != "profile"@[0]);
    assert("arguments"@[0] != "response"@[0]);
    assert("arguments"@[0] != "simulated"@[0]);
    assert("arguments"@[0] != "toolName"@[0]);
    assert("bindingKind"@[0] != "delayMs"@[0]);
    assert("bindingKind"@[0] != "error"@[0]);
    assert("bindingKind"@[0] != "profile"@[0]);
    assert("bindingKind"@[0] != "response"@[0]);
    assert("bindingKind"@[0] != "simulated"@[0]);
    assert("bindingKind"@[0] != "toolName"@[0]);
    assert("delayMs"@[0] != "profile"@[0]);
    assert("delayMs"@[0] != "response"@[0]);
    assert("delayMs"@[0] != "simulated"@[0]);
    assert("delayMs"@[0] != "toolName"@[0]);
    assert("error"@[0] != "profile"@[0]);
    assert("error"@[0] != "response"@[0]);
    assert("error"@[0] != "delayMs"@[0]);
    assert("error"@[0] != "simulated"@[0]);
    assert("error"@[0] != "toolName"@[0]);
    assert("profile"@[0] != "response"@[0]);
    assert("profile"@[0] != "simulated"@[0]);
    assert("profile"@[0] != "toolName"@[0]);
    assert("response"@[0] != "simulated"@[0]);
    assert("response"@[0] != "toolName"@[0]);
    assert("simulated"@[0] != "toolName"@[0]);
    assert("content"@[0] != "isError"@[0]);
    assert("content"@[0] != "structuredContent"@[0]);
    assert("isError"@[0] != "structuredContent"@[0]);
}

/// In error mode the structured content reports the call: the tool that was
/// called, the binding it was called on, the call's arguments, the binding
/// kind `mock`, the error text and `simulated: true`; the one content block
/// is a text block holding the error text, which is the profile's message or
/// else `mock error`.
pub proof fn error_mode_reports_the_call(
    p: MockProfileView,
    tool_name: Seq<char>,
    backend_name: Seq<char>,
    arguments: JsonView,
    response_text: Seq<char>,
)
    requires
        p.error,
    ensures
        ({
            let r = mock_result(p, tool_name, backend_name, arguments, response_text);
            let message = match p.error_message {
                Some(m) => m,
                None => "mock error"@,
            };
            let structured = r.field("structuredContent"@)->Some_0;
            let content = r.field("content"@)->Some_0;
            &&& r.field("isError"@) == Some(JsonView::Bool(true))
            &&& r.field("structuredContent"@) is Some
            &&& structured.field("toolName"@) == Some(JsonView::Str(tool_name))
            &&& structured.field("profile"@) == Some(JsonView::Str(backend_name))
            &&& structured.field("arguments"@) == Some(arguments)
            &&& structured.field("bindingKind"@) == Some(JsonView::Str("mock"@))
            &&& structured.field("error"@) == Some(JsonView::Str(message))
            &&& structured.field("simulated"@) == Some(JsonView::Bool(true))
            &&& structured.field("response"@) is None
            &&& structured.field("delayMs"@) is None
            &&& content is Array
            &&& content->Array_0.len() == 1
            &&& content->Array_0[0].field("type"@) == Some(JsonView::Str("text"@))
            &&& content->Array_0[0].field("text"@) == Some(JsonView::Str(message))
        }),
{
    structured_keys_differ();
    text_block_holds_its_text(error_text(p));
    let r = mock_result(p, tool_name, backend_name, arguments, response_text);
    let top = r->Object_0;
    lemma_entries_lookup_at(top, "content"@, 0);
    lemma_entries_lookup_at(top, "isError"@, 1);
    lemma_entries_lookup_at(top, "structuredContent"@, 2);
    let sc = top[2].1->Object_0;
    lemma_entries_lookup_at(sc, "arguments"@, 0);
    lemma_entries_lookup_at(sc, "bindingKind"@, 1);
    lemma_entries_lookup_at(sc, "error"@, 2);
    lemma_entries_lookup_at(sc, "profile"@, 3);
    lemma_entries_lookup_at(sc, "simulated"@, 4);
    lemma_entries_lookup_at(sc, "toolName"@, 5);
    lemma_entries_lookup_absent(sc, "response"@);
    lemma_entries_lookup_absent(sc, "delayMs"@);
}

/// In the default mode the structured content reports the call: the tool
/// that was called, the binding it was called on, the call's arguments, the
/// binding kind `mock`, the configured response and delay and
/// `simulated: true`; the one content block is a text block holding the
/// response's text, and the result is no error.
pub proof fn default_mode_reports_the_call(
    p: MockProfileView,
    tool_name: Seq<char>,
    backend_name: Seq<char>,
    arguments: JsonView,
    response_text: Seq<char>,
)
    requires
        !p.error,
        !p.passthrough,
    ensures
        ({
            let r = mock_result(p, tool_name, backend_name, arguments, response_text);
            let structured = r.field("structuredContent"@)->Some_0;
            let content = r.field("content"@)->Some_0;
            &&& r.field("isError"@) == Some(JsonView::Bool(false))
            &&& r.field("structuredContent"@) is Some
            &&& structured.field("toolName"@) == Some(JsonView::Str(tool_name))
            &&& structured.field("profile"@) == Some(JsonView::Str(backend_name))
            &&& structured.field("arguments"@) == Some(arguments)
            &&& structured.field("bindingKind"@) == Some(JsonView::Str("mock"@))
            &&& structured.field("response"@) == Some(p.response)
            &&& structured.field("delayMs"@) == Some(JsonView::UInt(p.delay_ms))
            &&& structured.field("simulated"@) == Some(JsonView::Bool(true))
            &&& structured.field("error"@) is None
            &&& content is Array
            &&& content->Array_0.len() == 1
            &&& content->Array_0[0].field("type"@) == Some(JsonView::Str("text"@))
            &&& content->Array_0[0].field("text"@) == Some(JsonView::Str(response_text))
        }),
{
    structured_keys_differ();
    text_block_holds_its_text(response_text);
    let r = mock_result(p, tool_name, backend_name, arguments, response_text);
    let top = r->Object_0;
    lemma_entries_lookup_at(top, "content"@, 0);
    lemma_entries_lookup_at(top, "isError"@, 1);
    lemma_entries_lookup_at(top, "structuredContent"@, 2);
    let sc = top[2].1->Object_0;
    lemma_entries_lookup_at(sc, "arguments"@, 0);
    lemma_entries_lookup_at(sc, "bindingKind"@, 1);
    lemma_entries_lookup_at(sc, "delayMs"@, 2);
    lemma_entries_lookup_at(sc, "profile"@, 3);
    lemma_entries_lookup_at(sc, "response"@, 4);
    lemma_entries_lookup_at(sc, "simulated"@, 5);
    lemma_entries_lookup_at(sc, "toolName"@, 6);
    lemma_entries_lookup_absent(sc, "error"@);
}

/// A spec that could not be read is refused with an invalid-spec error whose
/// message is `mock binding spec: ` followed by the reader's message.
pub proof fn unreadable_spec_is_refused_with_its_reason(reason: Seq<char>)
    ensures
        registration(Err(reason)) == Err::<MockProfileView, BackendErrorView>(
            BackendErrorView::InvalidSpec("mock binding spec: "@ + reason),
        ),
{
}

/// A binding that was never registered is not found, and the error names it.
pub proof fn unknown_binding_is_not_found(store: Map<Seq<char>, MockProfileView>, name: Seq<char>)
    requires
        !store.contains_key(name),
    ensures
        lookup(store, name) == Err::<MockProfileView, BackendErrorView>(
            BackendErrorView::ProfileNotFound(name),
        ),
{
}

/// Every call's audit entries are one: `mock.transport` is `plugin`.
pub proof fn audit_metadata_marks_the_plugin_transport()
    ensures
        audit_metadata_of().field("mock.transport"@) == Some(JsonView::Str("plugin"@)),
        audit_metadata_of()->Object_0.len() == 1,
{
    lemma_entries_lookup_at(audit_metadata_of()->Object_0, "mock.transport"@, 0);
}

/// The plugin registers as the first-party backend `dev.mcpg.backend.mock`,
/// named `Mock Binding`.
pub proof fn manifest_names_the_mock_backend()
    ensures
        mock_manifest().id == "dev.mcpg.backend.mock"@,
        mock_manifest().name == "Mock Binding"@,
        mock_manifest().class == PluginClass::Backend,
{
}

} // verus!
