use mcpg_plugin_backend_mock::json::Json;
use mcpg_plugin_backend_mock::plugin::{MockBackendPlugin, PluginClass};
use mcpg_plugin_backend_mock::profile::{is_call_tool_result_shape, BackendError, MockBackendSpec};
use mcpg_plugin_backend_mock::result::{
    build_mock_result, call_arguments, read_call_arguments, respond, response_text, text_content,
    tool_name, verbatim_envelope, verbatim_result, BackendRequest, VERBATIM_RESULT_KEY,
};
use serde_json::Value;
use mcpg_plugin_backend_mock::{BINDING_DESCRIPTOR_YAML, PLUGIN_ID};

fn s(text: &str) -> String {
    text.to_owned()
}

fn obj(entries: Vec<(&str, Json)>) -> Json {
    Json::Object(entries.into_iter().map(|(k, v)| (k.to_owned(), v)).collect())
}

fn spec(response: Json) -> MockBackendSpec {
    MockBackendSpec {
        response,
        delay_ms: 0,
        error: false,
        error_message: None,
        passthrough: false,
    }
}

fn req(args_text: &str) -> BackendRequest {
    BackendRequest {
        payload: args_text.as_bytes().to_vec(),
        headers: vec![(s("mcpg-tool-name"), s("t"))],
        request_id: s("rq-1"),
        session_id: None,
    }
}

/// Runs a call on binding `name` and reads the result out of the payload bytes.
fn call(plugin: &MockBackendPlugin, name: &str, request: &BackendRequest) -> Result<Value, BackendError> {
    let profile = plugin.profile(name)?;
    let payload = respond(&profile, request, name);
    let env: Value = serde_json::from_slice(&payload).unwrap();
    Ok(env[VERBATIM_RESULT_KEY].clone())
}

fn first_content(result: &Json) -> Json {
    match result.get("content") {
        Some(Json::Array(items)) => items[0].clone(),
        other => panic!("no content array: {:?}", other),
    }
}

#[test]
fn plugin_id_matches_the_descriptor() {
    let declared = BINDING_DESCRIPTOR_YAML
        .lines()
        .find_map(|l| l.strip_prefix("id:"))
        .map(str::trim)
        .expect("descriptor declares an id");
    assert_eq!(declared, PLUGIN_ID);
}

#[test]
fn binding_plugin_kind_is_mock() {
    assert_eq!(MockBackendPlugin::new().kind(), "mock");
}

#[test]
fn default_mode_wraps_response_as_text() {
    let mut plugin = MockBackendPlugin::new();
    plugin
        .register_profile("m", Ok(spec(obj(vec![("ok", Json::Bool(true))]))))
        .expect("register");
    let r = call(&plugin, "m", &req("{\"a\":1}")).unwrap();
    assert_eq!(r["isError"], false);
    assert_eq!(r["structuredContent"]["response"]["ok"], true);
    assert_eq!(r["content"][0]["type"], "text");
}

#[test]
fn error_mode_sets_is_error() {
    let mut plugin = MockBackendPlugin::new();
    let mut sp = spec(Json::Null);
    sp.error = true;
    sp.error_message = Some(s("boom"));
    plugin.register_profile("m", Ok(sp)).expect("register");
    let r = call(&plugin, "m", &req("{}")).unwrap();
    assert_eq!(r["isError"], true);
    assert_eq!(r["content"][0]["text"], "boom");
}

#[test]
fn passthrough_surfaces_literal_result() {
    let mut plugin = MockBackendPlugin::new();
    let literal = obj(vec![
        (
            "content",
            Json::Array(vec![obj(vec![
                ("type", Json::Str(s("image"))),
                ("data", Json::Str(s("abc"))),
                ("mimeType", Json::Str(s("image/png"))),
            ])]),
        ),
        ("isError", Json::Bool(false)),
    ]);
    let mut sp = spec(literal);
    sp.passthrough = true;
    plugin.register_profile("m", Ok(sp)).expect("register");
    let r = call(&plugin, "m", &req("{}")).unwrap();
    assert_eq!(r["content"][0]["type"], "image");
    assert_eq!(r["content"][0]["mimeType"], "image/png");
}

#[test]
fn passthrough_rejects_non_call_tool_result() {
    let mut plugin = MockBackendPlugin::new();
    let mut sp = spec(obj(vec![("not", Json::Str(s("a result")))]));
    sp.passthrough = true;
    let err = plugin
        .register_profile("m", Ok(sp))
        .expect_err("non-CallToolResult passthrough rejected");
    assert!(matches!(err, BackendError::InvalidSpec { .. }));
}

#[test]
fn unreadable_spec_is_invalid_with_the_reader_message() {
    let mut plugin = MockBackendPlugin::new();
    let err = plugin
        .register_profile("m", Err(s("invalid type: string \"x\", expected u64")))
        .expect_err("unreadable spec rejected");
    match err {
        BackendError::InvalidSpec { message } => assert_eq!(
            message,
            "mock binding spec: invalid type: string \"x\", expected u64"
        ),
        other => panic!("unexpected error {:?}", other),
    }
    assert!(matches!(
        plugin.profile("m"),
        Err(BackendError::ProfileNotFound { .. })
    ));
}

#[test]
fn passthrough_rejection_names_the_content_array() {
    let mut plugin = MockBackendPlugin::new();
    let mut sp = spec(obj(vec![("content", Json::Str(s("not an array")))]));
    sp.passthrough = true;
    match plugin.register_profile("m", Ok(sp)) {
        Err(BackendError::InvalidSpec { message }) => assert_eq!(
            message,
            "passthrough: true requires `response` to be a CallToolResult object with a `content` array"
        ),
        other => panic!("unexpected answer {:?}", other),
    }
}

#[test]
fn unknown_binding_is_profile_not_found() {
    let plugin = MockBackendPlugin::new();
    match call(&plugin, "missing", &req("{}")) {
        Err(BackendError::ProfileNotFound { backend_name }) => assert_eq!(backend_name, "missing"),
        other => panic!("unexpected answer {:?}", other),
    }
}

#[test]
fn registered_profile_is_read_back() {
    let mut plugin = MockBackendPlugin::new();
    let mut sp = spec(Json::UInt(7));
    sp.delay_ms = 25;
    sp.error_message = Some(s("kept"));
    plugin.register_profile("a", Ok(sp)).unwrap();
    let p = plugin.profile("a").unwrap();
    assert_eq!(p.response, Json::UInt(7));
    assert_eq!(p.delay_ms, 25);
    assert_eq!(p.error_message, Some(s("kept")));
    assert!(!p.error);
    assert!(!p.passthrough);
}

#[test]
fn reregistering_replaces_the_profile_and_keeps_others() {
    let mut plugin = MockBackendPlugin::new();
    plugin.register_profile("a", Ok(spec(Json::UInt(1)))).unwrap();
    plugin.register_profile("b", Ok(spec(Json::UInt(2)))).unwrap();
    plugin.register_profile("a", Ok(spec(Json::UInt(3)))).unwrap();
    assert_eq!(plugin.profile("a").unwrap().response, Json::UInt(3));
    assert_eq!(plugin.profile("b").unwrap().response, Json::UInt(2));
}

#[test]
fn refused_registration_keeps_the_previous_profile() {
    let mut plugin = MockBackendPlugin::new();
    plugin.register_profile("a", Ok(spec(Json::UInt(1)))).unwrap();
    let mut bad = spec(Json::Null);
    bad.passthrough = true;
    assert!(plugin.register_profile("a", Ok(bad)).is_err());
    assert!(plugin.register_profile("a", Err(s("bad"))).is_err());
    assert_eq!(plugin.profile("a").unwrap().response, Json::UInt(1));
}

#[test]
fn error_without_message_says_mock_error() {
    let mut plugin = MockBackendPlugin::new();
    let mut sp = spec(Json::Null);
    sp.error = true;
    plugin.register_profile("m", Ok(sp)).unwrap();
    let r = call(&plugin, "m", &req("")).unwrap();
    assert_eq!(r["content"][0]["text"], "mock error");
    let structured = &r["structuredContent"];
    assert_eq!(structured["error"], "mock error");
    assert_eq!(structured["simulated"], true);
    assert_eq!(structured["arguments"], serde_json::from_str::<Value>("{}").unwrap());
    assert!(structured.get("response").is_none());
    assert!(structured.get("delayMs").is_none());
}

#[test]
fn error_takes_precedence_over_passthrough() {
    let mut plugin = MockBackendPlugin::new();
    let literal = obj(vec![("content", Json::Array(vec![])), ("isError", Json::Bool(false))]);
    let mut sp = spec(literal);
    sp.error = true;
    sp.passthrough = true;
    plugin.register_profile("m", Ok(sp)).unwrap();
    let r = call(&plugin, "m", &req("{}")).unwrap();
    assert_eq!(r["isError"], true);
    assert_eq!(r["content"][0]["text"], "mock error");
}

#[test]
fn default_mode_structured_content_carries_the_call() {
    let mut plugin = MockBackendPlugin::new();
    let mut sp = spec(Json::Str(s("hi")));
    sp.delay_ms = 5;
    plugin.register_profile("prof", Ok(sp)).unwrap();
    let r = call(&plugin, "prof", &req("{\"q\":-3,\"r\":1.5}")).unwrap();
    assert_eq!(r["content"][0]["text"], "\"hi\"");
    let structured = &r["structuredContent"];
    assert_eq!(structured["toolName"], "t");
    assert_eq!(structured["profile"], "prof");
    assert_eq!(structured["bindingKind"], "mock");
    assert_eq!(structured["arguments"]["q"], -3);
    assert_eq!(structured["arguments"]["r"], 1.5);
    assert_eq!(structured["response"], "hi");
    assert_eq!(structured["delayMs"], 5);
    assert_eq!(structured["simulated"], true);
    assert!(structured.get("error").is_none());
}

#[test]
fn default_mode_text_is_the_pretty_printed_response() {
    let mut plugin = MockBackendPlugin::new();
    let response = obj(vec![("ok", Json::Bool(true)), ("n", Json::Array(vec![Json::UInt(1)]))]);
    plugin.register_profile("m", Ok(spec(response))).unwrap();
    let r = call(&plugin, "m", &req("{}")).unwrap();
    let text = r["content"][0]["text"].as_str().unwrap().to_owned();
    assert_eq!(text, "{\n  \"n\": [\n    1\n  ],\n  \"ok\": true\n}");
    let read_back: Value = serde_json::from_str(&text).unwrap();
    assert_eq!(read_back, r["structuredContent"]["response"]);
}

#[test]
fn response_text_pretty_prints() {
    assert_eq!(response_text(&obj(vec![("ok", Json::Bool(true))])), "{\n  \"ok\": true\n}");
    assert_eq!(response_text(&Json::Null), "null");
    assert_eq!(response_text(&Json::Decimal(s("1.5"))), "1.5");
}

#[test]
fn floats_reach_the_payload_unchanged() {
    let mut plugin = MockBackendPlugin::new();
    plugin
        .register_profile("m", Ok(spec(Json::Decimal(s("0.30000000000000004")))))
        .unwrap();
    let args = "[0.1, 2.2250738585072011e-308, 1.7976931348623157e308, -9.5e-7]";
    let r = call(&plugin, "m", &req(args)).unwrap();
    let expected: Value = serde_json::from_str(args).unwrap();
    assert_eq!(r["structuredContent"]["arguments"], expected);
    assert_eq!(r["structuredContent"]["arguments"][1].as_f64(), Some(2.2250738585072011e-308f64));
    assert_eq!(r["structuredContent"]["response"].as_f64(), Some(0.30000000000000004f64));
}

#[test]
fn payload_bytes_read_back_as_the_envelope() {
    let mut plugin = MockBackendPlugin::new();
    plugin.register_profile("m", Ok(spec(obj(vec![("k", Json::Int(-1))])))).unwrap();
    let profile = plugin.profile("m").unwrap();
    let request = req("{\"a\":1}");
    let payload = respond(&profile, &request, "m");
    let text = response_text(&profile.response);
    let envelope = verbatim_result(&profile, &request, "m", Some(obj(vec![("a", Json::UInt(1))])), text);
    assert_eq!(read_call_arguments(&payload), envelope);
}

#[test]
fn response_text_reads_back() {
    let response = obj(vec![
        ("a", Json::Int(-4)),
        ("b", Json::Str(s("x\n\"y\""))),
        ("c", Json::Array(vec![Json::Null, Json::Bool(false), Json::UInt(18446744073709551615)])),
    ]);
    let text = response_text(&response);
    assert_eq!(read_call_arguments(&text.into_bytes()), response);
    // a non-negative number held as Int reads back as UInt
    let text = response_text(&Json::Int(5));
    assert_eq!(read_call_arguments(&text.into_bytes()), Json::UInt(5));
}

#[test]
fn unreadable_payload_is_answered_with_empty_arguments() {
    let mut plugin = MockBackendPlugin::new();
    plugin.register_profile("m", Ok(spec(Json::Null))).unwrap();
    let r = call(&plugin, "m", &req("not json")).unwrap();
    assert_eq!(r["structuredContent"]["arguments"], serde_json::from_str::<Value>("{}").unwrap());
    let r = call(&plugin, "m", &req("[1,2]")).unwrap();
    assert_eq!(r["structuredContent"]["arguments"][1], 2);
}

#[test]
fn read_call_arguments_reads_the_payload() {
    assert_eq!(read_call_arguments(&b"{\"a\":1}".to_vec()), obj(vec![("a", Json::UInt(1))]));
    assert_eq!(read_call_arguments(&b"-2".to_vec()), Json::Int(-2));
    assert_eq!(read_call_arguments(&b"0.25".to_vec()), Json::Decimal(s("0.25")));
    assert_eq!(read_call_arguments(&vec![]), Json::Object(vec![]));
    assert_eq!(read_call_arguments(&b"{".to_vec()), Json::Object(vec![]));
}

#[test]
fn payload_is_the_envelope_alone() {
    let mut plugin = MockBackendPlugin::new();
    plugin.register_profile("m", Ok(spec(Json::UInt(3)))).unwrap();
    let profile = plugin.profile("m").unwrap();
    let payload = respond(&profile, &req("{}"), "m");
    let env: Value = serde_json::from_slice(&payload).unwrap();
    let keys: Vec<&String> = env.as_object().unwrap().keys().collect();
    assert_eq!(keys, vec!["__mcpg_verbatim_result"]);
}

#[test]
fn verbatim_result_from_given_reads() {
    let mut plugin = MockBackendPlugin::new();
    plugin.register_profile("m", Ok(spec(Json::UInt(7)))).unwrap();
    let profile = plugin.profile("m").unwrap();
    let env = verbatim_result(&profile, &req("{}"), "m", Some(Json::UInt(99)), s("seven"));
    let r = env.get(VERBATIM_RESULT_KEY).unwrap();
    assert_eq!(first_content(r).get("text"), Some(&Json::Str(s("seven"))));
    let structured = r.get("structuredContent").unwrap();
    assert_eq!(structured.get("arguments"), Some(&Json::UInt(99)));
    assert_eq!(structured.get("response"), Some(&Json::UInt(7)));
}

#[test]
fn tool_name_header_matches_in_any_ascii_case() {
    let headers = vec![(s("Accept"), s("x")), (s("MCPG-Tool-Name"), s("search"))];
    assert_eq!(tool_name(&headers, "binding"), "search");
}

#[test]
fn first_tool_name_header_wins() {
    let headers = vec![
        (s("mcpg-tool-name"), s("first")),
        (s("mcpg-tool-name"), s("second")),
    ];
    assert_eq!(tool_name(&headers, "binding"), "first");
}

#[test]
fn tool_name_falls_back_to_binding_name() {
    let headers = vec![(s("mcpg-tool-nam"), s("x")), (s("mcpg_tool_name"), s("y"))];
    assert_eq!(tool_name(&headers, "binding"), "binding");
    assert_eq!(tool_name(&vec![], "b2"), "b2");
}

#[test]
fn empty_payload_gives_empty_arguments() {
    assert_eq!(
        call_arguments(&vec![], Some(Json::UInt(1))),
        Json::Object(vec![])
    );
}

#[test]
fn unreadable_payload_gives_empty_arguments() {
    assert_eq!(
        call_arguments(&b"not json".to_vec(), None),
        Json::Object(vec![])
    );
    let args = obj(vec![("a", Json::UInt(1))]);
    assert_eq!(call_arguments(&b"{\"a\":1}".to_vec(), Some(args.clone())), args);
}

#[test]
fn envelope_holds_the_result_alone() {
    let e = verbatim_envelope(Json::UInt(9));
    assert_eq!(
        e,
        Json::Object(vec![(s("__mcpg_verbatim_result"), Json::UInt(9))])
    );
}

#[test]
fn text_content_is_a_text_block() {
    assert_eq!(
        text_content(s("hello")),
        obj(vec![("text", Json::Str(s("hello"))), ("type", Json::Str(s("text")))])
    );
}

#[test]
fn call_tool_result_shape_needs_a_content_array() {
    assert!(is_call_tool_result_shape(&obj(vec![("content", Json::Array(vec![]))])));
    assert!(!is_call_tool_result_shape(&obj(vec![("content", Json::Null)])));
    assert!(!is_call_tool_result_shape(&obj(vec![("other", Json::Array(vec![]))])));
    assert!(!is_call_tool_result_shape(&Json::Array(vec![])));
    // a later duplicate key overrides an earlier one
    assert!(!is_call_tool_result_shape(&obj(vec![
        ("content", Json::Array(vec![])),
        ("content", Json::Bool(true)),
    ])));
}

#[test]
fn passthrough_result_is_the_response_itself() {
    let mut sp = spec(obj(vec![("content", Json::Array(vec![Json::Null]))]));
    sp.passthrough = true;
    let mut plugin = MockBackendPlugin::new();
    plugin.register_profile("p", Ok(sp)).unwrap();
    let p = plugin.profile("p").unwrap();
    let r = build_mock_result(&p, "t", "p", &Json::Null, s("ignored"));
    assert_eq!(r, obj(vec![("content", Json::Array(vec![Json::Null]))]));
}

#[test]
fn audit_metadata_marks_the_plugin_transport() {
    let plugin = MockBackendPlugin::new();
    assert_eq!(
        plugin.audit_metadata("any"),
        obj(vec![("mock.transport", Json::Str(s("plugin")))])
    );
}

#[test]
fn manifest_names_the_plugin() {
    let plugin = MockBackendPlugin::default();
    let m = plugin.manifest();
    assert_eq!(m.id, PLUGIN_ID);
    assert_eq!(m.id, "dev.mcpg.backend.mock");
    assert_eq!(m.name, "Mock Binding");
    assert_eq!(m.class, PluginClass::Backend);
}

#[test]
fn delay_only_where_configured() {
    let mut plugin = MockBackendPlugin::new();
    let mut sp = spec(Json::Null);
    sp.delay_ms = 40;
    plugin.register_profile("slow", Ok(sp)).unwrap();
    plugin.register_profile("fast", Ok(spec(Json::Null))).unwrap();
    assert_eq!(plugin.profile("slow").unwrap().delay(), Some(40));
    assert_eq!(plugin.profile("fast").unwrap().delay(), None);
}
