use livy_resolver::json::JsonValue;
use livy_resolver::mcp::{
    data_line_payload, display_option, display_option_signed, enrich_tools_list_message_for_chatgpt,
    extracted_content, fetch_source_annotations, fetch_source_output_schema, fetch_source_scopes,
    enrich_tools_list_reply, fetch_source_tool_meta, is_tools_list_request, render_fetch_result,
    reply_lines, rewrite_reply, structured_fetch_result,
};
use livy_resolver::types::{FetchWithReceipt, Receipt};
use serde_json::Value;

fn to_lib(v: &Value) -> JsonValue {
    match v {
        Value::Null => JsonValue::Null,
        Value::Bool(b) => JsonValue::Bool(*b),
        Value::Number(n) => {
            if let Some(u) = n.as_u64() {
                JsonValue::UInt(u)
            } else if let Some(i) = n.as_i64() {
                JsonValue::Int(i)
            } else {
                JsonValue::Float(n.to_string())
            }
        }
        Value::String(s) => JsonValue::Str(s.clone()),
        Value::Array(items) => JsonValue::Array(items.iter().map(to_lib).collect()),
        Value::Object(map) => {
            JsonValue::Object(map.iter().map(|(k, v)| (k.clone(), to_lib(v))).collect())
        }
    }
}

fn from_lib(v: &JsonValue) -> Value {
    match v {
        JsonValue::Null => Value::Null,
        JsonValue::Bool(b) => Value::Bool(*b),
        JsonValue::UInt(n) => Value::from(*n),
        JsonValue::Int(n) => Value::from(*n),
        JsonValue::Float(s) => serde_json::from_str(s).unwrap(),
        JsonValue::Str(s) => Value::String(s.clone()),
        JsonValue::Array(items) => Value::Array(items.iter().map(from_lib).collect()),
        JsonValue::Object(members) => {
            let mut map = serde_json::Map::new();
            for (k, v) in members {
                map.insert(k.clone(), from_lib(v));
            }
            Value::Object(map)
        }
    }
}

fn json(text: &str) -> Value {
    serde_json::from_str(text).unwrap()
}

fn parsed_body(bytes: &[u8]) -> Option<JsonValue> {
    serde_json::from_slice::<Value>(bytes).ok().map(|v| to_lib(&v))
}

fn receipt(status: Option<i64>, elapsed: Option<u64>, bytes: Option<usize>) -> Receipt {
    Receipt {
        id: "r-1".to_string(),
        source_url: "https://example.com".to_string(),
        mode: "fast".to_string(),
        request_type: "smart".to_string(),
        proxy: None,
        status,
        error: None,
        duration_elapsed_ms: elapsed,
        content_bytes: bytes,
        total_cost: None,
        created_at_unix_ms: 0,
        demo_message: String::new(),
    }
}

#[test]
fn fetch_source_tool_advertises_oauth_metadata() {
    let meta = from_lib(&JsonValue::Object(fetch_source_tool_meta()));
    let schemes = meta
        .get("securitySchemes")
        .and_then(|value| value.as_array())
        .expect("securitySchemes should be present");

    assert_eq!(schemes.len(), 1);
    assert_eq!(schemes[0]["type"], "oauth2");
    assert_eq!(schemes[0]["scopes"][0], "tool:fetch_source");
    assert_eq!(meta.get("openai/toolInvocation/invoking"), Some(&json("\"Fetching source\"")));
    assert_eq!(meta.get("ui"), Some(&json(r#"{ "visibility": ["model", "app"] }"#)));
    assert_eq!(meta.get("openai/visibility"), Some(&json("\"public\"")));
    assert_eq!(meta.get("openai/toolInvocation/invoked"), Some(&json("\"Source fetched\"")));
    let annotations = from_lib(&fetch_source_annotations());
    assert_eq!(annotations.get("readOnlyHint").and_then(Value::as_bool), Some(true));
    assert_eq!(annotations.get("destructiveHint").and_then(Value::as_bool), Some(false));
    assert_eq!(annotations.get("openWorldHint").and_then(Value::as_bool), Some(true));
}

#[test]
fn detects_tools_list_requests() {
    assert!(is_tools_list_request(&parsed_body(
        br#"{"jsonrpc":"2.0","id":1,"method":"tools/list","params":{}}"#
    )));
    assert!(is_tools_list_request(&parsed_body(
        br#"[{"jsonrpc":"2.0","id":1,"method":"initialize"},{"jsonrpc":"2.0","id":2,"method":"tools/list"}]"#
    )));
    assert!(!is_tools_list_request(&parsed_body(
        br#"{"jsonrpc":"2.0","id":3,"method":"tools/call","params":{}}"#
    )));
}

#[test]
fn enriches_fetch_source_descriptor_for_chatgpt() {
    let mut message = to_lib(&json(
        r#"{
            "jsonrpc": "2.0",
            "id": 2,
            "result": {
                "tools": [{
                    "name": "fetch_source",
                    "_meta": {
                        "securitySchemes": [{
                            "type": "oauth2",
                            "scopes": ["tool:fetch_source"]
                        }]
                    }
                }]
            }
        }"#,
    ));

    assert!(enrich_tools_list_message_for_chatgpt(&mut message));
    let message = from_lib(&message);
    assert_eq!(message["result"]["tools"][0]["title"], "Fetch Source");
    assert_eq!(
        message["result"]["tools"][0]["outputSchema"]["required"],
        json(r#"["receipt_id", "source_url", "text"]"#)
    );
    assert_eq!(message["result"]["tools"][0]["annotations"]["destructiveHint"], false);
    assert_eq!(
        message["result"]["tools"][0]["securitySchemes"],
        message["result"]["tools"][0]["_meta"]["securitySchemes"]
    );
    assert_eq!(
        message["result"]["tools"][0]["_meta"]["openai/toolInvocation/invoking"],
        "Fetching source"
    );
    assert_eq!(message["result"]["tools"][0]["_meta"]["ui"]["visibility"], json(r#"["model", "app"]"#));
    assert_eq!(message["result"]["tools"][0]["_meta"]["openai/visibility"], "public");
    assert_eq!(
        message["result"]["tools"][0]["_meta"]["openai/toolInvocation/invoked"],
        "Source fetched"
    );
}

#[test]
fn non_json_and_other_requests_are_not_tools_list() {
    assert!(!is_tools_list_request(&parsed_body(b"not json")));
    assert!(!is_tools_list_request(&parsed_body(b"\"tools/list\"")));
    assert!(!is_tools_list_request(&parsed_body(br#"[{"method":"tools/call"}, 3]"#)));
    assert!(!is_tools_list_request(&parsed_body(br#"{"method":["tools/list"]}"#)));
}

#[test]
fn enriching_twice_changes_nothing() {
    let mut message = to_lib(&json(
        r#"{"result":{"tools":[{"name":"fetch_source"},{"name":"other","_meta":{"securitySchemes":[1]}}]}}"#,
    ));
    assert!(enrich_tools_list_message_for_chatgpt(&mut message));
    let first = from_lib(&message);
    assert!(!enrich_tools_list_message_for_chatgpt(&mut message));
    assert_eq!(from_lib(&message), first);
    assert_eq!(first["result"]["tools"][1]["securitySchemes"], json("[1]"));
    assert_eq!(first["result"]["tools"][0]["annotations"]["idempotentHint"], true);
    assert_eq!(first["result"]["tools"][0]["annotations"]["title"], "Fetch exact source URL");
    assert_eq!(first["result"]["tools"][0]["securitySchemes"], first["result"]["tools"][0]["_meta"]["securitySchemes"]);
}

#[test]
fn enrichment_keeps_existing_members() {
    let mut message = to_lib(&json(
        r#"{"result":{"tools":[{"name":"fetch_source","title":"Mine","annotations":{"readOnlyHint":false},"securitySchemes":[]}]}}"#,
    ));
    assert!(enrich_tools_list_message_for_chatgpt(&mut message));
    let message = from_lib(&message);
    let tool = &message["result"]["tools"][0];
    assert_eq!(tool["title"], "Mine");
    assert_eq!(tool["annotations"]["readOnlyHint"], false);
    assert_eq!(tool["securitySchemes"], json("[]"));
}

#[test]
fn replies_of_other_shapes_are_left_alone() {
    for text in [r#"{"result":{"tools":{}}}"#, r#"{"error":1}"#, "[1,2]", r#"{"result":[]}"#] {
        let mut message = to_lib(&json(text));
        assert!(!enrich_tools_list_message_for_chatgpt(&mut message));
        assert_eq!(from_lib(&message), json(text));
    }
}

#[test]
fn output_schema_requires_receipt_source_and_text() {
    let schema = from_lib(&fetch_source_output_schema());
    assert_eq!(schema["type"], "object");
    assert_eq!(schema["additionalProperties"], false);
    assert_eq!(schema["properties"]["status"]["type"], "integer");
    assert_eq!(schema["$schema"], "https://json-schema.org/draft/2020-12/schema");
}

#[test]
fn scopes_of_fetch_source() {
    assert_eq!(fetch_source_scopes(), vec!["tool:fetch_source", "resolver:source:fetch"]);
}

#[test]
fn event_stream_data_lines_are_rewritten() {
    let body = "event: message\ndata: {\"a\":1}\n\ndata:  {\"b\":2}";
    let lines = reply_lines(body);
    assert_eq!(lines, vec!["event: message\n", "data: {\"a\":1}\n", "\n", "data:  {\"b\":2}"]);
    assert_eq!(data_line_payload(&lines[0]), None);
    assert_eq!(data_line_payload(&lines[1]), Some("{\"a\":1}".to_string()));
    assert_eq!(data_line_payload(&lines[3]), Some("{\"b\":2}".to_string()));
    let replacements = vec![None, Some("{\"a\":2}".to_string()), None, Some("{}".to_string())];
    let (out, changed) = rewrite_reply(body, &replacements);
    assert!(changed);
    assert_eq!(out, "event: message\ndata: {\"a\":2}\n\ndata: {}");
    let (same, changed) = rewrite_reply(body, &vec![None, None, None, None]);
    assert!(!changed);
    assert_eq!(same, body);
}

#[test]
fn fetch_result_text_and_structure() {
    let data = FetchWithReceipt {
        receipt_id: "r-1".to_string(),
        receipt: receipt(Some(200), Some(15), Some(11)),
        data: to_lib(&json(r#"[{"url":"x"},{"content":"hello world"}]"#)),
    };
    assert_eq!(extracted_content(&data.data), Some("hello world".to_string()));
    let text = render_fetch_result(&data);
    assert_eq!(
        text,
        "receipt_id: r-1\nstatus: 200\nfetch_elapsed_ms: 15\ncontent_bytes: 11\n\n---\n\nhello world"
    );
    let structured = from_lib(&structured_fetch_result(&data));
    assert_eq!(
        structured,
        json(r#"{"receipt_id":"r-1","source_url":"https://example.com","status":200,"fetch_elapsed_ms":15,"content_bytes":11,"text":"hello world"}"#)
    );

    let raw = FetchWithReceipt {
        receipt_id: "r-2".to_string(),
        receipt: receipt(None, None, None),
        data: to_lib(&json(r#"{"status":"ok","code":7}"#)),
    };
    assert_eq!(extracted_content(&raw.data), None);
    let serialized = json(r#"{"status":"ok","code":7}"#).to_string();
    let text = render_fetch_result(&raw);
    assert_eq!(
        text,
        format!("receipt_id: r-2\nstatus: unknown\nfetch_elapsed_ms: unknown\ncontent_bytes: unknown\n\n---\n\n{}", serialized)
    );
    let structured = from_lib(&structured_fetch_result(&raw));
    assert_eq!(structured["text"], Value::String(serialized));
    assert_eq!(structured["text"], "{\"code\":7,\"status\":\"ok\"}");
}

#[test]
fn optional_numbers_are_shown_or_unknown() {
    assert_eq!(display_option(Some(0)), "0");
    assert_eq!(display_option(Some(18446744073709551615)), "18446744073709551615");
    assert_eq!(display_option(None), "unknown");
    assert_eq!(display_option_signed(Some(-5)), "-5");
    assert_eq!(display_option_signed(None), "unknown");
}

#[test]
fn content_at_top_level_wins() {
    let data = to_lib(&json(r#"{"content":"top"}"#));
    assert_eq!(extracted_content(&data), Some("top".to_string()));
    let data = to_lib(&json(r#"{"content":5}"#));
    assert_eq!(extracted_content(&data), None);
}

#[test]
fn input_schema_requires_the_url() {
    let schema = from_lib(&livy_resolver::mcp::fetch_source_input_schema());
    assert_eq!(schema["required"], json(r#"["url"]"#));
    assert_eq!(schema["properties"]["url"]["type"], "string");
    assert_eq!(schema["additionalProperties"], false);
}

#[test]
fn tools_list_replies_are_enriched_line_by_line() {
    let message = r#"{"jsonrpc":"2.0","id":1,"result":{"tools":[{"name":"fetch_source","_meta":{}},{"name":"other","_meta":{"securitySchemes":[{"type":"noauth"}]}}]}}"#;
    let body = format!("event: message\ndata: {}\n\ndata: {{\"jsonrpc\":\"2.0\",\"id\":2,\"result\":{{}}}}\ndata: not json\n", message);
    let lines = reply_lines(&body);
    let parsed: Vec<Option<JsonValue>> = lines
        .iter()
        .map(|line| {
            data_line_payload(line).and_then(|p| serde_json::from_str::<Value>(&p).ok()).map(|v| to_lib(&v))
        })
        .collect();
    let (out, changed) = enrich_tools_list_reply(&body, parsed);
    assert!(changed);

    let mut expected = json(message);
    let mut lib = to_lib(&expected);
    assert!(enrich_tools_list_message_for_chatgpt(&mut lib));
    expected = from_lib(&lib);
    let out_lines = reply_lines(&out);
    assert_eq!(out_lines.len(), lines.len());
    assert_eq!(out_lines[0], lines[0]);
    assert_eq!(out_lines[1], format!("data: {}\n", expected));
    assert_eq!(out_lines[2], lines[2]);
    assert_eq!(out_lines[3], lines[3]);
    assert_eq!(out_lines[4], lines[4]);
    let tools = &expected["result"]["tools"];
    assert_eq!(tools[1]["securitySchemes"], json(r#"[{"type":"noauth"}]"#));
    assert_eq!(tools[0]["title"], "Fetch Source");

    let untouched = "event: message\ndata: {\"id\":3}\n";
    let parsed: Vec<Option<JsonValue>> = vec![None, Some(JsonValue::Object(vec![("id".to_string(), JsonValue::UInt(3))]))];
    let (same, changed) = enrich_tools_list_reply(untouched, parsed);
    assert!(!changed);
    assert_eq!(same, untouched);
}

#[test]
fn enrichment_only_adds_and_reports_changes() {
    let not_a_list = json(r#"{"result":{"tools":{"name":"fetch_source"}}}"#);
    let mut v = to_lib(&not_a_list);
    assert!(!enrich_tools_list_message_for_chatgpt(&mut v));
    assert_eq!(from_lib(&v), not_a_list);

    let original = json(
        r#"{"result":{"tools":[{"name":"other","title":"Keep","_meta":{"securitySchemes":[{"type":"oauth2"}],"ui":"x"}},{"name":"fetch_source","title":"Mine","_meta":{"ui":{"visibility":["app"]}}}]}}"#,
    );
    let mut v = to_lib(&original);
    assert!(enrich_tools_list_message_for_chatgpt(&mut v));
    let enriched = from_lib(&v);
    assert_ne!(enriched, original);
    let other = &enriched["result"]["tools"][0];
    let mut expected_other = original["result"]["tools"][0].clone();
    expected_other["securitySchemes"] = json(r#"[{"type":"oauth2"}]"#);
    assert_eq!(other, &expected_other);
    let fetch = &enriched["result"]["tools"][1];
    assert_eq!(fetch["title"], "Mine");
    assert_eq!(fetch["_meta"]["ui"]["visibility"], json(r#"["app"]"#));
    assert_eq!(fetch["name"], "fetch_source");

    let again = enriched.clone();
    let mut v = to_lib(&again);
    assert!(!enrich_tools_list_message_for_chatgpt(&mut v));
    assert_eq!(from_lib(&v), again);
}

#[test]
fn structured_results_meet_the_output_schema() {
    let schema = from_lib(&fetch_source_output_schema());
    for (status, elapsed, bytes) in [(Some(-1), None, Some(3)), (None, Some(9), None), (Some(204), Some(1), Some(0))] {
        let data = FetchWithReceipt {
            receipt_id: "r-9".to_string(),
            receipt: receipt(status, elapsed, bytes),
            data: to_lib(&json(r#"{"k":[1,2]}"#)),
        };
        let structured = from_lib(&structured_fetch_result(&data));
        let members = structured.as_object().unwrap();
        for (key, value) in members {
            let kind = schema["properties"][key]["type"].as_str().unwrap();
            match kind {
                "string" => assert!(value.is_string()),
                "integer" => assert!(value.is_i64() || value.is_u64()),
                _ => panic!("unexpected type"),
            }
        }
        for name in schema["required"].as_array().unwrap() {
            assert!(members.contains_key(name.as_str().unwrap()));
        }
    }
}
