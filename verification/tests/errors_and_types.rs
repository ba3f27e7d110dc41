use livy_resolver::errors::{
    backend_error_code, compact_body, debit_failure, FetchError, ProvenanceError, ResolverAuthError,
    ResolverCreditsError, SnapshotError,
};
use livy_resolver::fetch::{default_params, listen_address, scrape_params, spider_key, unblock_params, SpiderRequest};
use livy_resolver::json::JsonValue;
use livy_resolver::types::{ProductFormat, ProductMode, ProductProxy, ProductRequest, ProductRoute};
use serde_json::Value;

fn from_lib(v: &JsonValue) -> Value {
    match v {
        JsonValue::Null => Value::Null,
        JsonValue::Bool(b) => Value::Bool(*b),
        JsonValue::UInt(n) => Value::from(*n),
        JsonValue::Int(n) => Value::from(*n),
        JsonValue::Float(s) => serde_json::from_str(s).unwrap(),
        JsonValue::Str(s) => Value::String(s.clone()),
        JsonValue::Array(items) => Value::Array(items.iter().map(from_lib).collect()),
        JsonValue::Object(members) => {
            let mut map = serde_json::Map::new();
            for (k, v) in members {
                map.insert(k.clone(), from_lib(v));
            }
            Value::Object(map)
        }
    }
}

fn to_lib(v: &Value) -> JsonValue {
    match v {
        Value::Null => JsonValue::Null,
        Value::Bool(b) => JsonValue::Bool(*b),
        Value::Number(n) => match n.as_u64() {
            Some(u) => JsonValue::UInt(u),
            None => match n.as_i64() {
                Some(i) => JsonValue::Int(i),
                None => JsonValue::Float(n.to_string()),
            },
        },
        Value::String(s) => JsonValue::Str(s.clone()),
        Value::Array(items) => JsonValue::Array(items.iter().map(to_lib).collect()),
        Value::Object(map) => JsonValue::Object(map.iter().map(|(k, v)| (k.clone(), to_lib(v))).collect()),
    }
}

fn parsed(text: &str) -> Option<JsonValue> {
    serde_json::from_str::<Value>(text).ok().map(|v| to_lib(&v))
}

fn json(text: &str) -> Value {
    serde_json::from_str(text).unwrap()
}

fn response(e: FetchError) -> (u16, Value) {
    let r = e.into_response();
    (r.status, from_lib(&r.body))
}

#[test]
fn fetch_errors_map_to_statuses_and_bodies() {
    assert_eq!(response(FetchError::UnableFetch("x".to_string())), (502, json(r#"{"error":"Fetch failed x "}"#)));
    assert_eq!(
        response(FetchError::UnableToSerialize("x".to_string())),
        (400, json(r#"{"error":"Data is not serializable x"}"#))
    );
    assert_eq!(response(FetchError::Http("x".to_string())), (500, json(r#"{"error":"Http failed x"}"#)));
    assert_eq!(response(FetchError::Upstream("x".to_string())), (502, json(r#"{"error":"Upstream fetch failed x"}"#)));
    assert_eq!(response(FetchError::Timeout("x".to_string())), (504, json(r#"{"error":"Fetch timed out x"}"#)));
    assert_eq!(response(FetchError::NotFound("gone".to_string())), (404, json(r#"{"error":"gone"}"#)));
    assert_eq!(response(FetchError::BadRequest("bad".to_string())), (400, json(r#"{"error":"bad"}"#)));
    assert_eq!(
        response(FetchError::PaymentRequired("x".to_string())),
        (402, json(r#"{"code":"payment_required","error":"Payment required x"}"#))
    );
    assert_eq!(
        response(FetchError::Credits("x".to_string())),
        (502, json(r#"{"error":"Credit authorization failed x"}"#))
    );
    assert_eq!(
        response(FetchError::Snapshot(SnapshotError::MissingHtml)),
        (400, json(r#"{"error":"Snapshot failed Spider snapshot response did not include raw HTML"}"#))
    );
    assert_eq!(FetchError::Timeout("x".to_string()).message(), "Fetch timed out");
    assert_eq!(FetchError::UnableToSerialize("x".to_string()).message(), "Output is not desearializable");
}

#[test]
fn auth_errors_give_challenge_parts() {
    let e = ResolverAuthError::Unauthorized { error: "invalid_request", message: "missing bearer token" };
    assert_eq!(e.challenge_parts(), Some(("invalid_request", "missing bearer token")));
    let e = ResolverAuthError::Forbidden { error: "insufficient_scope", message: "scope" };
    assert_eq!(e.challenge_parts(), Some(("insufficient_scope", "scope")));
    assert_eq!(ResolverAuthError::ServiceUnavailable("down".to_string()).challenge_parts(), None);
}

#[test]
fn credit_failures() {
    let backend = ResolverCreditsError::Backend { status: 402, body: "  no credits  ".to_string() };
    assert!(backend.is_payment_required(&None));
    assert_eq!(backend.message(), "credit request returned 402 Payment Required: no credits");
    match debit_failure(&backend, &None) {
        FetchError::PaymentRequired(m) => assert_eq!(m, "credit request returned 402 Payment Required: no credits"),
        _ => panic!("a 402 asks for payment"),
    }
    let body = r#"{"code":"insufficient_user_credits"}"#;
    let refused = ResolverCreditsError::Backend { status: 409, body: body.to_string() };
    assert!(refused.is_payment_required(&parsed(body)));
    assert!(!refused.is_payment_required(&parsed("not json")));
    assert_eq!(backend_error_code(&parsed(body)), Some("insufficient_user_credits".to_string()));
    assert_eq!(backend_error_code(&parsed(r#"{"code":7}"#)), None);
    assert_eq!(backend_error_code(&parsed("[1]")), None);
    assert!(!ResolverCreditsError::Http("timeout".to_string()).is_payment_required(&parsed(body)));
    assert_eq!(ResolverCreditsError::MissingAuth("subject").message(), "OAuth context is missing Livy subject");
    assert_eq!(
        ResolverCreditsError::InvalidHeader("x".to_string()).message(),
        "credit request header is invalid: x"
    );
    match debit_failure(&refused, &parsed(body)) {
        FetchError::PaymentRequired(m) => assert_eq!(m, format!("credit request returned 409 Conflict: {body}")),
        _ => panic!("payment is required"),
    }
    match debit_failure(&ResolverCreditsError::Http("down".to_string()), &None) {
        FetchError::Credits(m) => assert_eq!(m, "credit request failed: down"),
        _ => panic!("other failures are credit errors"),
    }
}

#[test]
fn long_bodies_are_cut() {
    let long = "a".repeat(600);
    assert_eq!(compact_body(&long), format!("{}...", "a".repeat(512)));
    assert_eq!(compact_body("  short \n"), "short");
    let exact = "b".repeat(512);
    assert_eq!(compact_body(&exact), exact);
}

#[test]
fn provenance_error_messages() {
    assert_eq!(
        ProvenanceError::MissingEnv("LIVY_API_KEY").message(),
        "LIVY_API_KEY must be set when provenance is enabled"
    );
    assert_eq!(
        ProvenanceError::Backend { status: 500, body: "oops".to_string() }.message(),
        "provenance backend returned 500 Internal Server Error: oops"
    );
    assert_eq!(ProvenanceError::Sdk("x".to_string()).message(), "provenance SDK failed: x");
}

#[test]
fn labels_of_modes_and_routes() {
    assert_eq!(ProductMode::default(), ProductMode::Auto);
    assert_eq!(ProductMode::Auto.receipt_label(), "fetch:auto");
    assert_eq!(ProductMode::Raw.receipt_label(), "fetch:raw");
    assert_eq!(ProductMode::LinkMap.receipt_label(), "map");
    assert_eq!(ProductMode::Screenshot.receipt_label(), "screenshot");
    assert_eq!(ProductRoute::Scrape.as_str(), "fetch");
    assert_eq!(ProductRoute::LinkMap.as_str(), "map");
    assert_eq!(ProductRoute::Unblock.as_str(), "unblock");
}

#[test]
fn exact_source_requests() {
    let legacy = ProductRequest::legacy("https://example.com");
    assert_eq!(legacy.source.as_deref(), Some("https://example.com"));
    assert_eq!(legacy.mode, ProductMode::Auto);
    assert_eq!(legacy.proxy, Some(ProductProxy::NoProxy));
    assert_eq!(legacy.timeout_secs, Some(25));
    assert_eq!(legacy.request_timeout_secs, Some(20));
    assert_eq!(legacy.readability, Some(true));
    assert_eq!(legacy.receipt, Some(false));
    let fast = ProductRequest::fast("https://example.com");
    assert_eq!(fast.mode, ProductMode::Fast);
    assert_eq!(fast.proxy, Some(ProductProxy::Isp));
    assert_eq!(fast.receipt, Some(true));
    assert_eq!(fast.crawl_timeout_secs, Some(25));
    assert_eq!(fast.require_source().ok(), Some("https://example.com"));
    let mut none = ProductRequest::fast("x");
    none.source = None;
    match none.require_source() {
        Err(FetchError::BadRequest(m)) => assert_eq!(m, "route requires `source`"),
        _ => panic!("a source is required"),
    }
}

#[test]
fn spider_settings() {
    let d = default_params();
    assert_eq!(d.request, Some(SpiderRequest::SmartMode));
    assert_eq!(d.return_format, Some(ProductFormat::Markdown));
    let s = scrape_params();
    assert_eq!(s.request, Some(SpiderRequest::Chrome));
    assert_eq!((s.stealth, s.fingerprint, s.proxy_enabled), (Some(true), None, Some(true)));
    let u = unblock_params();
    assert_eq!((u.stealth, u.fingerprint, u.proxy_enabled), (Some(true), Some(true), Some(true)));
    assert_eq!(spider_key(&None, &Some("old".to_string())), Some("old".to_string()));
    assert_eq!(spider_key(&Some("new".to_string()), &Some("old".to_string())), Some("new".to_string()));
    assert_eq!(listen_address(&None, &None), "0.0.0.0:3001");
    assert_eq!(listen_address(&None, &Some("8080".to_string())), "0.0.0.0:8080");
    assert_eq!(listen_address(&Some("9000".to_string()), &Some("8080".to_string())), "0.0.0.0:9000");
}
