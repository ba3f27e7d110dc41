use livy_resolver::json::JsonValue;
use livy_resolver::encode::encode_json;
use livy_resolver::provenance::{
    nonce_from_subject, output_commitment, primary_source, request_summary, resolver_template_fields,
    sha256_json_hex, subject_material, template_outcome, template_rejection, unix_millis,
    with_registry_refs, FetchAttestation, ProvenanceConfig, ProvenanceEnv, ProvenanceError,
    ProvenanceRecord, ResolverFetchEvidence, TemplateAction, ATTESTATION_CLAIM, DEFAULT_SCHEMA_ID, SUBJECT_TYPE,
};
use sha2::Digest;
use livy_resolver::types::{ProductMode, ProductRequest, ProductRoute, Receipt};
use serde_json::Value;

fn from_lib(v: &JsonValue) -> Value {
    match v {
        JsonValue::Null => Value::Null,
        JsonValue::Bool(b) => Value::Bool(*b),
        JsonValue::UInt(n) => Value::from(*n),
        JsonValue::Int(n) => Value::from(*n),
        JsonValue::Float(s) => serde_json::from_str(s).unwrap(),
        JsonValue::Str(s) => Value::String(s.clone()),
        JsonValue::Array(items) => Value::Array(items.iter().map(from_lib).collect()),
        JsonValue::Object(members) => {
            let mut map = serde_json::Map::new();
            for (k, v) in members {
                map.insert(k.clone(), from_lib(v));
            }
            Value::Object(map)
        }
    }
}

fn json(text: &str) -> Value {
    serde_json::from_str(text).unwrap()
}

fn to_lib(v: &Value) -> JsonValue {
    match v {
        Value::Null => JsonValue::Null,
        Value::Bool(b) => JsonValue::Bool(*b),
        Value::Number(n) => match n.as_u64() {
            Some(u) => JsonValue::UInt(u),
            None => match n.as_i64() {
                Some(i) => JsonValue::Int(i),
                None => JsonValue::Float(n.to_string()),
            },
        },
        Value::String(s) => JsonValue::Str(s.clone()),
        Value::Array(items) => JsonValue::Array(items.iter().map(to_lib).collect()),
        Value::Object(map) => JsonValue::Object(map.iter().map(|(k, v)| (k.clone(), to_lib(v))).collect()),
    }
}

fn serde_digest(v: &Value) -> String {
    hex::encode(sha2::Sha256::digest(serde_json::to_vec(v).unwrap()))
}

fn record(id: &str) -> ProvenanceRecord {
    ProvenanceRecord {
        provenance_attestation_id: id.to_string(),
        subject_id: "s".to_string(),
        verification_status: "verified".to_string(),
        schema_binding_status: "full".to_string(),
        public_values_commitment: "pvc".to_string(),
        report_payload_hash: "rph".to_string(),
        managed_publication: Some(JsonValue::Object(vec![(
            "status".to_string(),
            JsonValue::Str("publishing".to_string()),
        )])),
        registry_refs: vec![],
    }
}

fn env() -> ProvenanceEnv {
    ProvenanceEnv {
        enabled: None,
        backend_base_url: None,
        api_key: None,
        integration_id: None,
        schema_id: None,
        schema_version: None,
        visibility: None,
        verification_mode: None,
        subject_prefix: None,
        explorer_base_url: None,
        program_id: None,
        bootstrap_template: None,
        managed_publication: None,
        wait_for_registry_refs: None,
        registry_wait_attempts: None,
        registry_wait_interval_ms: None,
    }
}

fn config() -> ProvenanceConfig {
    let mut e = env();
    e.api_key = Some("livy_key".to_string());
    e.backend_base_url = Some("https://backend.test//".to_string());
    e.program_id = Some("prog-1".to_string());
    ProvenanceConfig::from_values(&e).unwrap().unwrap()
}

fn attestation(receipt_id: Option<&str>) -> FetchAttestation {
    FetchAttestation {
        subject_id: "resolver_fetch:abc".to_string(),
        source: "https://example.com".to_string(),
        route: ProductRoute::Scrape,
        mode: ProductMode::Fast,
        fetched_at_unix_ms: 1700000000000,
        receipt_id: receipt_id.map(|r| r.to_string()),
        input_commitment: JsonValue::Object(vec![]),
        output_commitment: output_commitment("00ff", 12),
        data_sha256: "00ff".to_string(),
    }
}

#[test]
fn request_summary_redacts_headers_and_cookies() {
    let mut payload = ProductRequest::fast("https://example.com/path");
    payload.headers = Some(vec![("authorization".to_string(), "Bearer secret".to_string())]);
    payload.cookies = Some("session=secret".to_string());
    payload.user_agent = Some("private-agent".to_string());

    let summary = request_summary(&payload, ProductRoute::Scrape, ProductMode::Fast);
    let encoded = serde_json::to_string(&from_lib(&summary)).unwrap();

    assert!(encoded.contains("\"header_count\":1"));
    assert!(encoded.contains("\"cookies_present\":true"));
    assert!(encoded.contains("\"user_agent_present\":true"));
    assert!(!encoded.contains("Bearer secret"));
    assert!(!encoded.contains("session=secret"));
    assert!(!encoded.contains("private-agent"));
}

#[test]
fn resolver_template_uses_generic_source_claim() {
    let fields: Vec<Value> = resolver_template_fields().iter().map(from_lib).collect();

    assert_eq!(fields[0]["name"], "application_domain");
    assert_eq!(fields[2]["commit_mode"], "json_sha256");
    assert_eq!(fields[3]["disclosure"], "commitment");
    assert_eq!(ATTESTATION_CLAIM, "source");
    assert_eq!(SUBJECT_TYPE, "resolver_fetch");
    assert_eq!(DEFAULT_SCHEMA_ID, "resolver-fetch-v1");
}

#[test]
fn summaries_differing_only_in_secrets_are_equal() {
    let mut a = ProductRequest::fast("https://example.com");
    a.headers = Some(vec![("x".to_string(), "1".to_string())]);
    a.cookies = Some("a=1".to_string());
    let mut b = ProductRequest::fast("https://example.com");
    b.headers = Some(vec![("y".to_string(), "2".to_string())]);
    b.cookies = Some("b=2".to_string());
    let sa = from_lib(&request_summary(&a, ProductRoute::Scrape, ProductMode::Fast));
    let sb = from_lib(&request_summary(&b, ProductRoute::Scrape, ProductMode::Fast));
    assert_eq!(sa, sb);
    assert_eq!(sa["route"], "fetch");
    assert_eq!(sa["mode"], "fast");
    assert_eq!(sa["proxy"], "isp");
    assert_eq!(sa["timeout_secs"], 25);
    assert_eq!(sa["user_agent_present"], Value::Null);
    let mut empty = ProductRequest::fast("https://example.com");
    empty.cookies = Some(String::new());
    let se = from_lib(&request_summary(&empty, ProductRoute::Scrape, ProductMode::Fast));
    assert_eq!(se["cookies_present"], false);
}

#[test]
fn configuration_defaults_and_errors() {
    assert!(ProvenanceConfig::from_values(&env()).unwrap().is_none());

    let mut e = env();
    e.enabled = Some("yes".to_string());
    match ProvenanceConfig::from_values(&e) {
        Err(err) => assert_eq!(err.message(), "LIVY_API_KEY must be set when provenance is enabled"),
        Ok(_) => panic!("api key is required"),
    }

    e.api_key = Some("  k  ".to_string());
    let c = ProvenanceConfig::from_values(&e).unwrap().unwrap();
    assert_eq!(c.backend_base_url, "https://api.livylabs.xyz");
    assert_eq!(c.api_key, "k");
    assert_eq!(c.integration_id, "delphi");
    assert_eq!(c.schema_id, "resolver-fetch-v1");
    assert_eq!(c.schema_version, "1");
    assert_eq!(c.visibility, "public");
    assert_eq!(c.verification_mode, "verify_fresh");
    assert_eq!(c.subject_prefix, "resolver_fetch");
    assert!(!c.bootstrap_template);

    e.visibility = Some("secret".to_string());
    match ProvenanceConfig::from_values(&e) {
        Err(err) => assert_eq!(
            err.message(),
            "invalid provenance configuration: LIVY_PROVENANCE_VISIBILITY must be public or private"
        ),
        Ok(_) => panic!("visibility must be checked"),
    }

    let mut e = env();
    e.enabled = Some("maybe".to_string());
    match ProvenanceConfig::from_values(&e) {
        Err(err) => assert_eq!(
            err.message(),
            "invalid provenance configuration: LIVY_PROVENANCE_ENABLED must be a boolean"
        ),
        Ok(_) => panic!("flag must be a boolean"),
    }

    let mut e = env();
    e.api_key = Some("k".to_string());
    e.enabled = Some("off".to_string());
    assert!(ProvenanceConfig::from_values(&e).unwrap().is_none());
}

#[test]
fn urls_of_the_backend() {
    let c = config();
    assert_eq!(c.backend_base_url, "https://backend.test");
    assert_eq!(c.endpoint("/api/v1/provenance/attestations"), "https://backend.test/api/v1/provenance/attestations");
    assert_eq!(
        c.explorer_url("att-1"),
        Some("https://backend.test/api/v1/public/provenance/attestations/att-1".to_string())
    );
    let result = c.provenance_result(record("att-2"), "d".to_string());
    assert_eq!(result.schema_id, "resolver-fetch-v1");
    assert_eq!(result.explorer_url, Some("https://backend.test/api/v1/public/provenance/attestations/att-2".to_string()));
    assert_eq!(from_lib(result.managed_publication.as_ref().unwrap()), json(r#"{"status":"publishing"}"#));
    assert!(result.registry_refs.is_empty());
}

#[test]
fn backend_headers_and_rejections() {
    let c = config();
    let headers = c.headers().unwrap();
    assert_eq!(
        headers,
        vec![
            ("authorization".to_string(), "Bearer livy_key".to_string()),
            ("content-type".to_string(), "application/json".to_string()),
            ("x-integration-id".to_string(), "delphi".to_string()),
        ]
    );
    let mut bad = config();
    bad.api_key = "line\nbreak".to_string();
    match bad.headers() {
        Err(err) => assert_eq!(err.message(), "invalid provenance configuration: failed to parse header value"),
        Ok(_) => panic!("a newline is not a header value"),
    }
    assert_eq!(
        template_rejection(403, "no").message(),
        "provenance backend rejected the record: template bootstrap returned 403 Forbidden: no"
    );
    assert!(!c.needs_template(false));
}

#[test]
fn subject_id_and_nonce_come_from_sha256() {
    let c = config();
    assert_eq!(nonce_from_subject("abc"), 0xeacf018fbf1678ba);
    let material = from_lib(&subject_material("https://e.com", ProductRoute::Scrape, ProductMode::Fast, None, 5));
    assert_eq!(
        material,
        json(r#"{"source":"https://e.com","route":"fetch","mode":"fast","receipt_id":null,"fetched_at_unix_ms":5}"#)
    );
    let id = c.subject_id("https://e.com", ProductRoute::Scrape, ProductMode::Fast, None, 5);
    assert_eq!(id, format!("resolver_fetch:{}", &serde_digest(&material)[..24]));
    assert_eq!(id.len(), "resolver_fetch:".len() + 24);
    assert!(id["resolver_fetch:".len()..].chars().all(|ch| ch.is_ascii_hexdigit() && !ch.is_ascii_uppercase()));
    assert_eq!(id, c.subject_id("https://e.com", ProductRoute::Scrape, ProductMode::Fast, None, 5));
    assert_ne!(id, c.subject_id("https://e.com", ProductRoute::Scrape, ProductMode::Fast, Some("r"), 5));
}

#[test]
fn records_follow_the_template() {
    let c = config();
    let a = attestation(None);
    let fields: Vec<Value> = c.schema_fields(&a).iter().map(from_lib).collect();
    let template: Vec<Value> = resolver_template_fields().iter().map(from_lib).collect();
    assert_eq!(fields.len(), 9);
    for field in &fields {
        let k = field["index"].as_u64().unwrap() as usize;
        assert_eq!(field["name"], template[k]["name"]);
        assert_eq!(field["commit_mode"], template[k]["commit_mode"]);
        assert_eq!(field["required"], template[k]["required"]);
    }
    assert_eq!(fields[8]["index"], 9);
    assert_eq!(fields[8]["value"], "prog-1");
    let commitments = c.attestation_commitments(&attestation(Some("r-1")));
    assert_eq!(commitments.len(), 10);
    assert!(commitments[2].hashed && commitments[3].hashed && !commitments[4].hashed);
    assert_eq!(from_lib(&commitments[8].value), json("\"r-1\""));
}

#[test]
fn attestation_request_binds_digests() {
    let c = config();
    let a = attestation(Some("r-1"));
    let request = from_lib(&c.attestation_request(&a, JsonValue::Str("att".to_string()), "0.1.0"));
    assert_eq!(request["attestation_claim"], "source");
    assert_eq!(request["subject_type"], "resolver_fetch");
    assert_eq!(request["attestation"], "att");
    assert_eq!(request["metadata"]["input_sha256"], serde_digest(&json("{}")));
    assert_eq!(request["metadata"]["output_commitment_sha256"], serde_digest(&from_lib(&a.output_commitment)));
    assert_eq!(request["metadata"]["source_sha256"], hex::encode(sha2::Sha256::digest(b"https://example.com")));
    assert!(request.get("managed_publication").is_none());
    assert_eq!(request["metadata"]["receipt_id"], "r-1");
    assert_eq!(request["fields"].as_array().unwrap().len(), 10);
    let template = from_lib(&c.template_request("0.1.0"));
    assert_eq!(template["template_kind"], "resolver_source");
    assert_eq!(template["fields"].as_array().unwrap().len(), 10);
}

#[test]
fn sources_and_timestamps() {
    let mut p = ProductRequest::fast("https://x.test");
    assert_eq!(primary_source(&p), "https://x.test");
    p.source = None;
    p.query = Some("rust".to_string());
    assert_eq!(primary_source(&p), "rust");
    p.query = None;
    assert_eq!(primary_source(&p), "unknown");
    assert_eq!(unix_millis(Ok(42)).unwrap(), 42);
    match unix_millis(Err("clock went back".to_string())) {
        Err(ProvenanceError::Time(m)) => assert_eq!(m, "clock went back"),
        _ => panic!("time errors are kept"),
    }
    match unix_millis(Ok(u128::MAX)) {
        Err(err) => assert_eq!(err.message(), "provenance timestamp failed: out of range integral type conversion attempted"),
        Ok(_) => panic!("too large"),
    }
}

#[test]
fn fetch_attestations_bind_the_fetch() {
    let c = config();
    let payload = ProductRequest::fast("https://e.com");
    let data = json(r#"{"status":200,"content":"caf\u00e9 \"x\"\n","items":[1,-2,0.5,null,true]}"#);
    let a = c.fetch_attestation(&payload, ProductRoute::Scrape, ProductMode::Fast, Some("r-9"), 5, &to_lib(&data));
    assert_eq!(a.subject_id, c.subject_id("https://e.com", ProductRoute::Scrape, ProductMode::Fast, Some("r-9"), 5));
    assert_eq!(a.source, "https://e.com");
    assert_eq!(a.receipt_id, Some("r-9".to_string()));
    assert_eq!(a.data_sha256, serde_digest(&data));
    assert_eq!(a.data_sha256.len(), 64);
    let bytes = serde_json::to_vec(&data).unwrap().len();
    let mut expected = serde_json::Map::new();
    expected.insert("kind".to_string(), Value::from("spider_response"));
    expected.insert("sha256".to_string(), Value::from(serde_digest(&data)));
    expected.insert("bytes".to_string(), Value::from(bytes));
    assert_eq!(from_lib(&a.output_commitment), Value::Object(expected));
    assert_eq!(
        from_lib(&a.input_commitment),
        from_lib(&request_summary(&payload, ProductRoute::Scrape, ProductMode::Fast))
    );
}

#[test]
fn json_text_is_serde_json_text() {
    let samples = [
        r#"null"#,
        r#"[true,false,0,18446744073709551615,-9223372036854775808,1.5,-0.25,1e300]"#,
        r#"{"zeta":1,"alpha":{"b":[],"a":{}},"Alpha":"x","é":"ü","":"empty"}"#,
        r#""quote \" backslash \\ slash / tab \t nl \n cr \r bs \b ff \f ctl \u0001 \u001f del \u007f""#,
        r#"{"nested":[{"k":"v","a":[1,[2,[3]]]}],"unicode":"日本語 😀"}"#,
    ];
    for text in samples {
        let v = json(text);
        assert_eq!(encode_json(&to_lib(&v)), serde_json::to_string(&v).unwrap(), "{}", text);
        assert_eq!(sha256_json_hex(&to_lib(&v)), serde_digest(&v));
    }
    let unsorted = JsonValue::Object(vec![
        ("b".to_string(), JsonValue::UInt(2)),
        ("a".to_string(), JsonValue::Int(-1)),
        ("ab".to_string(), JsonValue::Str("\u{0}".to_string())),
    ]);
    assert_eq!(encode_json(&unsorted), r#"{"a":-1,"ab":"\u0000","b":2}"#);
}

#[test]
fn publication_settings_from_the_environment() {
    let c = config();
    assert!(!c.publication.managed);
    assert!(!c.publication.wait_for_registry_refs);
    assert_eq!(c.publication.registry_wait_attempts, 30);
    assert_eq!(c.publication.registry_wait_interval_ms, 2000);

    let mut e = env();
    e.api_key = Some("k".to_string());
    e.managed_publication = Some("true".to_string());
    e.wait_for_registry_refs = Some("yes".to_string());
    e.registry_wait_attempts = Some("3".to_string());
    e.registry_wait_interval_ms = Some(" 10 ".to_string());
    let managed = ProvenanceConfig::from_values(&e).unwrap().unwrap();
    assert!(managed.publication.managed && managed.publication.wait_for_registry_refs);
    assert_eq!(managed.publication.registry_wait_attempts, 3);
    assert_eq!(managed.publication.registry_wait_interval_ms, 10);

    e.registry_wait_attempts = Some("many".to_string());
    match ProvenanceConfig::from_values(&e) {
        Err(err) => assert_eq!(
            err.message(),
            "invalid provenance configuration: LIVY_PROVENANCE_REGISTRY_WAIT_ATTEMPTS: invalid digit found in string"
        ),
        Ok(_) => panic!("not a number"),
    }
    e.registry_wait_attempts = None;
    let mut blank = env();
    blank.backend_base_url = Some("   ".to_string());
    blank.api_key = Some("".to_string());
    assert!(ProvenanceConfig::from_values(&blank).unwrap().is_none());
    e.managed_publication = Some("sometimes".to_string());
    match ProvenanceConfig::from_values(&e) {
        Err(err) => assert_eq!(
            err.message(),
            "invalid provenance configuration: LIVY_PROVENANCE_MANAGED_PUBLICATION must be a boolean"
        ),
        Ok(_) => panic!("not a boolean"),
    }
}

#[test]
fn managed_publication_returns_at_once_unless_waiting() {
    let mut e = env();
    e.api_key = Some("k".to_string());
    e.managed_publication = Some("true".to_string());
    let c = ProvenanceConfig::from_values(&e).unwrap().unwrap();
    let a = attestation(None);
    let request = from_lib(&c.attestation_request(&a, JsonValue::Null, "0.1.0"));
    assert_eq!(request["managed_publication"], true);
    let result = c.provenance_result(record("att-3"), "d".to_string());
    assert!(!c.registry_poll_due(&result, 0));

    e.wait_for_registry_refs = Some("true".to_string());
    e.registry_wait_attempts = Some("2".to_string());
    let waiting = ProvenanceConfig::from_values(&e).unwrap().unwrap();
    assert!(waiting.registry_poll_due(&result, 0));
    assert!(waiting.registry_poll_due(&result, 1));
    assert!(!waiting.registry_poll_due(&result, 2));
    assert_eq!(
        waiting.record_url("att-3"),
        "https://api.livylabs.xyz/api/v1/provenance/attestations/att-3"
    );
    let mut polled = record("att-3");
    polled.managed_publication = Some(JsonValue::Object(vec![("status".to_string(), JsonValue::Str("registered".to_string()))]));
    polled.registry_refs = vec![JsonValue::Str("0xabc".to_string())];
    let done = with_registry_refs(result, polled);
    assert_eq!(done.provenance_attestation_id, "att-3");
    assert_eq!(done.data_sha256, "d");
    assert_eq!(from_lib(&done.registry_refs[0]), json("\"0xabc\""));
    assert!(!waiting.registry_poll_due(&done, 0));
}

#[test]
fn template_bootstrap_steps() {
    let mut e = env();
    e.api_key = Some("k".to_string());
    e.bootstrap_template = Some("true".to_string());
    let c = ProvenanceConfig::from_values(&e).unwrap().unwrap();
    match c.template_action(false, "0.1.0") {
        TemplateAction::Create(request) => {
            let request = from_lib(&request);
            assert_eq!(request, from_lib(&c.template_request("0.1.0")));
        }
        TemplateAction::Proceed => panic!("the template is created first"),
    }
    assert!(matches!(c.template_action(true, "0.1.0"), TemplateAction::Proceed));
    assert!(matches!(config().template_action(false, "0.1.0"), TemplateAction::Proceed));
    let (ready, outcome) = template_outcome(201, "");
    assert!(ready && outcome.is_ok());
    let (ready, outcome) = template_outcome(403, "denied");
    assert!(!ready);
    match outcome {
        Err(err) => assert_eq!(
            err.message(),
            "provenance backend rejected the record: template bootstrap returned 403 Forbidden: denied"
        ),
        Ok(()) => panic!("a refusal is an error"),
    }
    let (ready, outcome) = template_outcome(599, "");
    assert!(!ready);
    assert_eq!(
        outcome.unwrap_err().message(),
        "provenance backend rejected the record: template bootstrap returned 599 <unknown status code>: "
    );
}

#[test]
fn evidence_binds_the_data_and_the_receipt() {
    let c = config();
    let payload = ProductRequest::fast("https://e.com/a");
    let data = json(r#"[{"content":"hello","url":"https://e.com/a"}]"#);
    let lib_data = to_lib(&data);
    let receipt = Receipt {
        id: "rcpt-1".to_string(),
        source_url: "https://e.com/a".to_string(),
        mode: "fast".to_string(),
        request_type: "smart".to_string(),
        proxy: None,
        status: Some(200),
        error: None,
        duration_elapsed_ms: Some(3),
        content_bytes: Some(5),
        total_cost: None,
        created_at_unix_ms: 0,
        demo_message: String::new(),
    };
    let evidence = ResolverFetchEvidence {
        payload: &payload,
        route: ProductRoute::Scrape,
        mode: ProductMode::Fast,
        data: &lib_data,
        receipt: Some(&receipt),
    };
    let a = c.evidence_attestation(&evidence, 77);
    assert_eq!(a.data_sha256, serde_digest(&data));
    assert_eq!(a.receipt_id, Some("rcpt-1".to_string()));
    assert_eq!(a.subject_id, c.subject_id("https://e.com/a", ProductRoute::Scrape, ProductMode::Fast, Some("rcpt-1"), 77));
    assert_eq!(from_lib(&a.output_commitment)["bytes"], serde_json::to_vec(&data).unwrap().len());
}
