use livy_resolver::json::JsonValue;
use livy_resolver::snapshot::{
    decode_base64_image, find_content_string, find_string_by_keys, new_receipt_id, parse_private_key,
    snapshot_tags, SnapshotError, SnapshotPayload,
};
use serde_json::Value;

fn to_lib(v: &Value) -> JsonValue {
    match v {
        Value::Null => JsonValue::Null,
        Value::Bool(b) => JsonValue::Bool(*b),
        Value::Number(n) => match n.as_u64() {
            Some(u) => JsonValue::UInt(u),
            None => match n.as_i64() {
                Some(i) => JsonValue::Int(i),
                None => JsonValue::Float(n.to_string()),
            },
        },
        Value::String(s) => JsonValue::Str(s.clone()),
        Value::Array(items) => JsonValue::Array(items.iter().map(to_lib).collect()),
        Value::Object(map) => JsonValue::Object(map.iter().map(|(k, v)| (k.clone(), to_lib(v))).collect()),
    }
}

fn doc(text: &str) -> JsonValue {
    to_lib(&serde_json::from_str::<Value>(text).unwrap())
}

#[test]
fn snapshots_are_read_from_spider_responses() {
    let response = doc(r#"[{"content":"md text","html":"<p>x</p>","screenshot":"aGVsbG8=","request_id":"req-7"}]"#);
    let p = SnapshotPayload::from_spider_response("https://example.com", &response, 5).unwrap();
    assert_eq!(p.source_url, "https://example.com");
    assert_eq!(p.html, "<p>x</p>");
    assert_eq!(p.screenshot_base64, "aGVsbG8=");
    assert_eq!(p.receipt_id, "req-7");
    assert_eq!(p.screenshot_bytes().unwrap(), b"hello".to_vec());

    let response = doc(r#"{"data":{"content":"text only","screenshot":"aGk="}}"#);
    let p = SnapshotPayload::from_spider_response("u", &response, 1700).unwrap();
    assert_eq!(p.html, "text only");
    assert_eq!(p.receipt_id, "snapshot-1700");

    let response = doc(r#"{"raw":"R","html":"H","screenshot":"aGk=","receipt_id":"a","id":"b"}"#);
    let p = SnapshotPayload::from_spider_response("https://example.com", &response, 0).unwrap();
    assert_eq!(p.source_url, "https://example.com");
    assert_eq!(p.html, "R");
    assert_eq!(p.screenshot_base64, "aGk=");
    assert_eq!(p.receipt_id, "a");
}

#[test]
fn snapshot_errors() {
    match SnapshotPayload::from_spider_response("u", &doc(r#"{"screenshot":"aGk="}"#), 0) {
        Err(e) => {
            assert!(matches!(e, SnapshotError::MissingHtml));
            assert_eq!(e.message(), "Spider snapshot response did not include raw HTML");
        }
        Ok(_) => panic!("html is required"),
    }
    match SnapshotPayload::from_spider_response("u", &doc(r#"{"raw":"<html>"}"#), 0) {
        Err(e) => assert_eq!(e.message(), "Spider snapshot response did not include a screenshot"),
        Ok(_) => panic!("a screenshot is required"),
    }
}

#[test]
fn strings_are_found_depth_first() {
    let v = doc(r#"{"a":{"id":1},"b":[{"id":"deep"}],"id":"top"}"#);
    assert_eq!(find_string_by_keys(&v, &["id"]), Some("top".to_string()));
    let v = doc(r#"{"a":{"id":1},"b":[{"id":"deep"}]}"#);
    assert_eq!(find_string_by_keys(&v, &["id"]), Some("deep".to_string()));
    assert_eq!(find_string_by_keys(&v, &["missing"]), None);
    assert_eq!(find_content_string(&doc(r#"[1,{"content":"c"}]"#)), Some("c".to_string()));
    assert_eq!(new_receipt_id(42), "snapshot-42");
}

#[test]
fn screenshots_decode_in_four_alphabets() {
    assert_eq!(decode_base64_image("data:image/png;base64,aGVsbG8=").unwrap(), b"hello".to_vec());
    assert_eq!(decode_base64_image("  aGVsbG8  ").unwrap(), b"hello".to_vec());
    assert_eq!(decode_base64_image("-_8").unwrap(), vec![0xfb, 0xff]);
    assert_eq!(decode_base64_image("-_8=").unwrap(), vec![0xfb, 0xff]);
    match decode_base64_image("!!!!") {
        Err(e) => assert_eq!(e.message(), "invalid screenshot base64: Invalid symbol 33, offset 0."),
        Ok(_) => panic!("not base64"),
    }
}

#[test]
fn upload_keys() {
    let hex = "00".repeat(31) + "ff";
    let key = parse_private_key(&Some(format!("  0x{hex}\n"))).unwrap();
    assert_eq!(key.len(), 32);
    assert_eq!(key[31], 0xff);
    assert_eq!(key[0], 0);
    match parse_private_key(&None) {
        Err(e) => assert_eq!(e.message(), "AR_UPLOAD_ETH_PRIVATE_KEY is not set"),
        Ok(_) => panic!("the key is required"),
    }
    match parse_private_key(&Some("abcd".to_string())) {
        Err(e) => assert_eq!(e.message(), "invalid Ethereum private key: expected 32-byte hex string"),
        Ok(_) => panic!("too short"),
    }
    let bad = "zz".to_string() + &"00".repeat(31);
    match parse_private_key(&Some(bad)) {
        Err(e) => assert_eq!(e.message(), "invalid Ethereum private key: invalid digit found in string"),
        Ok(_) => panic!("not hex"),
    }
}

#[test]
fn snapshot_item_tags() {
    let tags = snapshot_tags("image/png", "screenshot", "https://e.com", "r-1");
    assert_eq!(
        tags,
        vec![
            ("Content-Type".to_string(), "image/png".to_string()),
            ("App-Name".to_string(), "livy-resolver".to_string()),
            ("Snapshot-Kind".to_string(), "screenshot".to_string()),
            ("Source-URL".to_string(), "https://e.com".to_string()),
            ("Receipt-ID".to_string(), "r-1".to_string()),
        ]
    );
}

#[test]
fn upload_keys_split_inside_a_character_are_refused() {
    let key = format!("0\u{e9}{}", "0".repeat(61));
    assert_eq!(key.len(), 64);
    match parse_private_key(&Some(key)) {
        Err(e) => assert_eq!(
            e.message(),
            "invalid Ethereum private key: incomplete utf-8 byte sequence from index 1"
        ),
        Ok(_) => panic!("the first pair is not text"),
    }
}
