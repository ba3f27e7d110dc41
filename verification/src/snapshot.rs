//! Page snapshots: finding the HTML, screenshot and receipt id in a Spider
//! response, decoding the screenshot, the upload key, and the upload tags.

use vstd::prelude::*;
use crate::codec::{Base64Engine, base64_decode, base64_decoded, utf8_error_text, utf8_text};
use crate::env::{int_error_message, int_error_text, opt_view, parse_unsigned, parse_unsigned_spec};
use crate::json::{
    Json, JsonValue, items_deep, lemma_deep_array, lemma_deep_object, lemma_has_key_pos, lookup,
    members_deep,
};
use crate::text::{
    chars_of, concat2, decimal, has_prefix, index_of, owned, slice_range, starts_with, string_of,
    trim, trimmed, u128_to_decimal,
};
use vstd::utf8::{decode_utf8, encode_utf8, valid_utf8};

verus! {

/// App name tagged on every uploaded item.
pub const APP_NAME: &'static str = "livy-resolver";

/// A page snapshot to upload.
#[derive(Clone, Debug)]
pub struct SnapshotPayload {
    pub source_url: String,
    pub receipt_id: String,
    pub html: String,
    pub screenshot_base64: String,
}

/// The ids of the uploaded snapshot items.
#[derive(Clone, Debug)]
pub struct SnapshotUploadResult {
    pub html_id: String,
    pub screenshot_id: String,
}

/// Snapshot failures. Outside errors are kept as their messages.
#[derive(Debug)]
pub enum SnapshotError {
    MissingHtml,
    MissingScreenshot,
    InvalidScreenshotBase64(String),
    MissingPrivateKey,
    InvalidPrivateKey(String),
    Upload(String),
}

/// The message of each snapshot error.
pub open spec fn snapshot_error_text(e: SnapshotError) -> Seq<char> {
    match e {
        SnapshotError::MissingHtml => "Spider snapshot response did not include raw HTML"@,
        SnapshotError::MissingScreenshot => "Spider snapshot response did not include a screenshot"@,
        SnapshotError::InvalidScreenshotBase64(m) => "invalid screenshot base64: "@ + m@,
        SnapshotError::MissingPrivateKey => "AR_UPLOAD_ETH_PRIVATE_KEY is not set"@,
        SnapshotError::InvalidPrivateKey(m) => "invalid Ethereum private key: "@ + m@,
        SnapshotError::Upload(m) => "snapshot upload failed: "@ + m@,
    }
}

impl SnapshotError {
    /// The error's message.
    pub fn message(&self) -> (r: String)
        ensures
            r@ == snapshot_error_text(*self),
    {
        match self {
            SnapshotError::MissingHtml => owned("Spider snapshot response did not include raw HTML"),
            SnapshotError::MissingScreenshot => owned("Spider snapshot response did not include a screenshot"),
            SnapshotError::InvalidScreenshotBase64(m) => concat2("invalid screenshot base64: ", m.as_str()),
            SnapshotError::MissingPrivateKey => owned("AR_UPLOAD_ETH_PRIVATE_KEY is not set"),
            SnapshotError::InvalidPrivateKey(m) => concat2("invalid Ethereum private key: ", m.as_str()),
            SnapshotError::Upload(m) => concat2("snapshot upload failed: ", m.as_str()),
        }
    }
}

// ---------------------------------------------------------------------
// Searching a response.

/// The first of `keys`, from position `i` on, whose member is a string.
pub open spec fn key_text(ms: Seq<(Seq<char>, Json)>, keys: Seq<Seq<char>>, i: int) -> Option<Seq<char>>
    decreases keys.len() - i,
{
    if i < 0 || i >= keys.len() {
        None
    } else {
        match lookup(ms, keys[i]) {
            Some(v) => match v.text() {
                Some(t) => Some(t),
                None => key_text(ms, keys, i + 1),
            },
            None => key_text(ms, keys, i + 1),
        }
    }
}

/// The first string found under one of `keys`, depth first: in an object,
/// its own members under the keys in order come first, then its members'
/// values in order; in an array, its items in order.
pub open spec fn find_by_keys(v: Json, keys: Seq<Seq<char>>) -> Option<Seq<char>>
    decreases v, 1int, 0int,
{
    match v {
        Json::Object(ms) => match key_text(ms, keys, 0) {
            Some(t) => Some(t),
            None => find_in_children(v, keys, 0),
        },
        Json::Array(_) => find_in_children(v, keys, 0),
        _ => None,
    }
}

/// The first find among the children of `v` from position `i` on.
pub open spec fn find_in_children(v: Json, keys: Seq<Seq<char>>, i: int) -> Option<Seq<char>>
    decreases v, 0int, children_count(v) - i,
{
    if i < 0 || i >= children_count(v) {
        None
    } else {
        match v {
            Json::Object(ms) => {
                proof {
                    assert(decreases_to!(v => ms[i].1));
                }
                match find_by_keys(ms[i].1, keys) {
                    Some(t) => Some(t),
                    None => find_in_children(v, keys, i + 1),
                }
            },
            Json::Array(items) => {
                proof {
                    assert(decreases_to!(v => items[i]));
                }
                match find_by_keys(items[i], keys) {
                    Some(t) => Some(t),
                    None => find_in_children(v, keys, i + 1),
                }
            },
            _ => None,
        }
    }
}

/// The number of members or items of a value.
pub open spec fn children_count(v: Json) -> int {
    match v {
        Json::Object(ms) => ms.len() as int,
        Json::Array(items) => items.len() as int,
        _ => 0,
    }
}

pub open spec fn keys_view(keys: Seq<&str>) -> Seq<Seq<char>> {
    Seq::new(keys.len(), |i: int| keys[i]@)
}

/// The text of a string value.
pub fn value_to_string(value: &JsonValue) -> (r: Option<String>)
    ensures
        opt_view(r) == value.deep().text(),
{
    match value.as_str() {
        Some(s) => Some(owned(s)),
        None => None,
    }
}

fn first_key_text(ms: &Vec<(String, JsonValue)>, keys: &[&str]) -> (r: Option<String>)
    ensures
        opt_view(r) == key_text(members_deep(ms@), keys_view(keys@), 0),
{
    let ghost d = members_deep(ms@);
    let ghost kv = keys_view(keys@);
    let mut i: usize = 0;
    while i < keys.len()
        invariant
            d == members_deep(ms@),
            kv == keys_view(keys@),
            i <= keys@.len(),
            key_text(d, kv, 0) == key_text(d, kv, i as int),
        decreases keys@.len() - i,
    {
        assert(kv[i as int] == keys@[i as int]@);
        match crate::json::find_key(ms, keys[i]) {
            Some(j) => {
                proof {
                    lemma_has_key_pos(d, kv[i as int]);
                }
                match value_to_string(&ms[j].1) {
                    Some(t) => {
                        return Some(t);
                    },
                    None => {},
                }
            },
            None => {},
        }
        i = i + 1;
    }
    None
}

/// The first string found under one of `keys`, depth first.
pub fn find_string_by_keys(value: &JsonValue, keys: &[&str]) -> (r: Option<String>)
    ensures
        opt_view(r) == find_by_keys(value.deep(), keys_view(keys@)),
    decreases value,
{
    let ghost kv = keys_view(keys@);
    match value {
        JsonValue::Object(ms) => {
            proof {
                lemma_deep_object(*ms);
            }
            match first_key_text(ms, keys) {
                Some(t) => return Some(t),
                None => {},
            }
            let ghost v = value.deep();
            assert(find_by_keys(v, kv) == find_in_children(v, kv, 0));
            let mut i: usize = 0;
            while i < ms.len()
                invariant
                    *value == JsonValue::Object(*ms),
                    v == value.deep(),
                    v == Json::Object(members_deep(ms@)),
                    kv == keys_view(keys@),
                    i <= ms@.len(),
                    find_by_keys(v, kv) == find_in_children(v, kv, i as int),
                decreases ms@.len() - i,
            {
                proof {
                    assert(decreases_to!(*value => ms@[i as int].1));
                }
                let found = find_string_by_keys(&ms[i].1, keys);
                assert(members_deep(ms@)[i as int].1 == ms@[i as int].1.deep());
                assert(find_in_children(v, kv, i as int) == match find_by_keys(ms@[i as int].1.deep(), kv) {
                    Some(t) => Some(t),
                    None => find_in_children(v, kv, i + 1),
                });
                if found.is_some() {
                    return found;
                }
                i = i + 1;
            }
            None
        },
        JsonValue::Array(items) => {
            proof {
                lemma_deep_array(*items);
            }
            let ghost v = value.deep();
            assert(find_by_keys(v, kv) == find_in_children(v, kv, 0));
            let mut i: usize = 0;
            while i < items.len()
                invariant
                    *value == JsonValue::Array(*items),
                    v == value.deep(),
                    v == Json::Array(items_deep(items@)),
                    kv == keys_view(keys@),
                    i <= items@.len(),
                    find_by_keys(v, kv) == find_in_children(v, kv, i as int),
                decreases items@.len() - i,
            {
                proof {
                    assert(decreases_to!(*value => items@[i as int]));
                }
                let found = find_string_by_keys(&items[i], keys);
                assert(items_deep(items@)[i as int] == items@[i as int].deep());
                assert(find_in_children(v, kv, i as int) == match find_by_keys(items@[i as int].deep(), kv) {
                    Some(t) => Some(t),
                    None => find_in_children(v, kv, i + 1),
                });
                if found.is_some() {
                    return found;
                }
                i = i + 1;
            }
            None
        },
        _ => None,
    }
}

/// The first string under a `content` key, depth first.
pub fn find_content_string(value: &JsonValue) -> (r: Option<String>)
    ensures
        opt_view(r) == find_by_keys(value.deep(), seq!["content"@]),
{
    let keys: [&str; 1] = ["content"];
    let r = find_string_by_keys(value, keys.as_slice());
    assert(keys_view(keys@) =~= seq!["content"@]);
    r
}


/// The keys that hold a snapshot's HTML.
pub open spec fn html_keys() -> Seq<Seq<char>> {
    seq!["raw"@, "html"@]
}

/// The keys that hold a snapshot's receipt id.
pub open spec fn receipt_keys() -> Seq<Seq<char>> {
    seq!["receipt_id"@, "receiptId"@, "request_id"@, "requestId"@, "id"@]
}

/// The receipt id made up for a snapshot without one.
pub open spec fn fallback_receipt_id(now_millis: u128) -> Seq<char> {
    "snapshot-"@ + decimal(now_millis as nat)
}

/// A receipt id for a snapshot taken at `now_millis`.
pub fn new_receipt_id(now_millis: u128) -> (r: String)
    ensures
        r@ == fallback_receipt_id(now_millis),
{
    let digits = u128_to_decimal(now_millis);
    concat2("snapshot-", digits.as_str())
}

impl SnapshotPayload {
    /// The snapshot in a Spider response: the HTML under `raw` or `html`,
    /// else under `content`; the screenshot; and the receipt id, or one
    /// made from `now_millis`.
    pub fn from_spider_response(source_url: &str, response: &JsonValue, now_millis: u128) -> (r: Result<Self, SnapshotError>)
        ensures
            match find_by_keys(response.deep(), html_keys()) {
                Some(h) => h,
                None => match find_by_keys(response.deep(), seq!["content"@]) {
                    Some(c) => c,
                    None => Seq::empty(),
                },
            } == match r {
                Ok(p) => p.html@,
                Err(_) => Seq::<char>::empty(),
            } || r matches Err(_),
            find_by_keys(response.deep(), html_keys()) is None && find_by_keys(response.deep(), seq!["content"@]) is None
                ==> r matches Err(SnapshotError::MissingHtml),
            (find_by_keys(response.deep(), html_keys()) is Some || find_by_keys(response.deep(), seq!["content"@]) is Some)
                && find_by_keys(response.deep(), seq!["screenshot"@]) is None ==> r matches Err(SnapshotError::MissingScreenshot),
            r matches Ok(p) ==> {
                &&& p.source_url@ == source_url@
                &&& Some(p.html@) == match find_by_keys(response.deep(), html_keys()) {
                    Some(h) => Some(h),
                    None => find_by_keys(response.deep(), seq!["content"@]),
                }
                &&& find_by_keys(response.deep(), seq!["screenshot"@]) == Some(p.screenshot_base64@)
                &&& p.receipt_id@ == match find_by_keys(response.deep(), receipt_keys()) {
                    Some(id) => id,
                    None => fallback_receipt_id(now_millis),
                }
            },
            r is Err ==> r matches Err(SnapshotError::MissingHtml) || r matches Err(SnapshotError::MissingScreenshot),
            (find_by_keys(response.deep(), html_keys()) is Some || find_by_keys(response.deep(), seq!["content"@]) is Some)
                && find_by_keys(response.deep(), seq!["screenshot"@]) is Some ==> r is Ok,
    {
        let html_key_list: [&str; 2] = ["raw", "html"];
        assert(keys_view(html_key_list@) =~= html_keys());
        let html = match find_string_by_keys(response, html_key_list.as_slice()) {
            Some(h) => h,
            None => match find_content_string(response) {
                Some(c) => c,
                None => return Err(SnapshotError::MissingHtml),
            },
        };
        let shot_keys: [&str; 1] = ["screenshot"];
        assert(keys_view(shot_keys@) =~= seq!["screenshot"@]);
        let screenshot_base64 = match find_string_by_keys(response, shot_keys.as_slice()) {
            Some(s) => s,
            None => return Err(SnapshotError::MissingScreenshot),
        };
        let id_keys: [&str; 5] = ["receipt_id", "receiptId", "request_id", "requestId", "id"];
        assert(keys_view(id_keys@) =~= receipt_keys());
        let receipt_id = match find_string_by_keys(response, id_keys.as_slice()) {
            Some(id) => id,
            None => new_receipt_id(now_millis),
        };
        Ok(SnapshotPayload { source_url: owned(source_url), receipt_id, html, screenshot_base64 })
    }

    /// The decoded screenshot.
    pub fn screenshot_bytes(&self) -> (r: Result<Vec<u8>, SnapshotError>)
        ensures
            image_decoded(r, self.screenshot_base64@),
    {
        decode_base64_image(self.screenshot_base64.as_str())
    }
}

/// The base64 part of a screenshot value: after the first comma of the
/// trimmed value, as in a data URL, else the whole trimmed value.
pub open spec fn image_payload(value: Seq<char>) -> Seq<char> {
    let t = trimmed(value);
    match index_of(t, ',') {
        Some(i) => t.skip(i + 1),
        None => t,
    }
}

/// Whether `r` is the decoding of a screenshot value: the first engine of
/// standard, standard without padding, URL-safe, URL-safe without padding
/// that accepts the payload, else the error of the last one.
pub open spec fn image_decoded(r: Result<Vec<u8>, SnapshotError>, value: Seq<char>) -> bool {
    let input = encode_utf8(image_payload(value));
    match r {
        Ok(v) => {
            ||| base64_decoded(Base64Engine::Standard, input) == Ok::<Seq<u8>, Seq<char>>(v@)
            ||| base64_decoded(Base64Engine::Standard, input) is Err && base64_decoded(Base64Engine::StandardNoPad, input)
                == Ok::<Seq<u8>, Seq<char>>(v@)
            ||| base64_decoded(Base64Engine::Standard, input) is Err && base64_decoded(Base64Engine::StandardNoPad, input) is Err
                && base64_decoded(Base64Engine::UrlSafe, input) == Ok::<Seq<u8>, Seq<char>>(v@)
            ||| base64_decoded(Base64Engine::Standard, input) is Err && base64_decoded(Base64Engine::StandardNoPad, input) is Err
                && base64_decoded(Base64Engine::UrlSafe, input) is Err && base64_decoded(Base64Engine::UrlSafeNoPad, input)
                == Ok::<Seq<u8>, Seq<char>>(v@)
        },
        Err(SnapshotError::InvalidScreenshotBase64(m)) => {
            &&& base64_decoded(Base64Engine::Standard, input) is Err
            &&& base64_decoded(Base64Engine::StandardNoPad, input) is Err
            &&& base64_decoded(Base64Engine::UrlSafe, input) is Err
            &&& base64_decoded(Base64Engine::UrlSafeNoPad, input) == Err::<Seq<u8>, Seq<char>>(m@)
        },
        Err(_) => false,
    }
}

/// Cuts text after its first comma.
fn after_first_comma(t: &str) -> (r: Option<String>)
    ensures
        match index_of(t@, ',') {
            Some(i) => r matches Some(s) && s@ == t@.skip(i + 1),
            None => r is None,
        },
{
    let v = chars_of(t);
    let mut i: usize = 0;
    while i < v.len()
        invariant
            v@ == t@,
            i <= v@.len(),
            forall|j: int| 0 <= j < i ==> v@[j] != ',',
        decreases v@.len() - i,
    {
        if v[i] == ',' {
            proof {
                crate::text::lemma_index_of(t@, ',', i as int);
            }
            let rest = string_of(slice_range(&v, i + 1, v.len()).as_slice());
            assert(t@.skip(i + 1) =~= v@.subrange(i + 1, v@.len() as int));
            return Some(rest);
        }
        i = i + 1;
    }
    proof {
        crate::text::lemma_index_of(t@, ',', i as int);
    }
    None
}

/// Decodes a screenshot given as base64 or as a base64 data URL.
pub fn decode_base64_image(value: &str) -> (r: Result<Vec<u8>, SnapshotError>)
    ensures
        image_decoded(r, value@),
{
    let t = trim(value);
    let encoded = match after_first_comma(t.as_str()) {
        Some(rest) => rest,
        None => t,
    };
    let input = encoded.as_str().as_bytes();
    match base64_decode(Base64Engine::Standard, input) {
        Ok(v) => return Ok(v),
        Err(_) => {},
    }
    match base64_decode(Base64Engine::StandardNoPad, input) {
        Ok(v) => return Ok(v),
        Err(_) => {},
    }
    match base64_decode(Base64Engine::UrlSafe, input) {
        Ok(v) => return Ok(v),
        Err(_) => {},
    }
    match base64_decode(Base64Engine::UrlSafeNoPad, input) {
        Ok(v) => Ok(v),
        Err(m) => Err(SnapshotError::InvalidScreenshotBase64(m)),
    }
}

// ---------------------------------------------------------------------
// The upload key.

/// The hex text of the key: trimmed, without a leading `0x`.
pub open spec fn key_hex(raw: Seq<char>) -> Seq<char> {
    let t = trimmed(raw);
    if has_prefix(t, "0x"@) {
        t.skip(2)
    } else {
        t
    }
}

/// What the two-byte chunks of the key give, from chunk `i` on: the bytes,
/// or the first error's message.
pub open spec fn key_chunks(b: Seq<u8>, i: int) -> Result<Seq<u8>, Seq<char>>
    decreases 32 - i,
{
    if i < 0 || i >= 32 {
        Ok(Seq::empty())
    } else {
        let chunk = b.subrange(2 * i, 2 * i + 2);
        if !valid_utf8(chunk) {
            Err(utf8_error_text(chunk))
        } else {
            match parse_unsigned_spec(decode_utf8(chunk), 16, 255) {
                Err(k) => Err(int_error_text(k)),
                Ok(v) => match key_chunks(b, i + 1) {
                    Err(m) => Err(m),
                    Ok(rest) => Ok(seq![v as u8] + rest),
                },
            }
        }
    }
}

/// The Ethereum key from `AR_UPLOAD_ETH_PRIVATE_KEY`: 64 hex digits after
/// trimming and an optional `0x`, read two bytes at a time.
pub open spec fn private_key_spec(raw: Option<String>) -> Result<Seq<u8>, Seq<char>> {
    match raw {
        None => Err("AR_UPLOAD_ETH_PRIVATE_KEY is not set"@),
        Some(k) => {
            let b = encode_utf8(key_hex(k@));
            if b.len() != 64 {
                Err("invalid Ethereum private key: "@ + "expected 32-byte hex string"@)
            } else {
                match key_chunks(b, 0) {
                    Ok(v) => Ok(v),
                    Err(m) => Err("invalid Ethereum private key: "@ + m),
                }
            }
        },
    }
}

/// The outcome of reading the key, by content; errors by message.
pub open spec fn key_outcome(r: Result<Vec<u8>, SnapshotError>) -> Result<Seq<u8>, Seq<char>> {
    match r {
        Ok(v) => Ok(v@),
        Err(e) => Err(snapshot_error_text(e)),
    }
}

/// Reads the 32-byte upload key from the variable's raw value.
pub fn parse_private_key(raw: &Option<String>) -> (r: Result<Vec<u8>, SnapshotError>)
    ensures
        key_outcome(r) == private_key_spec(*raw),
        r matches Err(e) ==> (e is MissingPrivateKey || e is InvalidPrivateKey),
{
    let k = match raw {
        Some(k) => k,
        None => return Err(SnapshotError::MissingPrivateKey),
    };
    let t = trim(k.as_str());
    proof {
        reveal_strlit("0x");
    }
    let key = if starts_with(t.as_str(), "0x") {
        let v = chars_of(t.as_str());
        let rest = string_of(slice_range(&v, 2, v.len()).as_slice());
        assert(rest@ =~= trimmed(k@).skip(2));
        rest
    } else {
        t
    };
    let bytes = key.as_str().as_bytes();
    if bytes.len() != 64 {
        let e = SnapshotError::InvalidPrivateKey(owned("expected 32-byte hex string"));
        return Err(e);
    }
    let ghost b = bytes@;
    let mut out: Vec<u8> = Vec::new();
    let mut i: usize = 0;
    proof {
        match key_chunks(b, 0) {
            Ok(rest) => {
                assert(out@ + rest =~= rest);
            },
            Err(_) => {},
        }
    }
    while i < 32
        invariant
            b == bytes@,
            b.len() == 64,
            raw matches Some(kk) && encode_utf8(key_hex(kk@)) == b,
            i <= 32,
            out@.len() == i,
            key_chunks(b, 0) == match key_chunks(b, i as int) {
                Ok(rest) => Ok(out@ + rest),
                Err(m) => Err::<Seq<u8>, Seq<char>>(m),
            },
        decreases 32 - i,
    {
        let chunk = slice_bytes(bytes, 2 * i, 2 * i + 2);
        match utf8_text(chunk.as_slice()) {
            Err(m) => {
                return Err(SnapshotError::InvalidPrivateKey(m));
            },
            Ok(hex) => {
                match parse_unsigned(hex.as_str(), 16, 255) {
                    Err(kind) => {
                        return Err(SnapshotError::InvalidPrivateKey(int_error_message(kind)));
                    },
                    Ok(v) => {
                        proof {
                            let ghost rest = key_chunks(b, i + 1);
                            match rest {
                                Ok(r2) => {
                                    assert(out@ + (seq![v as u8] + r2) =~= out@.push(v as u8) + r2);
                                },
                                Err(_) => {},
                            }
                        }
                        out.push(v as u8);
                    },
                }
            },
        }
        i = i + 1;
    }
    assert(out@ + Seq::<u8>::empty() =~= out@);
    Ok(out)
}

/// The bytes from `i` up to `k`.
fn slice_bytes(b: &[u8], i: usize, k: usize) -> (r: Vec<u8>)
    requires
        i <= k <= b@.len(),
    ensures
        r@ == b@.subrange(i as int, k as int),
{
    let mut r: Vec<u8> = Vec::new();
    let mut j: usize = i;
    while j < k
        invariant
            i <= j <= k <= b@.len(),
            r@ == b@.subrange(i as int, j as int),
        decreases k - j,
    {
        r.push(b[j]);
        j = j + 1;
        assert(r@ =~= b@.subrange(i as int, j as int));
    }
    r
}

/// The tags of an uploaded snapshot item, in order.
pub open spec fn snapshot_tags_spec(content_type: Seq<char>, kind: Seq<char>, source_url: Seq<char>, receipt_id: Seq<char>) -> Seq<(Seq<char>, Seq<char>)> {
    seq![
        ("Content-Type"@, content_type),
        ("App-Name"@, "livy-resolver"@),
        ("Snapshot-Kind"@, kind),
        ("Source-URL"@, source_url),
        ("Receipt-ID"@, receipt_id),
    ]
}

/// One tag.
pub fn tag(name: &str, value: &str) -> (r: (String, String))
    ensures
        r.0@ == name@,
        r.1@ == value@,
{
    (owned(name), owned(value))
}

/// The tags of an uploaded snapshot item.
pub fn snapshot_tags(content_type: &str, snapshot_kind: &str, source_url: &str, receipt_id: &str) -> (r: Vec<(String, String)>)
    ensures
        r@.map_values(|t: (String, String)| (t.0@, t.1@)) == snapshot_tags_spec(content_type@, snapshot_kind@, source_url@, receipt_id@),
{
    let r = vec![
        tag("Content-Type", content_type),
        tag("App-Name", APP_NAME),
        tag("Snapshot-Kind", snapshot_kind),
        tag("Source-URL", source_url),
        tag("Receipt-ID", receipt_id),
    ];
    assert(r@.map_values(|t: (String, String)| (t.0@, t.1@)) =~= snapshot_tags_spec(content_type@, snapshot_kind@, source_url@, receipt_id@));
    r
}

} // verus!
