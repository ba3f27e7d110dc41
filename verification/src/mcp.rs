//! MCP tool metadata for exact source fetching, and the rewriting of
//! `tools/list` replies that adds connector metadata.

use vstd::prelude::*;
use crate::json::{
    Json, JsonValue, array, contains_key, find_key, has_key, insert, insert_member, is_first_key,
    items_deep, key_pos, lemma_deep_array, lemma_deep_object, lemma_first_key_unique,
    lemma_has_key_pos, lemma_insert_member, lemma_insert_same, lemma_lookup_has_key, lookup,
    members_deep, object, opt_deep, pair, signed_json, signed_number,
};
use crate::encode::{encode_json, json_text};
use crate::env::opt_view;
use crate::text::{
    chars_of, has_prefix, i64_to_decimal, owned, push_str, signed_decimal, slice_range,
    split_inclusive_char, split_inclusive_on, starts_with, str_eq, string_of, trim_end_char,
    trim_end_matches_char, trim_start, trim_start_str, u64_to_decimal,
    lemma_split_inclusive_flatten,
};
use crate::types::{FetchWithReceipt, Receipt};

verus! {

/// Title shown for the `fetch_source` tool.
pub const FETCH_SOURCE_TITLE: &'static str = "Fetch Source";

/// Title hint in the annotations of the `fetch_source` tool.
pub const FETCH_SOURCE_ANNOTATION_TITLE: &'static str = "Fetch exact source URL";

/// Status text while the tool runs.
pub const FETCH_SOURCE_INVOCATION_START: &'static str = "Fetching source";

/// Status text once the tool has run.
pub const FETCH_SOURCE_INVOCATION_DONE: &'static str = "Source fetched";

/// Largest MCP body that the compatibility layer reads.
pub const MCP_COMPAT_BODY_LIMIT: usize = 1048576;

/// Input of the `fetch_source` tool.
pub struct Params {
    /// The exact source URL from the user prompt.
    pub url: String,
}

pub open spec fn visibility_json() -> Json {
    Json::Array(seq![Json::Str("model"@), Json::Str("app"@)])
}

pub open spec fn security_schemes_json() -> Json {
    Json::Array(
        seq![
            Json::Object(
                seq![
                    ("type"@, Json::Str("oauth2"@)),
                    ("scopes"@, Json::Array(seq![Json::Str("tool:fetch_source"@)])),
                ],
            ),
        ],
    )
}

/// One property of the output schema.
pub open spec fn property_json(kind: Seq<char>, description: Seq<char>) -> Json {
    Json::Object(seq![("type"@, Json::Str(kind)), ("description"@, Json::Str(description))])
}

pub open spec fn output_schema_json() -> Json {
    Json::Object(
        seq![
            ("$schema"@, Json::Str("https://json-schema.org/draft/2020-12/schema"@)),
            ("type"@, Json::Str("object"@)),
            (
                "properties"@,
                Json::Object(
                    seq![
                        ("receipt_id"@, property_json("string"@, "Livy resolver receipt id for this fetch."@)),
                        ("source_url"@, property_json("string"@, "The exact URL that was fetched."@)),
                        ("status"@, property_json("integer"@, "Upstream HTTP status code when available."@)),
                        (
                            "fetch_elapsed_ms"@,
                            property_json("integer"@, "Elapsed upstream fetch time in milliseconds when available."@),
                        ),
                        (
                            "content_bytes"@,
                            property_json("integer"@, "Extracted content size in bytes when available."@),
                        ),
                        ("text"@, property_json("string"@, "Fetched source text or serialized upstream payload."@)),
                    ],
                ),
            ),
            (
                "required"@,
                Json::Array(seq![Json::Str("receipt_id"@), Json::Str("source_url"@), Json::Str("text"@)]),
            ),
            ("additionalProperties"@, Json::Bool(false)),
        ],
    )
}

/// The input schema of the tool: one required string, the exact URL.
pub open spec fn input_schema_json() -> Json {
    Json::Object(
        seq![
            ("type"@, Json::Str("object"@)),
            (
                "properties"@,
                Json::Object(
                    seq![
                        (
                            "url"@,
                            property_json(
                                "string"@,
                                "The exact source URL from the user prompt. Do not replace it with a search query or another URL."@,
                            ),
                        ),
                    ],
                ),
            ),
            ("required"@, Json::Array(seq![Json::Str("url"@)])),
            ("additionalProperties"@, Json::Bool(false)),
        ],
    )
}

/// The `_meta` members that the tool advertises.
pub open spec fn tool_meta_json() -> Seq<(Seq<char>, Json)> {
    seq![
        ("securitySchemes"@, security_schemes_json()),
        ("ui"@, Json::Object(seq![("visibility"@, visibility_json())])),
        ("openai/visibility"@, Json::Str("public"@)),
        ("openai/toolInvocation/invoking"@, Json::Str("Fetching source"@)),
        ("openai/toolInvocation/invoked"@, Json::Str("Source fetched"@)),
    ]
}

/// Client visibility of the tool: both the model and the app.
pub fn chatgpt_tool_visibility() -> (r: JsonValue)
    ensures
        r.deep() == visibility_json(),
{
    let v = vec![JsonValue::string("model"), JsonValue::string("app")];
    assert(items_deep(v@) =~= seq![Json::Str("model"@), Json::Str("app"@)]);
    array(v)
}

/// The OAuth security scheme of the tool.
pub fn fetch_source_security_schemes() -> (r: JsonValue)
    ensures
        r.deep() == security_schemes_json(),
{
    let scopes = vec![JsonValue::string("tool:fetch_source")];
    assert(items_deep(scopes@) =~= seq![Json::Str("tool:fetch_source"@)]);
    let ms = vec![pair("type", JsonValue::string("oauth2")), pair("scopes", array(scopes))];
    assert(members_deep(ms@) =~= seq![
        ("type"@, Json::Str("oauth2"@)),
        ("scopes"@, Json::Array(seq![Json::Str("tool:fetch_source"@)])),
    ]);
    let scheme = object(ms);
    let ghost g = scheme.deep();
    let v = vec![scheme];
    assert(items_deep(v@) =~= seq![g]);
    array(v)
}

fn property(kind: &str, description: &str) -> (r: JsonValue)
    ensures
        r.deep() == property_json(kind@, description@),
{
    let ms = vec![pair("type", JsonValue::string(kind)), pair("description", JsonValue::string(description))];
    assert(members_deep(ms@) =~= seq![("type"@, Json::Str(kind@)), ("description"@, Json::Str(description@))]);
    object(ms)
}

/// The input schema of the tool.
pub fn fetch_source_input_schema() -> (r: JsonValue)
    ensures
        r.deep() == input_schema_json(),
{
    let props = vec![
        pair(
            "url",
            property(
                "string",
                "The exact source URL from the user prompt. Do not replace it with a search query or another URL.",
            ),
        ),
    ];
    let ghost pd = members_deep(props@);
    let required = vec![JsonValue::string("url")];
    let ghost rd = items_deep(required@);
    let ms = vec![
        pair("type", JsonValue::string("object")),
        pair("properties", object(props)),
        pair("required", array(required)),
        pair("additionalProperties", JsonValue::Bool(false)),
    ];
    assert(pd =~= seq![
        (
            "url"@,
            property_json(
                "string"@,
                "The exact source URL from the user prompt. Do not replace it with a search query or another URL."@,
            ),
        ),
    ]);
    assert(rd =~= seq![Json::Str("url"@)]);
    assert(members_deep(ms@) =~= match input_schema_json() {
        Json::Object(m) => m,
        _ => Seq::empty(),
    });
    object(ms)
}

/// The structured output schema of the tool.
pub fn fetch_source_output_schema() -> (r: JsonValue)
    ensures
        r.deep() == output_schema_json(),
{
    let p0 = property("string", "Livy resolver receipt id for this fetch.");
    let p1 = property("string", "The exact URL that was fetched.");
    let p2 = property("integer", "Upstream HTTP status code when available.");
    let p3 = property("integer", "Elapsed upstream fetch time in milliseconds when available.");
    let p4 = property("integer", "Extracted content size in bytes when available.");
    let p5 = property("string", "Fetched source text or serialized upstream payload.");
    let props = vec![
        pair("receipt_id", p0),
        pair("source_url", p1),
        pair("status", p2),
        pair("fetch_elapsed_ms", p3),
        pair("content_bytes", p4),
        pair("text", p5),
    ];
    let ghost gp = members_deep(props@);
    assert(gp =~= seq![
        ("receipt_id"@, property_json("string"@, "Livy resolver receipt id for this fetch."@)),
        ("source_url"@, property_json("string"@, "The exact URL that was fetched."@)),
        ("status"@, property_json("integer"@, "Upstream HTTP status code when available."@)),
        ("fetch_elapsed_ms"@, property_json("integer"@, "Elapsed upstream fetch time in milliseconds when available."@)),
        ("content_bytes"@, property_json("integer"@, "Extracted content size in bytes when available."@)),
        ("text"@, property_json("string"@, "Fetched source text or serialized upstream payload."@)),
    ]);
    let required = vec![
        JsonValue::string("receipt_id"),
        JsonValue::string("source_url"),
        JsonValue::string("text"),
    ];
    assert(items_deep(required@) =~= seq![Json::Str("receipt_id"@), Json::Str("source_url"@), Json::Str("text"@)]);
    let ms = vec![
        pair("$schema", JsonValue::string("https://json-schema.org/draft/2020-12/schema")),
        pair("type", JsonValue::string("object")),
        pair("properties", object(props)),
        pair("required", array(required)),
        pair("additionalProperties", JsonValue::Bool(false)),
    ];
    assert(members_deep(ms@) =~= match output_schema_json() {
        Json::Object(m) => m,
        _ => Seq::empty(),
    });
    object(ms)
}

/// The `_meta` members of the tool descriptor.
pub fn fetch_source_tool_meta() -> (r: Vec<(String, JsonValue)>)
    ensures
        members_deep(r@) == tool_meta_json(),
{
    let ui_members = vec![pair("visibility", chatgpt_tool_visibility())];
    assert(members_deep(ui_members@) =~= seq![("visibility"@, visibility_json())]);
    let r = vec![
        pair("securitySchemes", fetch_source_security_schemes()),
        pair("ui", object(ui_members)),
        pair("openai/visibility", JsonValue::string("public")),
        pair("openai/toolInvocation/invoking", JsonValue::string(FETCH_SOURCE_INVOCATION_START)),
        pair("openai/toolInvocation/invoked", JsonValue::string(FETCH_SOURCE_INVOCATION_DONE)),
    ];
    assert(members_deep(r@) =~= tool_meta_json());
    r
}


/// The annotations of the tool descriptor: its title hint, and that it
/// only reads, destroys nothing, may be repeated, and reaches the open web.
pub open spec fn annotations_json() -> Json {
    Json::Object(
        seq![
            ("title"@, Json::Str("Fetch exact source URL"@)),
            ("readOnlyHint"@, Json::Bool(true)),
            ("destructiveHint"@, Json::Bool(false)),
            ("idempotentHint"@, Json::Bool(true)),
            ("openWorldHint"@, Json::Bool(true)),
        ],
    )
}

/// The annotations of the tool descriptor.
pub fn fetch_source_annotations() -> (r: JsonValue)
    ensures
        r.deep() == annotations_json(),
{
    let ms = vec![
        pair("title", JsonValue::string(FETCH_SOURCE_ANNOTATION_TITLE)),
        pair("readOnlyHint", JsonValue::Bool(true)),
        pair("destructiveHint", JsonValue::Bool(false)),
        pair("idempotentHint", JsonValue::Bool(true)),
        pair("openWorldHint", JsonValue::Bool(true)),
    ];
    assert(members_deep(ms@) =~= match annotations_json() {
        Json::Object(m) => m,
        _ => Seq::empty(),
    });
    object(ms)
}

pub open spec fn empty_object() -> Json {
    Json::Object(Seq::empty())
}

/// Members after adding `key` with `v` when it is missing, and whether
/// anything was added.
pub open spec fn add_missing(ms: Seq<(Seq<char>, Json)>, key: Seq<char>, v: Json) -> (
    Seq<(Seq<char>, Json)>,
    bool,
) {
    if has_key(ms, key) {
        (ms, false)
    } else {
        (insert_member(ms, key, v), true)
    }
}

/// Members after making sure `key` exists, an empty object by default.
pub open spec fn with_entry(ms: Seq<(Seq<char>, Json)>, key: Seq<char>) -> Seq<(Seq<char>, Json)> {
    if has_key(ms, key) {
        ms
    } else {
        insert_member(ms, key, empty_object())
    }
}

pub open spec fn enrich_ui(ui: Json) -> (Json, bool) {
    match ui {
        Json::Object(ms) => {
            let (m, c) = add_missing(ms, "visibility"@, visibility_json());
            (Json::Object(m), c)
        },
        _ => (ui, false),
    }
}

pub open spec fn enrich_meta(meta: Json) -> (Json, bool) {
    match meta {
        Json::Object(ms) => {
            let m0 = with_entry(ms, "ui"@);
            let (ui, c0) = enrich_ui(lookup(m0, "ui"@).unwrap());
            let m1 = insert_member(m0, "ui"@, ui);
            let (m2, c1) = add_missing(m1, "securitySchemes"@, security_schemes_json());
            let (m3, c2) = add_missing(m2, "openai/toolInvocation/invoking"@, Json::Str("Fetching source"@));
            let (m4, c3) = add_missing(m3, "openai/toolInvocation/invoked"@, Json::Str("Source fetched"@));
            let (m5, c4) = add_missing(m4, "openai/visibility"@, Json::Str("public"@));
            (Json::Object(m5), c0 || c1 || c2 || c3 || c4)
        },
        _ => (meta, false),
    }
}

pub open spec fn enrich_annotations(annotations: Json) -> (Json, bool) {
    match annotations {
        Json::Object(ms) => {
            let (m1, c1) = add_missing(ms, "title"@, Json::Str("Fetch exact source URL"@));
            let (m2, c2) = add_missing(m1, "readOnlyHint"@, Json::Bool(true));
            let (m3, c3) = add_missing(m2, "destructiveHint"@, Json::Bool(false));
            let (m4, c4) = add_missing(m3, "idempotentHint"@, Json::Bool(true));
            let (m5, c5) = add_missing(m4, "openWorldHint"@, Json::Bool(true));
            (Json::Object(m5), c1 || c2 || c3 || c4 || c5)
        },
        _ => (annotations, false),
    }
}

/// The descriptor members of the `fetch_source` tool after adding the
/// title, output schema, `_meta` entries and annotations it lacks.
pub open spec fn enrich_fetch_source(ms: Seq<(Seq<char>, Json)>) -> (Seq<(Seq<char>, Json)>, bool) {
    let (m1, c1) = add_missing(ms, "title"@, Json::Str("Fetch Source"@));
    let (m2, c2) = add_missing(m1, "outputSchema"@, output_schema_json());
    let m3 = with_entry(m2, "_meta"@);
    let (meta, c3) = enrich_meta(lookup(m3, "_meta"@).unwrap());
    let m4 = insert_member(m3, "_meta"@, meta);
    let m5 = with_entry(m4, "annotations"@);
    let (ann, c4) = enrich_annotations(lookup(m5, "annotations"@).unwrap());
    let m6 = insert_member(m5, "annotations"@, ann);
    (m6, c1 || c2 || c3 || c4)
}

/// Copies `_meta.securitySchemes` to the top level of a descriptor that
/// lacks it there.
pub open spec fn mirror_schemes(ms: Seq<(Seq<char>, Json)>) -> (Seq<(Seq<char>, Json)>, bool) {
    if has_key(ms, "securitySchemes"@) {
        (ms, false)
    } else {
        match lookup(ms, "_meta"@) {
            Some(meta) => match meta.member("securitySchemes"@) {
                Some(schemes) => (insert_member(ms, "securitySchemes"@, schemes), true),
                None => (ms, false),
            },
            None => (ms, false),
        }
    }
}

/// Whether a descriptor's `name` is the string `fetch_source`.
pub open spec fn names_fetch_source(ms: Seq<(Seq<char>, Json)>) -> bool {
    match lookup(ms, "name"@) {
        Some(name) => name.text() == Some("fetch_source"@),
        None => false,
    }
}

/// One tool descriptor after enrichment.
pub open spec fn enrich_tool(tool: Json) -> (Json, bool) {
    match tool {
        Json::Object(ms) => {
            let (m1, c1) = if names_fetch_source(ms) {
                enrich_fetch_source(ms)
            } else {
                (ms, false)
            };
            let (m2, c2) = mirror_schemes(m1);
            (Json::Object(m2), c1 || c2)
        },
        _ => (tool, false),
    }
}

/// Every tool descriptor after enrichment.
pub open spec fn enrich_tools(tools: Seq<Json>) -> (Seq<Json>, bool) {
    (
        Seq::new(tools.len(), |i: int| enrich_tool(tools[i]).0),
        exists|i: int| 0 <= i < tools.len() && (#[trigger] enrich_tool(tools[i])).1,
    )
}

/// A `tools/list` reply after enrichment of `result.tools`; replies of
/// another shape are left as they are.
pub open spec fn enrich_message(message: Json) -> (Json, bool) {
    match message {
        Json::Object(ms) => match lookup(ms, "result"@) {
            Some(Json::Object(rms)) => match lookup(rms, "tools"@) {
                Some(Json::Array(tools)) => {
                    let (t, c) = enrich_tools(tools);
                    (
                        Json::Object(
                            insert_member(
                                ms,
                                "result"@,
                                Json::Object(insert_member(rms, "tools"@, Json::Array(t))),
                            ),
                        ),
                        c,
                    )
                },
                _ => (message, false),
            },
            _ => (message, false),
        },
        _ => (message, false),
    }
}

/// Setting the value at the first position of a name is `insert_member`.
proof fn lemma_update_first(d: Seq<(Seq<char>, Json)>, key: Seq<char>, i: int, v: Json)
    requires
        is_first_key(d, key, i),
    ensures
        insert_member(d, key, v) == d.update(i, (key, v)),
{
    lemma_has_key_pos(d, key);
    lemma_first_key_unique(d, key, i, key_pos(d, key).unwrap());
}

/// Putting a member back where it was taken from replaces its value.
proof fn lemma_put_back(ms: Seq<(String, JsonValue)>, i: int, k: String, v: JsonValue)
    requires
        0 <= i < ms.len(),
    ensures
        members_deep(ms.remove(i).insert(i, (k, v))) == members_deep(ms).update(i, (k@, v.deep())),
{
    assert(members_deep(ms.remove(i).insert(i, (k, v))) =~= members_deep(ms).update(i, (k@, v.deep())));
}

fn add_missing_member(ms: &mut Vec<(String, JsonValue)>, key: &str, value: JsonValue) -> (c: bool)
    ensures
        (members_deep(final(ms)@), c) == add_missing(members_deep(old(ms)@), key@, value.deep()),
{
    if contains_key(ms, key) {
        false
    } else {
        insert(ms, owned(key), value);
        true
    }
}

/// Makes sure `key` exists and gives its position.
fn entry_position(ms: &mut Vec<(String, JsonValue)>, key: &str) -> (i: usize)
    ensures
        members_deep(final(ms)@) == with_entry(members_deep(old(ms)@), key@),
        is_first_key(members_deep(final(ms)@), key@, i as int),
{
    if !contains_key(ms, key) {
        insert(ms, owned(key), object(Vec::new()));
        proof {
            assert(members_deep(Seq::<(String, JsonValue)>::empty()) =~= Seq::empty());
            crate::json::lemma_insert_member(members_deep(old(ms)@), key@, empty_object(), key@);
        }
    }
    proof {
        lemma_has_key_pos(members_deep(ms@), key@);
    }
    match find_key(ms, key) {
        Some(i) => {
            proof {
                lemma_has_key_pos(members_deep(ms@), key@);
            }
            i
        },
        None => {
            proof {
                crate::json::lemma_insert_member(members_deep(old(ms)@), key@, empty_object(), key@);
            }
            0
        },
    }
}

fn enrich_ui_value(ui: JsonValue) -> (r: (JsonValue, bool))
    ensures
        (r.0.deep(), r.1) == enrich_ui(ui.deep()),
{
    match ui {
        JsonValue::Object(mut ms) => {
            proof {
                lemma_deep_object(ms);
            }
            let c = add_missing_member(&mut ms, "visibility", chatgpt_tool_visibility());
            (object(ms), c)
        },
        other => (other, false),
    }
}

fn enrich_meta_value(meta: JsonValue) -> (r: (JsonValue, bool))
    ensures
        (r.0.deep(), r.1) == enrich_meta(meta.deep()),
{
    match meta {
        JsonValue::Object(mut ms) => {
            proof {
                lemma_deep_object(ms);
            }
            let i = entry_position(&mut ms, "ui");
            let ghost m0 = members_deep(ms@);
            let ghost before = ms@;
            let (k, ui) = ms.remove(i);
            let (ui2, c0) = enrich_ui_value(ui);
            ms.insert(i, (k, ui2));
            proof {
                lemma_put_back(before, i as int, k, ui2);
                lemma_update_first(m0, "ui"@, i as int, ui2.deep());
            }
            let c1 = add_missing_member(&mut ms, "securitySchemes", fetch_source_security_schemes());
            let c2 = add_missing_member(
                &mut ms,
                "openai/toolInvocation/invoking",
                JsonValue::string(FETCH_SOURCE_INVOCATION_START),
            );
            let c3 = add_missing_member(
                &mut ms,
                "openai/toolInvocation/invoked",
                JsonValue::string(FETCH_SOURCE_INVOCATION_DONE),
            );
            let c4 = add_missing_member(&mut ms, "openai/visibility", JsonValue::string("public"));
            (object(ms), c0 || c1 || c2 || c3 || c4)
        },
        other => (other, false),
    }
}

fn enrich_annotations_value(annotations: JsonValue) -> (r: (JsonValue, bool))
    ensures
        (r.0.deep(), r.1) == enrich_annotations(annotations.deep()),
{
    match annotations {
        JsonValue::Object(mut ms) => {
            proof {
                lemma_deep_object(ms);
            }
            let c1 = add_missing_member(&mut ms, "title", JsonValue::string(FETCH_SOURCE_ANNOTATION_TITLE));
            let c2 = add_missing_member(&mut ms, "readOnlyHint", JsonValue::Bool(true));
            let c3 = add_missing_member(&mut ms, "destructiveHint", JsonValue::Bool(false));
            let c4 = add_missing_member(&mut ms, "idempotentHint", JsonValue::Bool(true));
            let c5 = add_missing_member(&mut ms, "openWorldHint", JsonValue::Bool(true));
            (object(ms), c1 || c2 || c3 || c4 || c5)
        },
        other => (other, false),
    }
}

fn enrich_fetch_source_members(ms: &mut Vec<(String, JsonValue)>) -> (c: bool)
    ensures
        (members_deep(final(ms)@), c) == enrich_fetch_source(members_deep(old(ms)@)),
{
    let c1 = add_missing_member(ms, "title", JsonValue::string(FETCH_SOURCE_TITLE));
    let c2 = add_missing_member(ms, "outputSchema", fetch_source_output_schema());
    let i = entry_position(ms, "_meta");
    let ghost m3 = members_deep(ms@);
    let ghost before = ms@;
    let (k, meta) = ms.remove(i);
    let (meta2, c3) = enrich_meta_value(meta);
    ms.insert(i, (k, meta2));
    proof {
        lemma_put_back(before, i as int, k, meta2);
        lemma_update_first(m3, "_meta"@, i as int, meta2.deep());
    }
    let j = entry_position(ms, "annotations");
    let ghost m5 = members_deep(ms@);
    let ghost before2 = ms@;
    let (k2, ann) = ms.remove(j);
    let (ann2, c4) = enrich_annotations_value(ann);
    ms.insert(j, (k2, ann2));
    proof {
        lemma_put_back(before2, j as int, k2, ann2);
        lemma_update_first(m5, "annotations"@, j as int, ann2.deep());
    }
    c1 || c2 || c3 || c4
}

fn mirror_schemes_members(ms: &mut Vec<(String, JsonValue)>) -> (c: bool)
    ensures
        (members_deep(final(ms)@), c) == mirror_schemes(members_deep(old(ms)@)),
{
    if contains_key(ms, "securitySchemes") {
        return false;
    }
    let schemes = match find_key(ms, "_meta") {
        Some(i) => {
            proof {
                lemma_has_key_pos(members_deep(ms@), "_meta"@);
            }
            match ms[i].1.get("securitySchemes") {
                Some(s) => Some(s.duplicate()),
                None => None,
            }
        },
        None => None,
    };
    match schemes {
        Some(s) => {
            insert(ms, owned("securitySchemes"), s);
            true
        },
        None => false,
    }
}

fn enrich_tool_value(tool: JsonValue) -> (r: (JsonValue, bool))
    ensures
        (r.0.deep(), r.1) == enrich_tool(tool.deep()),
{
    match tool {
        JsonValue::Object(mut ms) => {
            proof {
                lemma_deep_object(ms);
            }
            let is_fetch_source = match find_key(&ms, "name") {
                Some(i) => {
                    proof {
                        lemma_has_key_pos(members_deep(ms@), "name"@);
                    }
                    match ms[i].1.as_str() {
                        Some(name) => crate::text::str_eq(name, "fetch_source"),
                        None => false,
                    }
                },
                None => false,
            };
            let c1 = if is_fetch_source {
                enrich_fetch_source_members(&mut ms)
            } else {
                false
            };
            let c2 = mirror_schemes_members(&mut ms);
            (object(ms), c1 || c2)
        },
        other => (other, false),
    }
}

fn enrich_tool_list(tools: &mut Vec<JsonValue>) -> (c: bool)
    ensures
        (items_deep(final(tools)@), c) == enrich_tools(items_deep(old(tools)@)),
{
    let ghost orig = items_deep(tools@);
    let mut changed = false;
    let mut i: usize = 0;
    while i < tools.len()
        invariant
            i <= tools@.len(),
            tools@.len() == orig.len(),
            forall|j: int| 0 <= j < i ==> (#[trigger] tools@[j]).deep() == enrich_tool(orig[j]).0,
            forall|j: int| i <= j < tools@.len() ==> (#[trigger] tools@[j]).deep() == orig[j],
            changed == exists|j: int| 0 <= j < i && (#[trigger] enrich_tool(orig[j])).1,
        decreases tools@.len() - i,
    {
        let t = tools.remove(i);
        let (t2, c) = enrich_tool_value(t);
        tools.insert(i, t2);
        proof {
            if c {
                assert(enrich_tool(orig[i as int]).1);
            }
            if changed || c {
                assert(exists|j: int| 0 <= j < i + 1 && (#[trigger] enrich_tool(orig[j])).1);
            } else {
                assert(!exists|j: int| 0 <= j < i + 1 && (#[trigger] enrich_tool(orig[j])).1) by {
                    if exists|j: int| 0 <= j < i + 1 && (#[trigger] enrich_tool(orig[j])).1 {
                        let j = choose|j: int| 0 <= j < i + 1 && (#[trigger] enrich_tool(orig[j])).1;
                        if j < i {
                        } else {
                            assert(j == i);
                        }
                    }
                }
            }
        }
        changed = changed || c;
        i = i + 1;
    }
    assert(items_deep(tools@) =~= enrich_tools(orig).0);
    changed
}

/// Adds connector metadata to the tool descriptors of a `tools/list`
/// reply, and tells whether anything changed.
pub fn enrich_tools_list_message_for_chatgpt(message: &mut JsonValue) -> (changed: bool)
    ensures
        (final(message).deep(), changed) == enrich_message(old(message).deep()),
{
    let mut taken = JsonValue::Null;
    std::mem::swap(&mut taken, message);
    let (result, changed) = enrich_message_value(taken);
    *message = result;
    changed
}

fn enrich_message_value(message: JsonValue) -> (r: (JsonValue, bool))
    ensures
        (r.0.deep(), r.1) == enrich_message(message.deep()),
{
    match message {
        JsonValue::Object(mut ms) => {
            proof {
                lemma_deep_object(ms);
            }
            let i = match find_key(&ms, "result") {
                Some(i) => i,
                None => {
                    return (object(ms), false);
                },
            };
            proof {
                lemma_has_key_pos(members_deep(ms@), "result"@);
            }
            let ghost d = members_deep(ms@);
            let ghost before = ms@;
            let (k, result) = ms.remove(i);
            match result {
                JsonValue::Object(mut rms) => {
                    proof {
                        lemma_deep_object(rms);
                    }
                    let j = match find_key(&rms, "tools") {
                        Some(j) => j,
                        None => {
                            let restored = object(rms);
                            ms.insert(i, (k, restored));
                            proof {
                                lemma_put_back(before, i as int, k, restored);
                                assert(members_deep(ms@) =~= d);
                            }
                            return (object(ms), false);
                        },
                    };
                    proof {
                        lemma_has_key_pos(members_deep(rms@), "tools"@);
                    }
                    let ghost rd = members_deep(rms@);
                    let ghost rbefore = rms@;
                    let (tk, tools) = rms.remove(j);
                    match tools {
                        JsonValue::Array(mut items) => {
                            proof {
                                lemma_deep_array(items);
                            }
                            let c = enrich_tool_list(&mut items);
                            let tools2 = crate::json::array(items);
                            rms.insert(j, (tk, tools2));
                            proof {
                                lemma_put_back(rbefore, j as int, tk, tools2);
                                lemma_update_first(rd, "tools"@, j as int, tools2.deep());
                            }
                            let result2 = object(rms);
                            ms.insert(i, (k, result2));
                            proof {
                                lemma_put_back(before, i as int, k, result2);
                                lemma_update_first(d, "result"@, i as int, result2.deep());
                            }
                            (object(ms), c)
                        },
                        other => {
                            rms.insert(j, (tk, other));
                            proof {
                                lemma_put_back(rbefore, j as int, tk, other);
                                assert(members_deep(rms@) =~= rd);
                            }
                            let restored = object(rms);
                            ms.insert(i, (k, restored));
                            proof {
                                lemma_put_back(before, i as int, k, restored);
                                assert(members_deep(ms@) =~= d);
                            }
                            (object(ms), false)
                        },
                    }
                },
                other => {
                    ms.insert(i, (k, other));
                    proof {
                        lemma_put_back(before, i as int, k, other);
                        assert(members_deep(ms@) =~= d);
                    }
                    (object(ms), false)
                },
            }
        },
        other => (other, false),
    }
}

/// The scopes that the `fetch_source` tool requires.
pub open spec fn fetch_source_scopes_spec() -> Seq<Seq<char>> {
    seq!["tool:fetch_source"@, "resolver:source:fetch"@]
}

/// The scopes that the `fetch_source` tool requires.
pub fn fetch_source_scopes() -> (r: Vec<&'static str>)
    ensures
        r@.map_values(|s: &str| s@) == fetch_source_scopes_spec(),
{
    let r = vec!["tool:fetch_source", "resolver:source:fetch"];
    assert(r@.map_values(|s: &str| s@) =~= fetch_source_scopes_spec());
    r
}

// ---------------------------------------------------------------------
// Requests.

/// Whether a JSON-RPC message calls `tools/list`.
pub open spec fn calls_tools_list(message: Json) -> bool {
    match message.member("method"@) {
        Some(m) => m.text() == Some("tools/list"@),
        None => false,
    }
}

/// Whether a request body, as parsed JSON (nothing when it is not JSON),
/// is a `tools/list` call or a batch holding one.
pub open spec fn tools_list_request(parsed: Option<Json>) -> bool {
    match parsed {
        Some(Json::Object(ms)) => calls_tools_list(Json::Object(ms)),
        Some(Json::Array(items)) => batch_calls_tools_list(items),
        _ => false,
    }
}

/// Whether a batch of JSON-RPC messages holds a `tools/list` call.
pub open spec fn batch_calls_tools_list(items: Seq<Json>) -> bool {
    exists|i: int| 0 <= i < items.len() && calls_tools_list(#[trigger] items[i])
}

fn message_calls_tools_list(message: &JsonValue) -> (r: bool)
    ensures
        r == calls_tools_list(message.deep()),
{
    match message.get("method") {
        Some(m) => match m.as_str() {
            Some(name) => str_eq(name, "tools/list"),
            None => false,
        },
        None => false,
    }
}

/// Whether a request body, given as parsed JSON, calls `tools/list`.
pub fn is_tools_list_request(parsed: &Option<JsonValue>) -> (r: bool)
    ensures
        r == tools_list_request(opt_deep(*parsed)),
{
    match parsed {
        Some(JsonValue::Object(ms)) => {
            let v = parsed.as_ref().unwrap();
            message_calls_tools_list(v)
        },
        Some(JsonValue::Array(items)) => {
            proof {
                lemma_deep_array(*items);
            }
            let mut i: usize = 0;
            assert(opt_deep(*parsed) == Some(Json::Array(items_deep(items@))));
            while i < items.len()
                invariant
                    i <= items@.len(),
                    opt_deep(*parsed) == Some(Json::Array(items_deep(items@))),
                    forall|j: int| 0 <= j < i ==> !calls_tools_list(#[trigger] items_deep(items@)[j]),
                decreases items@.len() - i,
            {
                assert(items_deep(items@)[i as int] == items@[i as int].deep());
                if message_calls_tools_list(&items[i]) {
                    let ghost all = items_deep(items@);
                    assert(calls_tools_list(all[i as int]));
                    assert(0 <= i < all.len());
                    assert(batch_calls_tools_list(all));
                    return true;
                }
                i = i + 1;
            }
            false
        },
        _ => false,
    }
}

// ---------------------------------------------------------------------
// Tool results.

/// The text under `content` in a value.
pub open spec fn content_of(v: Json) -> Option<Seq<char>> {
    match v.member("content"@) {
        Some(c) => c.text(),
        None => None,
    }
}

/// The first `content` text among items.
pub open spec fn first_content(items: Seq<Json>) -> Option<Seq<char>>
    decreases items.len(),
{
    if items.len() == 0 {
        None
    } else {
        match content_of(items[0]) {
            Some(t) => Some(t),
            None => first_content(items.drop_first()),
        }
    }
}

/// The fetched content in an upstream payload: its `content` text, else
/// that of the first item of an array that has one.
pub open spec fn extracted(data: Json) -> Option<Seq<char>> {
    match content_of(data) {
        Some(t) => Some(t),
        None => match data {
            Json::Array(items) => first_content(items),
            _ => None,
        },
    }
}

fn content_text(v: &JsonValue) -> (r: Option<String>)
    ensures
        opt_view(r) == content_of(v.deep()),
{
    match v.get("content") {
        Some(c) => match c.as_str() {
            Some(t) => Some(owned(t)),
            None => None,
        },
        None => None,
    }
}

/// The fetched content in an upstream payload.
pub fn extracted_content(data: &JsonValue) -> (r: Option<String>)
    ensures
        opt_view(r) == extracted(data.deep()),
{
    match content_text(data) {
        Some(t) => return Some(t),
        None => {},
    }
    match data {
        JsonValue::Array(items) => {
            proof {
                lemma_deep_array(*items);
            }
            let ghost all = items_deep(items@);
            let mut i: usize = 0;
            assert(all.skip(0) =~= all);
            while i < items.len()
                invariant
                    i <= items@.len(),
                    all == items_deep(items@),
                    data.deep() == Json::Array(all),
                    content_of(data.deep()) is None,
                    first_content(all) == first_content(all.skip(i as int)),
                decreases items@.len() - i,
            {
                let ghost rest = all.skip(i as int);
                assert(rest[0] == items@[i as int].deep());
                assert(rest.drop_first() =~= all.skip(i + 1));
                match content_text(&items[i]) {
                    Some(t) => return Some(t),
                    None => {},
                }
                i = i + 1;
            }
            assert(all.skip(i as int).len() == 0);
            None
        },
        _ => None,
    }
}

/// An optional number as text, `unknown` when missing.
pub open spec fn shown(value: Option<int>) -> Seq<char> {
    match value {
        Some(n) => signed_decimal(n),
        None => "unknown"@,
    }
}

/// The value of an optional unsigned number.
pub open spec fn unsigned_value(value: Option<u64>) -> Option<int> {
    match value {
        Some(n) => Some(n as int),
        None => None,
    }
}

/// The value of an optional signed number.
pub open spec fn signed_value(value: Option<i64>) -> Option<int> {
    match value {
        Some(n) => Some(n as int),
        None => None,
    }
}

/// An optional unsigned number as text, `unknown` when missing.
pub fn display_option(value: Option<u64>) -> (r: String)
    ensures
        r@ == shown(unsigned_value(value)),
{
    match value {
        Some(n) => u64_to_decimal(n),
        None => owned("unknown"),
    }
}

/// An optional signed number as text, `unknown` when missing.
pub fn display_option_signed(value: Option<i64>) -> (r: String)
    ensures
        r@ == shown(signed_value(value)),
{
    match value {
        Some(n) => i64_to_decimal(n),
        None => owned("unknown"),
    }
}

/// The byte count of a receipt as a number.
pub open spec fn byte_count(value: Option<usize>) -> Option<u64> {
    match value {
        Some(n) => Some(n as u64),
        None => None,
    }
}

fn widen(value: Option<usize>) -> (r: Option<u64>)
    ensures
        r == byte_count(value),
{
    match value {
        Some(n) => Some(n as u64),
        None => None,
    }
}

/// The text of a fetch result: the fetched content, else the payload's
/// compact JSON text.
pub open spec fn result_text(data: Json) -> Seq<char> {
    match extracted(data) {
        Some(c) => c,
        None => json_text(data),
    }
}

/// The text answer of the `fetch_source` tool: the receipt lines, a
/// separator and the fetched text.
pub open spec fn rendered_fetch(receipt_id: Seq<char>, receipt: Receipt, text: Seq<char>) -> Seq<char> {
    "receipt_id: "@ + receipt_id + "\n"@ + "status: "@ + shown(signed_value(receipt.status)) + "\n"@
        + "fetch_elapsed_ms: "@ + shown(unsigned_value(receipt.duration_elapsed_ms)) + "\n"@
        + "content_bytes: "@ + shown(unsigned_value(byte_count(receipt.content_bytes))) + "\n"@
        + "\n---\n\n"@ + text
}

/// The text answer of the `fetch_source` tool.
pub fn render_fetch_result(data: &FetchWithReceipt) -> (r: String)
    ensures
        r@ == rendered_fetch(data.receipt_id@, data.receipt, result_text(data.data.deep())),
{
    let receipt = &data.receipt;
    let mut output = owned("receipt_id: ");
    push_str(&mut output, data.receipt_id.as_str());
    push_str(&mut output, "\n");
    push_str(&mut output, "status: ");
    let status = display_option_signed(receipt.status);
    push_str(&mut output, status.as_str());
    push_str(&mut output, "\n");
    push_str(&mut output, "fetch_elapsed_ms: ");
    let elapsed = display_option(receipt.duration_elapsed_ms);
    push_str(&mut output, elapsed.as_str());
    push_str(&mut output, "\n");
    push_str(&mut output, "content_bytes: ");
    let bytes = display_option(widen(receipt.content_bytes));
    push_str(&mut output, bytes.as_str());
    push_str(&mut output, "\n");
    push_str(&mut output, "\n---\n\n");
    match extracted_content(&data.data) {
        Some(content) => push_str(&mut output, content.as_str()),
        None => {
            let text = encode_json(&data.data);
            push_str(&mut output, text.as_str());
        },
    }
    output
}

/// The members of the structured answer of the `fetch_source` tool.
pub open spec fn structured_members(receipt_id: Seq<char>, receipt: Receipt, text: Seq<char>) -> Seq<(Seq<char>, Json)> {
    let head = seq![("receipt_id"@, Json::Str(receipt_id)), ("source_url"@, Json::Str(receipt.source_url@))];
    let s = match receipt.status {
        Some(n) => head.push(("status"@, signed_json(n))),
        None => head,
    };
    let e = match receipt.duration_elapsed_ms {
        Some(n) => s.push(("fetch_elapsed_ms"@, Json::UInt(n))),
        None => s,
    };
    let b = match receipt.content_bytes {
        Some(n) => e.push(("content_bytes"@, Json::UInt(n as u64))),
        None => e,
    };
    b.push(("text"@, Json::Str(text)))
}

/// The structured answer of the `fetch_source` tool.
pub fn structured_fetch_result(data: &FetchWithReceipt) -> (r: JsonValue)
    ensures
        r.deep() == Json::Object(
            structured_members(data.receipt_id@, data.receipt, result_text(data.data.deep())),
        ),
{
    let receipt = &data.receipt;
    let mut ms: Vec<(String, JsonValue)> = Vec::new();
    ms.push(pair("receipt_id", JsonValue::Str(data.receipt_id.clone())));
    ms.push(pair("source_url", JsonValue::Str(receipt.source_url.clone())));
    let ghost head = seq![("receipt_id"@, Json::Str(data.receipt_id@)), ("source_url"@, Json::Str(receipt.source_url@))];
    assert(members_deep(ms@) =~= head);
    match receipt.status {
        Some(n) => {
            let ghost before = members_deep(ms@);
            ms.push(pair("status", signed_number(n)));
            assert(members_deep(ms@) =~= before.push(("status"@, signed_json(n))));
        },
        None => {},
    }
    match receipt.duration_elapsed_ms {
        Some(n) => {
            let ghost before = members_deep(ms@);
            ms.push(pair("fetch_elapsed_ms", JsonValue::UInt(n)));
            assert(members_deep(ms@) =~= before.push(("fetch_elapsed_ms"@, Json::UInt(n))));
        },
        None => {},
    }
    match receipt.content_bytes {
        Some(n) => {
            let ghost before = members_deep(ms@);
            ms.push(pair("content_bytes", JsonValue::UInt(n as u64)));
            assert(members_deep(ms@) =~= before.push(("content_bytes"@, Json::UInt(n as u64))));
        },
        None => {},
    }
    let text = match extracted_content(&data.data) {
        Some(content) => content,
        None => encode_json(&data.data),
    };
    let ghost before = members_deep(ms@);
    ms.push(pair("text", JsonValue::Str(text)));
    assert(members_deep(ms@) =~= before.push(("text"@, Json::Str(result_text(data.data.deep())))));
    object(ms)
}

// ---------------------------------------------------------------------
// Event-stream replies.

/// The JSON text of a `data:` line: after the prefix, without trailing
/// newlines and leading whitespace.
pub open spec fn data_payload(line: Seq<char>) -> Option<Seq<char>> {
    if has_prefix(line, "data:"@) {
        Some(trim_start(trim_end_char(line.skip("data:"@.len() as int), '\n')))
    } else {
        None
    }
}

/// The JSON text of a `data:` line of an event stream.
pub fn data_line_payload(line: &str) -> (r: Option<String>)
    ensures
        opt_view(r) == data_payload(line@),
{
    proof {
        reveal_strlit("data:");
    }
    if !starts_with(line, "data:") {
        return None;
    }
    let v = chars_of(line);
    let rest = string_of(slice_range(&v, 5, v.len()).as_slice());
    assert(rest@ =~= line@.skip(5));
    let body = trim_end_matches_char(rest.as_str(), '\n');
    Some(trim_start_str(body.as_str()))
}

/// Whether a line ends with a newline.
pub open spec fn ends_with_newline(line: Seq<char>) -> bool {
    line.len() > 0 && line.last() == '\n'
}

/// A line of the reply as written back: a replaced `data:` line carries
/// the new JSON text and keeps its newline; other lines stay as they are.
pub open spec fn rewritten_line(line: Seq<char>, replacement: Option<Seq<char>>) -> Seq<char> {
    match replacement {
        Some(json) => "data: "@ + json + if ends_with_newline(line) {
            "\n"@
        } else {
            Seq::<char>::empty()
        },
        None => line,
    }
}

/// The reply written back from its lines and their replacements.
pub open spec fn rewritten_body(lines: Seq<Seq<char>>, replacements: Seq<Option<Seq<char>>>) -> Seq<char> {
    Seq::new(lines.len(), |i: int| rewritten_line(lines[i], replacements[i])).flatten()
}

/// The lines of an event-stream reply, each with its newline.
pub open spec fn stream_lines(body: Seq<char>) -> Seq<Seq<char>> {
    split_inclusive_on(body, '\n')
}

/// The views of the replacements.
pub open spec fn replacement_views(r: Seq<Option<String>>) -> Seq<Option<Seq<char>>> {
    r.map_values(|o: Option<String>| opt_view(o))
}

fn ends_with_newline_str(line: &str) -> (r: bool)
    ensures
        r == ends_with_newline(line@),
{
    let v = chars_of(line);
    v.len() > 0 && v[v.len() - 1] == '\n'
}

/// The lines of an event-stream reply, each with its newline.
pub fn reply_lines(body: &str) -> (r: Vec<String>)
    ensures
        r@.map_values(|l: String| l@) == stream_lines(body@),
{
    split_inclusive_char(body, '\n')
}

/// Writes an event-stream reply back, with the `data:` lines whose
/// enriched JSON text is given replaced, and tells whether any was.
pub fn rewrite_reply(body: &str, replacements: &Vec<Option<String>>) -> (r: (String, bool))
    requires
        replacements@.len() == stream_lines(body@).len(),
    ensures
        r.0@ == rewritten_body(stream_lines(body@), replacement_views(replacements@)),
        r.1 == exists|i: int| 0 <= i < replacements@.len() && (#[trigger] replacements@[i]) is Some,
        !r.1 ==> r.0@ == body@,
{
    let lines = reply_lines(body);
    let ghost ls = stream_lines(body@);
    let ghost reps = replacement_views(replacements@);
    let ghost pieces = Seq::new(ls.len(), |i: int| rewritten_line(ls[i], reps[i]));
    let mut out = String::new();
    let mut changed = false;
    let mut i: usize = 0;
    assert(lines@.len() == ls.len());
    assert(pieces.take(0) =~= Seq::<Seq<char>>::empty());
    while i < lines.len()
        invariant
            lines@.map_values(|l: String| l@) == ls,
            ls == stream_lines(body@),
            reps == replacement_views(replacements@),
            replacements@.len() == ls.len(),
            pieces == Seq::new(ls.len(), |k: int| rewritten_line(ls[k], reps[k])),
            i <= lines@.len(),
            out@ == pieces.take(i as int).flatten(),
            changed == exists|k: int| 0 <= k < i && (#[trigger] replacements@[k]) is Some,
        decreases lines@.len() - i,
    {
        let line = &lines[i];
        assert(line@ == ls[i as int]);
        assert(reps[i as int] == opt_view(replacements@[i as int]));
        let ghost before = out@;
        match &replacements[i] {
            Some(json) => {
                push_str(&mut out, "data: ");
                push_str(&mut out, json.as_str());
                if ends_with_newline_str(line.as_str()) {
                    push_str(&mut out, "\n");
                }
                changed = true;
            },
            None => {
                push_str(&mut out, line.as_str());
            },
        }
        proof {
            assert(out@ =~= before + pieces[i as int]);
            assert(pieces.take(i + 1) =~= pieces.take(i as int).push(pieces[i as int]));
            pieces.take(i as int).lemma_flatten_push(pieces[i as int]);
        }
        i = i + 1;
    }
    assert(pieces.take(i as int) =~= pieces);
    proof {
        if !changed {
            assert forall|k: int| 0 <= k < reps.len() implies (#[trigger] reps[k]) is None by {
                assert(replacements@[k] is None);
            }
            lemma_untouched_reply_kept(body@, reps);
        }
    }
    (out, changed)
}

/// What a line of a reply is replaced with: for a `data:` line whose
/// JSON text parsed, the compact text of the enriched message when
/// enrichment changed it; nothing otherwise.
pub open spec fn line_replacement(line: Seq<char>, parsed: Option<Json>) -> Option<Seq<char>> {
    match parsed {
        Some(v) => if data_payload(line) is Some && enrich_message(v).1 {
            Some(json_text(enrich_message(v).0))
        } else {
            None
        },
        None => None,
    }
}

/// The replacements of the lines of a reply.
pub open spec fn line_replacements(lines: Seq<Seq<char>>, parsed: Seq<Option<Json>>) -> Seq<Option<Seq<char>>> {
    Seq::new(lines.len(), |i: int| line_replacement(lines[i], parsed[i]))
}

/// The contents of parsed payloads.
pub open spec fn parsed_views(parsed: Seq<Option<JsonValue>>) -> Seq<Option<Json>> {
    parsed.map_values(|o: Option<JsonValue>| opt_deep(o))
}

/// Adds connector metadata to the `tools/list` messages of an event-stream
/// reply. `parsed` holds, for each line, the JSON value that the line's
/// `data:` payload parses to, if it is such a line and parses. Returns the
/// reply written back and whether any line changed.
pub fn enrich_tools_list_reply(body: &str, parsed: Vec<Option<JsonValue>>) -> (r: (String, bool))
    requires
        parsed@.len() == stream_lines(body@).len(),
    ensures
        r.0@ == rewritten_body(stream_lines(body@), line_replacements(stream_lines(body@), parsed_views(parsed@))),
        r.1 == exists|i: int|
            0 <= i < parsed@.len() && (#[trigger] line_replacements(stream_lines(body@), parsed_views(parsed@))[i]) is Some,
        !r.1 ==> r.0@ == body@,
{
    let lines = reply_lines(body);
    let ghost ls = stream_lines(body@);
    let ghost pv = parsed_views(parsed@);
    let mut replacements: Vec<Option<String>> = Vec::new();
    let mut rest = parsed;
    let ghost all = rest@;
    let mut i: usize = 0;
    assert(lines@.len() == ls.len());
    while i < lines.len()
        invariant
            lines@.map_values(|l: String| l@) == ls,
            ls == stream_lines(body@),
            pv == parsed_views(all),
            all.len() == ls.len(),
            rest@.len() == all.len(),
            forall|k: int| i <= k < all.len() ==> rest@[k] == all[k],
            i <= lines@.len(),
            replacements@.len() == i,
            forall|k: int| 0 <= k < i ==> opt_view(#[trigger] replacements@[k]) == line_replacement(ls[k], pv[k]),
        decreases lines@.len() - i,
    {
        let mut slot: Option<JsonValue> = None;
        std::mem::swap(&mut slot, &mut rest[i]);
        assert(lines@[i as int]@ == ls[i as int]);
        assert(opt_deep(slot) == pv[i as int]);
        let replacement = match slot {
            Some(mut v) => {
                let is_data = data_line_payload(lines[i].as_str()).is_some();
                if is_data {
                    let changed = enrich_tools_list_message_for_chatgpt(&mut v);
                    if changed {
                        Some(encode_json(&v))
                    } else {
                        None
                    }
                } else {
                    None
                }
            },
            None => None,
        };
        replacements.push(replacement);
        i = i + 1;
    }
    let ghost reps = line_replacements(ls, pv);
    assert(replacement_views(replacements@) =~= reps);
    let (out, changed) = rewrite_reply(body, &replacements);
    proof {
        if changed {
            let k = choose|k: int| 0 <= k < replacements@.len() && (#[trigger] replacements@[k]) is Some;
            assert(reps[k] is Some);
        }
        if exists|k: int| 0 <= k < all.len() && (#[trigger] reps[k]) is Some {
            let k = choose|k: int| 0 <= k < all.len() && (#[trigger] reps[k]) is Some;
            assert(replacements@[k] is Some);
        }
    }
    (out, changed)
}

/// How a reply is rewritten, line by line: the lines of the reply written
/// back correspond one to one with its lines; a line is replaced only when
/// it is a `data:` line whose parsed message enrichment changed, and then
/// by `data: `, the enriched message's compact JSON text, and the line's
/// newline if it had one; every other line stays as it is; and a reply in
/// which no line is replaced is written back as it came.
pub proof fn lemma_reply_rewrite(body: Seq<char>, parsed: Seq<Option<Json>>)
    requires
        parsed.len() == stream_lines(body).len(),
    ensures
        ({
            let ls = stream_lines(body);
            let reps = line_replacements(ls, parsed);
            &&& rewritten_body(ls, reps) == Seq::new(ls.len(), |i: int| rewritten_line(ls[i], reps[i])).flatten()
            &&& forall|i: int| 0 <= i < ls.len() ==> ((#[trigger] reps[i]) is Some <==> (
                data_payload(ls[i]) is Some && parsed[i] is Some && enrich_message(parsed[i].unwrap()).1))
            &&& forall|i: int| 0 <= i < ls.len() && reps[i] is None ==> #[trigger] rewritten_line(ls[i], reps[i]) == ls[i]
            &&& forall|i: int| 0 <= i < ls.len() && parsed[i] is Some && data_payload(ls[i]) is Some
                && enrich_message(parsed[i].unwrap()).1 ==> #[trigger] rewritten_line(ls[i], reps[i]) == "data: "@
                + json_text(enrich_message(parsed[i].unwrap()).0) + if ends_with_newline(ls[i]) {
                    "\n"@
                } else {
                    Seq::<char>::empty()
                }
            &&& (forall|i: int| 0 <= i < ls.len() ==> (#[trigger] reps[i]) is None) ==> rewritten_body(ls, reps) == body
        }),
{
    let ls = stream_lines(body);
    let reps = line_replacements(ls, parsed);
    if forall|i: int| 0 <= i < ls.len() ==> (#[trigger] reps[i]) is None {
        lemma_untouched_reply_kept(body, reps);
    }
}

/// A reply in which no line is replaced is written back as it came.
pub proof fn lemma_untouched_reply_kept(body: Seq<char>, replacements: Seq<Option<Seq<char>>>)
    requires
        replacements.len() == stream_lines(body).len(),
        forall|i: int| 0 <= i < replacements.len() ==> (#[trigger] replacements[i]) is None,
    ensures
        rewritten_body(stream_lines(body), replacements) == body,
{
    let ls = stream_lines(body);
    assert(Seq::new(ls.len(), |i: int| rewritten_line(ls[i], replacements[i])) =~= ls);
    lemma_split_inclusive_flatten(body, '\n');
}

// ---------------------------------------------------------------------
// Enriching twice.

/// Setting a member makes its name hold the value, keeps every name
/// present, and keeps the values of the other names.
proof fn lemma_insert_keeps(ms: Seq<(Seq<char>, Json)>, key: Seq<char>, v: Json)
    ensures
        lookup(insert_member(ms, key, v), key) == Some(v),
        forall|o: Seq<char>| has_key(ms, o) ==> #[trigger] has_key(insert_member(ms, key, v), o),
        forall|o: Seq<char>| o != key ==> #[trigger] lookup(insert_member(ms, key, v), o) == lookup(ms, o),
{
    lemma_insert_member(ms, key, v, key);
    assert forall|o: Seq<char>| has_key(ms, o) implies #[trigger] has_key(insert_member(ms, key, v), o) by {
        lemma_insert_member(ms, key, v, o);
    }
    assert forall|o: Seq<char>| o != key implies #[trigger] lookup(insert_member(ms, key, v), o) == lookup(ms, o) by {
        lemma_insert_member(ms, key, v, o);
    }
}

/// Adding a missing member makes its name present, keeps every name
/// present, and keeps the values of the other names.
proof fn lemma_add_missing_keeps(ms: Seq<(Seq<char>, Json)>, key: Seq<char>, v: Json)
    ensures
        has_key(add_missing(ms, key, v).0, key),
        forall|o: Seq<char>| has_key(ms, o) ==> #[trigger] has_key(add_missing(ms, key, v).0, o),
        forall|o: Seq<char>| o != key ==> #[trigger] lookup(add_missing(ms, key, v).0, o) == lookup(ms, o),
{
    lemma_insert_keeps(ms, key, v);
    lemma_lookup_has_key(insert_member(ms, key, v), key);
}

/// Making sure a member exists makes its name present, and keeps every
/// name present and the values of the other names.
proof fn lemma_with_entry_keeps(ms: Seq<(Seq<char>, Json)>, key: Seq<char>)
    ensures
        has_key(with_entry(ms, key), key),
        forall|o: Seq<char>| has_key(ms, o) ==> #[trigger] has_key(with_entry(ms, key), o),
        forall|o: Seq<char>| o != key ==> #[trigger] lookup(with_entry(ms, key), o) == lookup(ms, o),
{
    lemma_insert_keeps(ms, key, empty_object());
    lemma_lookup_has_key(insert_member(ms, key, empty_object()), key);
}

/// The names that enrichment writes are distinct.
proof fn lemma_enrich_names_distinct()
    ensures
        "ui"@ != "securitySchemes"@,
        "ui"@ != "openai/toolInvocation/invoking"@,
        "ui"@ != "openai/toolInvocation/invoked"@,
        "ui"@ != "openai/visibility"@,
        "securitySchemes"@ != "openai/toolInvocation/invoking"@,
        "securitySchemes"@ != "openai/toolInvocation/invoked"@,
        "securitySchemes"@ != "openai/visibility"@,
        "openai/toolInvocation/invoking"@ != "openai/toolInvocation/invoked"@,
        "openai/toolInvocation/invoking"@ != "openai/visibility"@,
        "openai/toolInvocation/invoked"@ != "openai/visibility"@,
        "title"@ != "readOnlyHint"@,
        "title"@ != "destructiveHint"@,
        "title"@ != "openWorldHint"@,
        "readOnlyHint"@ != "destructiveHint"@,
        "readOnlyHint"@ != "openWorldHint"@,
        "destructiveHint"@ != "openWorldHint"@,
        "title"@ != "idempotentHint"@,
        "readOnlyHint"@ != "idempotentHint"@,
        "destructiveHint"@ != "idempotentHint"@,
        "idempotentHint"@ != "openWorldHint"@,
        "title"@ != "outputSchema"@,
        "title"@ != "_meta"@,
        "title"@ != "annotations"@,
        "title"@ != "securitySchemes"@,
        "title"@ != "name"@,
        "outputSchema"@ != "_meta"@,
        "outputSchema"@ != "annotations"@,
        "outputSchema"@ != "securitySchemes"@,
        "outputSchema"@ != "name"@,
        "_meta"@ != "annotations"@,
        "_meta"@ != "securitySchemes"@,
        "_meta"@ != "name"@,
        "annotations"@ != "securitySchemes"@,
        "annotations"@ != "name"@,
        "securitySchemes"@ != "name"@,
        "result"@ != "tools"@,
{
    reveal_strlit("ui");
    reveal_strlit("securitySchemes");
    reveal_strlit("openai/toolInvocation/invoking");
    reveal_strlit("openai/toolInvocation/invoked");
    reveal_strlit("openai/visibility");
    reveal_strlit("title");
    reveal_strlit("readOnlyHint");
    reveal_strlit("destructiveHint");
    reveal_strlit("openWorldHint");
    reveal_strlit("outputSchema");
    reveal_strlit("_meta");
    reveal_strlit("annotations");
    reveal_strlit("name");
    reveal_strlit("result");
    reveal_strlit("tools");
    reveal_strlit("idempotentHint");
    assert("idempotentHint"@.len() == 14);
    assert("ui"@.len() == 2);
    assert("securitySchemes"@.len() == 15);
    assert("openai/toolInvocation/invoking"@.len() == 30);
    assert("openai/toolInvocation/invoked"@.len() == 29);
    assert("openai/visibility"@.len() == 17);
    assert("title"@.len() == 5);
    assert("title"@[0] != "_meta"@[0]);
    assert("readOnlyHint"@.len() == 12);
    assert("destructiveHint"@.len() == 15);
    assert("openWorldHint"@.len() == 13);
    assert("outputSchema"@.len() == 12);
    assert("_meta"@.len() == 5);
    assert("annotations"@.len() == 11);
    assert("name"@.len() == 4);
    assert("result"@.len() == 6);
    assert("tools"@.len() == 5);
}

proof fn lemma_enrich_ui_twice(ui: Json)
    ensures
        enrich_ui(enrich_ui(ui).0) == (enrich_ui(ui).0, false),
{
    if let Json::Object(ms) = ui {
        lemma_add_missing_keeps(ms, "visibility"@, visibility_json());
    }
}

proof fn lemma_enrich_annotations_twice(annotations: Json)
    ensures
        enrich_annotations(enrich_annotations(annotations).0) == (enrich_annotations(annotations).0, false),
{
    if let Json::Object(ms) = annotations {
        lemma_enrich_names_distinct();
        let m1 = add_missing(ms, "title"@, Json::Str("Fetch exact source URL"@)).0;
        let m2 = add_missing(m1, "readOnlyHint"@, Json::Bool(true)).0;
        let m3 = add_missing(m2, "destructiveHint"@, Json::Bool(false)).0;
        let m4 = add_missing(m3, "idempotentHint"@, Json::Bool(true)).0;
        lemma_add_missing_keeps(ms, "title"@, Json::Str("Fetch exact source URL"@));
        lemma_add_missing_keeps(m1, "readOnlyHint"@, Json::Bool(true));
        lemma_add_missing_keeps(m2, "destructiveHint"@, Json::Bool(false));
        lemma_add_missing_keeps(m3, "idempotentHint"@, Json::Bool(true));
        lemma_add_missing_keeps(m4, "openWorldHint"@, Json::Bool(true));
    }
}

proof fn lemma_enrich_meta_twice(meta: Json)
    ensures
        enrich_meta(enrich_meta(meta).0) == (enrich_meta(meta).0, false),
{
    if let Json::Object(ms) = meta {
        lemma_enrich_names_distinct();
        let m0 = with_entry(ms, "ui"@);
        lemma_with_entry_keeps(ms, "ui"@);
        lemma_lookup_has_key(m0, "ui"@);
        let u = lookup(m0, "ui"@).unwrap();
        let ui = enrich_ui(u).0;
        lemma_enrich_ui_twice(u);
        let m1 = insert_member(m0, "ui"@, ui);
        lemma_insert_keeps(m0, "ui"@, ui);
        let m2 = add_missing(m1, "securitySchemes"@, security_schemes_json()).0;
        lemma_add_missing_keeps(m1, "securitySchemes"@, security_schemes_json());
        let m3 = add_missing(m2, "openai/toolInvocation/invoking"@, Json::Str("Fetching source"@)).0;
        lemma_add_missing_keeps(m2, "openai/toolInvocation/invoking"@, Json::Str("Fetching source"@));
        let m4 = add_missing(m3, "openai/toolInvocation/invoked"@, Json::Str("Source fetched"@)).0;
        lemma_add_missing_keeps(m3, "openai/toolInvocation/invoked"@, Json::Str("Source fetched"@));
        let m5 = add_missing(m4, "openai/visibility"@, Json::Str("public"@)).0;
        lemma_add_missing_keeps(m4, "openai/visibility"@, Json::Str("public"@));
        assert(lookup(m5, "ui"@) == Some(ui));
        lemma_lookup_has_key(m5, "ui"@);
        assert(with_entry(m5, "ui"@) == m5);
        lemma_insert_same(m5, "ui"@, ui);
        assert(has_key(m5, "securitySchemes"@));
        assert(has_key(m5, "openai/toolInvocation/invoking"@));
        assert(has_key(m5, "openai/toolInvocation/invoked"@));
    }
}

/// The name of a descriptor after enrichment is its name before.
proof fn lemma_enrich_fetch_source_twice(ms: Seq<(Seq<char>, Json)>)
    ensures
        enrich_fetch_source(enrich_fetch_source(ms).0) == (enrich_fetch_source(ms).0, false),
        lookup(enrich_fetch_source(ms).0, "name"@) == lookup(ms, "name"@),
        lookup(enrich_fetch_source(ms).0, "securitySchemes"@) == lookup(ms, "securitySchemes"@),
        has_key(enrich_fetch_source(ms).0, "securitySchemes"@) == has_key(ms, "securitySchemes"@),
        lookup(enrich_fetch_source(ms).0, "_meta"@) matches Some(meta) && enrich_meta(meta) == (meta, false),
{
    lemma_enrich_names_distinct();
    let m1 = add_missing(ms, "title"@, Json::Str("Fetch Source"@)).0;
    lemma_add_missing_keeps(ms, "title"@, Json::Str("Fetch Source"@));
    let m2 = add_missing(m1, "outputSchema"@, output_schema_json()).0;
    lemma_add_missing_keeps(m1, "outputSchema"@, output_schema_json());
    let m3 = with_entry(m2, "_meta"@);
    lemma_with_entry_keeps(m2, "_meta"@);
    lemma_lookup_has_key(m3, "_meta"@);
    let meta0 = lookup(m3, "_meta"@).unwrap();
    let meta = enrich_meta(meta0).0;
    lemma_enrich_meta_twice(meta0);
    let m4 = insert_member(m3, "_meta"@, meta);
    lemma_insert_keeps(m3, "_meta"@, meta);
    let m5 = with_entry(m4, "annotations"@);
    lemma_with_entry_keeps(m4, "annotations"@);
    lemma_lookup_has_key(m5, "annotations"@);
    let ann0 = lookup(m5, "annotations"@).unwrap();
    let ann = enrich_annotations(ann0).0;
    lemma_enrich_annotations_twice(ann0);
    let m6 = insert_member(m5, "annotations"@, ann);
    lemma_insert_keeps(m5, "annotations"@, ann);
    assert(has_key(m6, "title"@));
    assert(has_key(m6, "outputSchema"@));
    assert(lookup(m6, "_meta"@) == Some(meta));
    lemma_lookup_has_key(m6, "_meta"@);
    lemma_lookup_has_key(m6, "annotations"@);
    assert(with_entry(m6, "_meta"@) == m6);
    lemma_insert_same(m6, "_meta"@, meta);
    assert(with_entry(m6, "annotations"@) == m6);
    lemma_insert_same(m6, "annotations"@, ann);
    lemma_lookup_has_key(ms, "securitySchemes"@);
    lemma_lookup_has_key(m6, "securitySchemes"@);
}

/// Mirroring the schemes a second time changes nothing, and mirroring
/// keeps the other names.
proof fn lemma_mirror_schemes_twice(ms: Seq<(Seq<char>, Json)>)
    ensures
        mirror_schemes(mirror_schemes(ms).0) == (mirror_schemes(ms).0, false),
        forall|o: Seq<char>| o != "securitySchemes"@ ==> #[trigger] lookup(mirror_schemes(ms).0, o) == lookup(ms, o),
{
    lemma_enrich_names_distinct();
    if !has_key(ms, "securitySchemes"@) {
        match lookup(ms, "_meta"@) {
            Some(meta) => match meta.member("securitySchemes"@) {
                Some(schemes) => {
                    lemma_insert_keeps(ms, "securitySchemes"@, schemes);
                    lemma_lookup_has_key(insert_member(ms, "securitySchemes"@, schemes), "securitySchemes"@);
                },
                None => {},
            },
            None => {},
        }
    }
}

proof fn lemma_enrich_tool_twice(tool: Json)
    ensures
        enrich_tool(enrich_tool(tool).0) == (enrich_tool(tool).0, false),
{
    if let Json::Object(ms) = tool {
        lemma_enrich_names_distinct();
        if names_fetch_source(ms) {
            let m1 = enrich_fetch_source(ms).0;
            lemma_enrich_fetch_source_twice(ms);
            let m2 = mirror_schemes(m1).0;
            lemma_mirror_schemes_twice(m1);
            assert(names_fetch_source(m2));
            assert(lookup(m2, "_meta"@) == lookup(m1, "_meta"@));
            assert(lookup(m2, "title"@) == lookup(m1, "title"@));
            lemma_lookup_has_key(m1, "title"@);
            lemma_lookup_has_key(m2, "title"@);
            assert(lookup(m2, "outputSchema"@) == lookup(m1, "outputSchema"@));
            lemma_lookup_has_key(m1, "outputSchema"@);
            lemma_lookup_has_key(m2, "outputSchema"@);
            assert(lookup(m2, "annotations"@) == lookup(m1, "annotations"@));
            lemma_lookup_has_key(m1, "annotations"@);
            lemma_lookup_has_key(m2, "annotations"@);
            lemma_lookup_has_key(m1, "_meta"@);
            lemma_lookup_has_key(m2, "_meta"@);
            let meta = lookup(m2, "_meta"@).unwrap();
            let ann = lookup(m2, "annotations"@).unwrap();
            assert(enrich_fetch_source(m1) == (m1, false));
            assert(with_entry(m1, "_meta"@) == m1);
            assert(with_entry(m2, "_meta"@) == m2);
            assert(enrich_meta(meta) == (meta, false));
            lemma_insert_same(m2, "_meta"@, meta);
            assert(with_entry(m2, "annotations"@) == m2);
            assert(lookup(m1, "annotations"@) == Some(ann));
            assert(enrich_annotations(ann) == (ann, false)) by {
                lemma_insert_same(m1, "_meta"@, meta);
                lemma_insert_keeps(m1, "annotations"@, enrich_annotations(ann).0);
            }
            lemma_insert_same(m2, "annotations"@, ann);
        } else {
            lemma_mirror_schemes_twice(ms);
            let m2 = mirror_schemes(ms).0;
            assert(lookup(m2, "name"@) == lookup(ms, "name"@));
            assert(!names_fetch_source(m2));
        }
    }
}

proof fn lemma_enrich_tools_twice(tools: Seq<Json>)
    ensures
        enrich_tools(enrich_tools(tools).0) == (enrich_tools(tools).0, false),
{
    let t = enrich_tools(tools).0;
    assert forall|i: int| 0 <= i < t.len() implies #[trigger] enrich_tool(t[i]) == (t[i], false) by {
        lemma_enrich_tool_twice(tools[i]);
    }
    assert(enrich_tools(t).0 =~= t);
}

/// Enriching a `tools/list` reply a second time changes nothing: every
/// member that enrichment adds is present after the first time, and the
/// members already present keep their values.
pub proof fn lemma_enrich_idempotent(message: Json)
    ensures
        enrich_message(enrich_message(message).0) == (enrich_message(message).0, false),
{
    if let Json::Object(ms) = message {
        if let Some(Json::Object(rms)) = lookup(ms, "result"@) {
            if let Some(Json::Array(tools)) = lookup(rms, "tools"@) {
                lemma_enrich_names_distinct();
                let t = enrich_tools(tools).0;
                lemma_enrich_tools_twice(tools);
                let rms2 = insert_member(rms, "tools"@, Json::Array(t));
                lemma_insert_keeps(rms, "tools"@, Json::Array(t));
                let ms2 = insert_member(ms, "result"@, Json::Object(rms2));
                lemma_insert_keeps(ms, "result"@, Json::Object(rms2));
                lemma_insert_same(rms2, "tools"@, Json::Array(t));
                lemma_insert_same(ms2, "result"@, Json::Object(rms2));
            }
        }
    }
}

/// Enrichment only adds: every member that a tool descriptor has, other
/// than `_meta` and `annotations` (which it fills in), keeps its value.
pub proof fn lemma_enrich_keeps_members(ms: Seq<(Seq<char>, Json)>, key: Seq<char>)
    requires
        key != "_meta"@,
        key != "annotations"@,
        lookup(ms, key) is Some,
    ensures
        enrich_tool(Json::Object(ms)).0 matches Json::Object(out) && lookup(out, key) == lookup(ms, key),
{
    lemma_enrich_names_distinct();
    lemma_lookup_has_key(ms, key);
    let m1 = if names_fetch_source(ms) {
        let a1 = add_missing(ms, "title"@, Json::Str("Fetch Source"@)).0;
        lemma_add_missing_keeps(ms, "title"@, Json::Str("Fetch Source"@));
        if key == "title"@ {
            lemma_lookup_has_key(ms, "title"@);
        }
        let a2 = add_missing(a1, "outputSchema"@, output_schema_json()).0;
        lemma_add_missing_keeps(a1, "outputSchema"@, output_schema_json());
        if key == "outputSchema"@ {
            lemma_lookup_has_key(a1, "outputSchema"@);
        }
        let a3 = with_entry(a2, "_meta"@);
        lemma_with_entry_keeps(a2, "_meta"@);
        let meta = enrich_meta(lookup(a3, "_meta"@).unwrap()).0;
        let a4 = insert_member(a3, "_meta"@, meta);
        lemma_insert_keeps(a3, "_meta"@, meta);
        let a5 = with_entry(a4, "annotations"@);
        lemma_with_entry_keeps(a4, "annotations"@);
        let ann = enrich_annotations(lookup(a5, "annotations"@).unwrap()).0;
        lemma_insert_keeps(a5, "annotations"@, ann);
        enrich_fetch_source(ms).0
    } else {
        ms
    };
    assert(lookup(m1, key) == lookup(ms, key));
    lemma_lookup_has_key(m1, key);
    if !has_key(m1, "securitySchemes"@) {
        match lookup(m1, "_meta"@) {
            Some(meta) => match meta.member("securitySchemes"@) {
                Some(schemes) => {
                    lemma_insert_keeps(m1, "securitySchemes"@, schemes);
                    if key == "securitySchemes"@ {
                        lemma_lookup_has_key(m1, "securitySchemes"@);
                    }
                },
                None => {},
            },
            None => {},
        }
    }
}

/// Enrichment mirrors the security schemes: a descriptor that had none at
/// its top level afterwards has exactly those of its `_meta` there, and
/// the `fetch_source` descriptor, when its `_meta` is absent or an object,
/// has schemes in its `_meta`, so at its top level too.
pub proof fn lemma_schemes_mirrored(ms: Seq<(Seq<char>, Json)>)
    ensures
        enrich_tool(Json::Object(ms)).0 matches Json::Object(out) && {
            &&& !has_key(ms, "securitySchemes"@) ==> lookup(out, "securitySchemes"@) == match lookup(out, "_meta"@) {
                Some(meta) => meta.member("securitySchemes"@),
                None => None,
            }
            &&& (names_fetch_source(ms) && (lookup(ms, "_meta"@) is None || lookup(ms, "_meta"@) matches Some(
                Json::Object(_),
            ))) ==> (lookup(out, "_meta"@) matches Some(meta) && meta.member("securitySchemes"@) is Some)
        },
{
    lemma_enrich_names_distinct();
    let m1 = if names_fetch_source(ms) {
        enrich_fetch_source(ms).0
    } else {
        ms
    };
    if names_fetch_source(ms) {
        let a1 = add_missing(ms, "title"@, Json::Str("Fetch Source"@)).0;
        lemma_add_missing_keeps(ms, "title"@, Json::Str("Fetch Source"@));
        let a2 = add_missing(a1, "outputSchema"@, output_schema_json()).0;
        lemma_add_missing_keeps(a1, "outputSchema"@, output_schema_json());
        let a3 = with_entry(a2, "_meta"@);
        lemma_with_entry_keeps(a2, "_meta"@);
        lemma_lookup_has_key(a3, "_meta"@);
        let meta0 = lookup(a3, "_meta"@).unwrap();
        let meta = enrich_meta(meta0).0;
        let a4 = insert_member(a3, "_meta"@, meta);
        lemma_insert_keeps(a3, "_meta"@, meta);
        let a5 = with_entry(a4, "annotations"@);
        lemma_with_entry_keeps(a4, "annotations"@);
        lemma_lookup_has_key(a5, "annotations"@);
        let ann = enrich_annotations(lookup(a5, "annotations"@).unwrap()).0;
        lemma_insert_keeps(a5, "annotations"@, ann);
        assert(lookup(m1, "_meta"@) == Some(meta));
        lemma_lookup_has_key(ms, "securitySchemes"@);
        lemma_lookup_has_key(m1, "securitySchemes"@);
        assert(lookup(m1, "securitySchemes"@) == lookup(ms, "securitySchemes"@));
        if lookup(ms, "_meta"@) is None || lookup(ms, "_meta"@) matches Some(Json::Object(_)) {
            lemma_lookup_has_key(a2, "_meta"@);
            lemma_lookup_has_key(ms, "_meta"@);
            if let Json::Object(mm) = meta0 {
                let b0 = with_entry(mm, "ui"@);
                lemma_with_entry_keeps(mm, "ui"@);
                lemma_lookup_has_key(b0, "ui"@);
                let ui = enrich_ui(lookup(b0, "ui"@).unwrap()).0;
                let b1 = insert_member(b0, "ui"@, ui);
                lemma_insert_keeps(b0, "ui"@, ui);
                let b2 = add_missing(b1, "securitySchemes"@, security_schemes_json()).0;
                lemma_add_missing_keeps(b1, "securitySchemes"@, security_schemes_json());
                let b3 = add_missing(b2, "openai/toolInvocation/invoking"@, Json::Str("Fetching source"@)).0;
                lemma_add_missing_keeps(b2, "openai/toolInvocation/invoking"@, Json::Str("Fetching source"@));
                let b4 = add_missing(b3, "openai/toolInvocation/invoked"@, Json::Str("Source fetched"@)).0;
                lemma_add_missing_keeps(b3, "openai/toolInvocation/invoked"@, Json::Str("Source fetched"@));
                lemma_add_missing_keeps(b4, "openai/visibility"@, Json::Str("public"@));
                let b5 = add_missing(b4, "openai/visibility"@, Json::Str("public"@)).0;
                assert(has_key(b5, "securitySchemes"@));
                lemma_lookup_has_key(b5, "securitySchemes"@);
            }
        }
    }
    if !has_key(m1, "securitySchemes"@) {
        match lookup(m1, "_meta"@) {
            Some(meta) => match meta.member("securitySchemes"@) {
                Some(schemes) => {
                    lemma_insert_keeps(m1, "securitySchemes"@, schemes);
                },
                None => {
                    lemma_lookup_has_key(m1, "securitySchemes"@);
                },
            },
            None => {
                lemma_lookup_has_key(m1, "securitySchemes"@);
            },
        }
    } else {
        lemma_lookup_has_key(ms, "securitySchemes"@);
    }
}


// ---------------------------------------------------------------------
// Enrichment only adds.

/// Whether `b` holds everything that `a` holds: the same scalar; an array
/// of the same length whose items each extend `a`'s; or an object that has
/// every name of `a`, each with a value that extends `a`'s.
pub open spec fn extends(a: Json, b: Json) -> bool
    decreases a,
{
    match a {
        Json::Array(xs) => match b {
            Json::Array(ys) => ys.len() == xs.len() && forall|i: int|
                0 <= i < xs.len() ==> extends(xs[i], #[trigger] ys[i]),
            _ => false,
        },
        Json::Object(ms) => match b {
            Json::Object(ns) => forall|i: int|
                0 <= i < ms.len() && #[trigger] is_first_key(ms, ms[i].0, i) ==> (lookup(ns, ms[i].0) is Some
                    && extends(ms[i].1, lookup(ns, ms[i].0).unwrap())),
            _ => false,
        },
        _ => b == a,
    }
}

/// The tools of a `tools/list` reply, when `result.tools` is an array.
pub open spec fn listed_tools(message: Json) -> Option<Seq<Json>> {
    match message {
        Json::Object(ms) => match lookup(ms, "result"@) {
            Some(Json::Object(rms)) => match lookup(rms, "tools"@) {
                Some(Json::Array(tools)) => Some(tools),
                _ => None,
            },
            _ => None,
        },
        _ => None,
    }
}

proof fn lemma_first_lookup(ms: Seq<(Seq<char>, Json)>, key: Seq<char>, i: int)
    requires
        is_first_key(ms, key, i),
    ensures
        lookup(ms, key) == Some(ms[i].1),
{
    assert(has_key(ms, key));
    lemma_has_key_pos(ms, key);
    lemma_first_key_unique(ms, key, i, key_pos(ms, key).unwrap());
}

proof fn lemma_lookup_first(ms: Seq<(Seq<char>, Json)>, key: Seq<char>)
    requires
        lookup(ms, key) is Some,
    ensures
        key_pos(ms, key) matches Some(j) && is_first_key(ms, key, j) && lookup(ms, key) == Some(ms[j].1),
{
    lemma_lookup_has_key(ms, key);
    lemma_has_key_pos(ms, key);
}

/// Every value extends itself.
proof fn lemma_extends_refl(a: Json)
    ensures
        extends(a, a),
    decreases a,
{
    match a {
        Json::Array(xs) => {
            assert forall|i: int| 0 <= i < xs.len() implies extends(xs[i], #[trigger] xs[i]) by {
                lemma_extends_refl(xs[i]);
            }
        },
        Json::Object(ms) => {
            assert forall|i: int| 0 <= i < ms.len() && #[trigger] is_first_key(ms, ms[i].0, i) implies (lookup(
                ms,
                ms[i].0,
            ) is Some && extends(ms[i].1, lookup(ms, ms[i].0).unwrap())) by {
                lemma_first_lookup(ms, ms[i].0, i);
                lemma_extends_refl(ms[i].1);
            }
        },
        _ => {},
    }
}

/// Extension is transitive.
proof fn lemma_extends_trans(a: Json, b: Json, c: Json)
    requires
        extends(a, b),
        extends(b, c),
    ensures
        extends(a, c),
    decreases a,
{
    match a {
        Json::Array(xs) => {
            let ys = b->Array_0;
            let zs = c->Array_0;
            assert forall|i: int| 0 <= i < xs.len() implies extends(xs[i], #[trigger] zs[i]) by {
                assert(extends(xs[i], ys[i]));
                assert(extends(ys[i], zs[i]));
                lemma_extends_trans(xs[i], ys[i], zs[i]);
            }
        },
        Json::Object(ms) => {
            let ns = b->Object_0;
            let os = c->Object_0;
            assert forall|i: int| 0 <= i < ms.len() && #[trigger] is_first_key(ms, ms[i].0, i) implies (lookup(
                os,
                ms[i].0,
            ) is Some && extends(ms[i].1, lookup(os, ms[i].0).unwrap())) by {
                let k = ms[i].0;
                lemma_lookup_first(ns, k);
                let j = key_pos(ns, k).unwrap();
                assert(ns[j].0 == k);
                assert(is_first_key(ns, ns[j].0, j));
                lemma_extends_trans(ms[i].1, ns[j].1, lookup(os, k).unwrap());
            }
        },
        _ => {},
    }
}

/// Setting a name that is missing, or one whose value the new value
/// extends, extends the object.
proof fn lemma_insert_extends(ms: Seq<(Seq<char>, Json)>, key: Seq<char>, v: Json)
    requires
        lookup(ms, key) matches Some(u) ==> extends(u, v),
    ensures
        extends(Json::Object(ms), Json::Object(insert_member(ms, key, v))),
{
    let ns = insert_member(ms, key, v);
    assert forall|i: int| 0 <= i < ms.len() && #[trigger] is_first_key(ms, ms[i].0, i) implies (lookup(
        ns,
        ms[i].0,
    ) is Some && extends(ms[i].1, lookup(ns, ms[i].0).unwrap())) by {
        let k = ms[i].0;
        lemma_first_lookup(ms, k, i);
        lemma_insert_member(ms, key, v, k);
        if k != key {
            lemma_extends_refl(ms[i].1);
        }
    }
}

proof fn lemma_add_missing_extends(ms: Seq<(Seq<char>, Json)>, key: Seq<char>, v: Json)
    ensures
        extends(Json::Object(ms), Json::Object(add_missing(ms, key, v).0)),
{
    if has_key(ms, key) {
        lemma_extends_refl(Json::Object(ms));
    } else {
        lemma_lookup_has_key(ms, key);
        lemma_insert_extends(ms, key, v);
    }
}

proof fn lemma_with_entry_extends(ms: Seq<(Seq<char>, Json)>, key: Seq<char>)
    ensures
        extends(Json::Object(ms), Json::Object(with_entry(ms, key))),
        lookup(with_entry(ms, key), key) is Some,
{
    lemma_with_entry_keeps(ms, key);
    lemma_lookup_has_key(with_entry(ms, key), key);
    if has_key(ms, key) {
        lemma_extends_refl(Json::Object(ms));
    } else {
        lemma_lookup_has_key(ms, key);
        lemma_insert_extends(ms, key, empty_object());
    }
}

/// Setting a present member to a value that extends the one it had
/// extends the object.
proof fn lemma_fill_extends(ms: Seq<(Seq<char>, Json)>, key: Seq<char>, filled: Json)
    requires
        lookup(ms, key) is Some,
        extends(lookup(ms, key).unwrap(), filled),
    ensures
        extends(Json::Object(ms), Json::Object(insert_member(ms, key, filled))),
{
    lemma_insert_extends(ms, key, filled);
}

proof fn lemma_ui_extends(ui: Json)
    ensures
        extends(ui, enrich_ui(ui).0),
{
    match ui {
        Json::Object(ms) => lemma_add_missing_extends(ms, "visibility"@, visibility_json()),
        _ => lemma_extends_refl(ui),
    }
}

proof fn lemma_meta_extends(meta: Json)
    ensures
        extends(meta, enrich_meta(meta).0),
{
    match meta {
        Json::Object(ms) => {
            let m0 = with_entry(ms, "ui"@);
            lemma_with_entry_extends(ms, "ui"@);
            let u0 = lookup(m0, "ui"@).unwrap();
            let ui = enrich_ui(u0).0;
            lemma_ui_extends(u0);
            let m1 = insert_member(m0, "ui"@, ui);
            lemma_fill_extends(m0, "ui"@, ui);
            lemma_extends_trans(Json::Object(ms), Json::Object(m0), Json::Object(m1));
            let m2 = add_missing(m1, "securitySchemes"@, security_schemes_json()).0;
            lemma_add_missing_extends(m1, "securitySchemes"@, security_schemes_json());
            lemma_extends_trans(Json::Object(ms), Json::Object(m1), Json::Object(m2));
            let m3 = add_missing(m2, "openai/toolInvocation/invoking"@, Json::Str("Fetching source"@)).0;
            lemma_add_missing_extends(m2, "openai/toolInvocation/invoking"@, Json::Str("Fetching source"@));
            lemma_extends_trans(Json::Object(ms), Json::Object(m2), Json::Object(m3));
            let m4 = add_missing(m3, "openai/toolInvocation/invoked"@, Json::Str("Source fetched"@)).0;
            lemma_add_missing_extends(m3, "openai/toolInvocation/invoked"@, Json::Str("Source fetched"@));
            lemma_extends_trans(Json::Object(ms), Json::Object(m3), Json::Object(m4));
            let m5 = add_missing(m4, "openai/visibility"@, Json::Str("public"@)).0;
            lemma_add_missing_extends(m4, "openai/visibility"@, Json::Str("public"@));
            lemma_extends_trans(Json::Object(ms), Json::Object(m4), Json::Object(m5));
        },
        _ => lemma_extends_refl(meta),
    }
}

proof fn lemma_annotations_extend(annotations: Json)
    ensures
        extends(annotations, enrich_annotations(annotations).0),
{
    match annotations {
        Json::Object(ms) => {
            let m1 = add_missing(ms, "title"@, Json::Str("Fetch exact source URL"@)).0;
            lemma_add_missing_extends(ms, "title"@, Json::Str("Fetch exact source URL"@));
            let m2 = add_missing(m1, "readOnlyHint"@, Json::Bool(true)).0;
            lemma_add_missing_extends(m1, "readOnlyHint"@, Json::Bool(true));
            lemma_extends_trans(Json::Object(ms), Json::Object(m1), Json::Object(m2));
            let m3 = add_missing(m2, "destructiveHint"@, Json::Bool(false)).0;
            lemma_add_missing_extends(m2, "destructiveHint"@, Json::Bool(false));
            lemma_extends_trans(Json::Object(ms), Json::Object(m2), Json::Object(m3));
            let m4 = add_missing(m3, "idempotentHint"@, Json::Bool(true)).0;
            lemma_add_missing_extends(m3, "idempotentHint"@, Json::Bool(true));
            lemma_extends_trans(Json::Object(ms), Json::Object(m3), Json::Object(m4));
            let m5 = add_missing(m4, "openWorldHint"@, Json::Bool(true)).0;
            lemma_add_missing_extends(m4, "openWorldHint"@, Json::Bool(true));
            lemma_extends_trans(Json::Object(ms), Json::Object(m4), Json::Object(m5));
        },
        _ => lemma_extends_refl(annotations),
    }
}

proof fn lemma_fetch_source_extends(ms: Seq<(Seq<char>, Json)>)
    ensures
        extends(Json::Object(ms), Json::Object(enrich_fetch_source(ms).0)),
{
    let m1 = add_missing(ms, "title"@, Json::Str("Fetch Source"@)).0;
    lemma_add_missing_extends(ms, "title"@, Json::Str("Fetch Source"@));
    let m2 = add_missing(m1, "outputSchema"@, output_schema_json()).0;
    lemma_add_missing_extends(m1, "outputSchema"@, output_schema_json());
    lemma_extends_trans(Json::Object(ms), Json::Object(m1), Json::Object(m2));
    let m3 = with_entry(m2, "_meta"@);
    lemma_with_entry_extends(m2, "_meta"@);
    lemma_extends_trans(Json::Object(ms), Json::Object(m2), Json::Object(m3));
    let meta0 = lookup(m3, "_meta"@).unwrap();
    let meta = enrich_meta(meta0).0;
    lemma_meta_extends(meta0);
    let m4 = insert_member(m3, "_meta"@, meta);
    lemma_fill_extends(m3, "_meta"@, meta);
    lemma_extends_trans(Json::Object(ms), Json::Object(m3), Json::Object(m4));
    let m5 = with_entry(m4, "annotations"@);
    lemma_with_entry_extends(m4, "annotations"@);
    lemma_extends_trans(Json::Object(ms), Json::Object(m4), Json::Object(m5));
    let ann0 = lookup(m5, "annotations"@).unwrap();
    let ann = enrich_annotations(ann0).0;
    lemma_annotations_extend(ann0);
    lemma_fill_extends(m5, "annotations"@, ann);
    lemma_extends_trans(Json::Object(ms), Json::Object(m5), Json::Object(insert_member(m5, "annotations"@, ann)));
}

proof fn lemma_mirror_extends(ms: Seq<(Seq<char>, Json)>)
    ensures
        extends(Json::Object(ms), Json::Object(mirror_schemes(ms).0)),
{
    if has_key(ms, "securitySchemes"@) {
        lemma_extends_refl(Json::Object(ms));
    } else {
        lemma_lookup_has_key(ms, "securitySchemes"@);
        match lookup(ms, "_meta"@) {
            Some(meta) => match meta.member("securitySchemes"@) {
                Some(schemes) => lemma_insert_extends(ms, "securitySchemes"@, schemes),
                None => lemma_extends_refl(Json::Object(ms)),
            },
            None => lemma_extends_refl(Json::Object(ms)),
        }
    }
}

proof fn lemma_tool_extends(tool: Json)
    ensures
        extends(tool, enrich_tool(tool).0),
{
    match tool {
        Json::Object(ms) => {
            let m1 = if names_fetch_source(ms) {
                enrich_fetch_source(ms).0
            } else {
                ms
            };
            if names_fetch_source(ms) {
                lemma_fetch_source_extends(ms);
            } else {
                lemma_extends_refl(Json::Object(ms));
            }
            lemma_mirror_extends(m1);
            lemma_extends_trans(Json::Object(ms), Json::Object(m1), Json::Object(mirror_schemes(m1).0));
        },
        _ => lemma_extends_refl(tool),
    }
}

/// Enrichment of a `tools/list` reply only adds: every name of every
/// object in the reply keeps its place in the tree and a value that
/// extends the one it had, so nothing is overwritten or removed, arrays
/// keep their length, and scalars stay as they are. A reply whose
/// `result.tools` is not an array is left as it is and reported unchanged.
/// A tool not named `fetch_source` either stays as it is or gains exactly
/// one member, `securitySchemes`, which it lacked, holding its
/// `_meta.securitySchemes`.
pub proof fn lemma_enrich_only_adds(message: Json)
    ensures
        extends(message, enrich_message(message).0),
        listed_tools(message) is None ==> enrich_message(message) == (message, false),
        forall|ms: Seq<(Seq<char>, Json)>| !#[trigger] names_fetch_source(ms) ==> {
            ||| enrich_tool(Json::Object(ms)).0 == Json::Object(ms)
            ||| !has_key(ms, "securitySchemes"@) && lookup(ms, "_meta"@) is Some
                && lookup(ms, "_meta"@).unwrap().member("securitySchemes"@) is Some
                && enrich_tool(Json::Object(ms)).0 == Json::Object(
                ms.push(("securitySchemes"@, lookup(ms, "_meta"@).unwrap().member("securitySchemes"@).unwrap())),
            )
        },
{
    assert forall|ms: Seq<(Seq<char>, Json)>| !#[trigger] names_fetch_source(ms) implies {
        ||| enrich_tool(Json::Object(ms)).0 == Json::Object(ms)
        ||| !has_key(ms, "securitySchemes"@) && lookup(ms, "_meta"@) is Some
            && lookup(ms, "_meta"@).unwrap().member("securitySchemes"@) is Some
            && enrich_tool(Json::Object(ms)).0 == Json::Object(
            ms.push(("securitySchemes"@, lookup(ms, "_meta"@).unwrap().member("securitySchemes"@).unwrap())),
        )
    } by {
        lemma_has_key_pos(ms, "securitySchemes"@);
    }
    match message {
        Json::Object(ms) => match lookup(ms, "result"@) {
            Some(Json::Object(rms)) => match lookup(rms, "tools"@) {
                Some(Json::Array(tools)) => {
                    let t = enrich_tools(tools).0;
                    assert forall|i: int| 0 <= i < tools.len() implies extends(tools[i], #[trigger] t[i]) by {
                        lemma_tool_extends(tools[i]);
                    }
                    assert(extends(Json::Array(tools), Json::Array(t)));
                    let rms2 = insert_member(rms, "tools"@, Json::Array(t));
                    lemma_insert_extends(rms, "tools"@, Json::Array(t));
                    lemma_insert_extends(ms, "result"@, Json::Object(rms2));
                },
                _ => lemma_extends_refl(message),
            },
            _ => lemma_extends_refl(message),
        },
        _ => lemma_extends_refl(message),
    }
}

// ---------------------------------------------------------------------
// Enrichment reports exactly when it changes something.

proof fn lemma_add_missing_flag(ms: Seq<(Seq<char>, Json)>, key: Seq<char>, v: Json)
    ensures
        add_missing(ms, key, v).1 ==> lookup(ms, key) is None && lookup(add_missing(ms, key, v).0, key) is Some,
        !add_missing(ms, key, v).1 ==> add_missing(ms, key, v).0 == ms,
{
    lemma_lookup_has_key(ms, key);
    lemma_insert_member(ms, key, v, key);
}

proof fn lemma_ui_flag(ui: Json)
    ensures
        enrich_ui(ui).1 == (enrich_ui(ui).0 != ui),
        enrich_ui(empty_object()).1,
{
    lemma_add_missing_flag(Seq::empty(), "visibility"@, visibility_json());
    if let Json::Object(ms) = ui {
        lemma_add_missing_flag(ms, "visibility"@, visibility_json());
    }
}

proof fn lemma_meta_flag(meta: Json)
    ensures
        enrich_meta(meta).1 == (enrich_meta(meta).0 != meta),
        enrich_meta(empty_object()).1,
{
    lemma_ui_flag(empty_object());
    let e: Seq<(Seq<char>, Json)> = Seq::empty();
    lemma_with_entry_keeps(e, "ui"@);
    lemma_insert_keeps(e, "ui"@, empty_object());
    lemma_lookup_has_key(e, "ui"@);
    if let Json::Object(ms) = meta {
        lemma_enrich_names_distinct();
        let ss = "securitySchemes"@;
        let inv = "openai/toolInvocation/invoking"@;
        let done = "openai/toolInvocation/invoked"@;
        let vis = "openai/visibility"@;
        let m0 = with_entry(ms, "ui"@);
        lemma_with_entry_keeps(ms, "ui"@);
        lemma_lookup_has_key(m0, "ui"@);
        lemma_lookup_has_key(ms, "ui"@);
        let u0 = lookup(m0, "ui"@).unwrap();
        let (ui, c0) = enrich_ui(u0);
        lemma_ui_flag(u0);
        let m1 = insert_member(m0, "ui"@, ui);
        lemma_insert_keeps(m0, "ui"@, ui);
        let (m2, c1) = add_missing(m1, ss, security_schemes_json());
        lemma_add_missing_flag(m1, ss, security_schemes_json());
        lemma_add_missing_keeps(m1, ss, security_schemes_json());
        let (m3, c2) = add_missing(m2, inv, Json::Str("Fetching source"@));
        lemma_add_missing_flag(m2, inv, Json::Str("Fetching source"@));
        lemma_add_missing_keeps(m2, inv, Json::Str("Fetching source"@));
        let (m4, c3) = add_missing(m3, done, Json::Str("Source fetched"@));
        lemma_add_missing_flag(m3, done, Json::Str("Source fetched"@));
        lemma_add_missing_keeps(m3, done, Json::Str("Source fetched"@));
        let (m5, c4) = add_missing(m4, vis, Json::Str("public"@));
        lemma_add_missing_flag(m4, vis, Json::Str("public"@));
        lemma_add_missing_keeps(m4, vis, Json::Str("public"@));
        assert(enrich_meta(meta) == (Json::Object(m5), c0 || c1 || c2 || c3 || c4));
        if !has_key(ms, "ui"@) {
            lemma_insert_keeps(ms, "ui"@, empty_object());
            assert(u0 == empty_object());
            assert(lookup(m5, "ui"@) != lookup(ms, "ui"@));
        } else {
            assert(m0 == ms);
            if c0 {
                assert(lookup(m5, "ui"@) != lookup(ms, "ui"@));
            } else {
                lemma_insert_same(m0, "ui"@, u0);
                assert(m1 == ms);
                if c1 {
                    assert(lookup(m5, ss) != lookup(ms, ss));
                } else if c2 {
                    assert(lookup(m5, inv) != lookup(ms, inv));
                } else if c3 {
                    assert(lookup(m5, done) != lookup(ms, done));
                } else if c4 {
                    assert(lookup(m5, vis) != lookup(ms, vis));
                } else {
                    assert(m5 == ms);
                }
            }
        }
    }
}

proof fn lemma_annotations_flag(annotations: Json)
    ensures
        enrich_annotations(annotations).1 == (enrich_annotations(annotations).0 != annotations),
        enrich_annotations(empty_object()).1,
{
    lemma_add_missing_flag(Seq::empty(), "title"@, Json::Str("Fetch exact source URL"@));
    if let Json::Object(ms) = annotations {
        lemma_enrich_names_distinct();
        let (m1, c1) = add_missing(ms, "title"@, Json::Str("Fetch exact source URL"@));
        lemma_add_missing_flag(ms, "title"@, Json::Str("Fetch exact source URL"@));
        lemma_add_missing_keeps(ms, "title"@, Json::Str("Fetch exact source URL"@));
        let (m2, c2) = add_missing(m1, "readOnlyHint"@, Json::Bool(true));
        lemma_add_missing_flag(m1, "readOnlyHint"@, Json::Bool(true));
        lemma_add_missing_keeps(m1, "readOnlyHint"@, Json::Bool(true));
        let (m3, c3) = add_missing(m2, "destructiveHint"@, Json::Bool(false));
        lemma_add_missing_flag(m2, "destructiveHint"@, Json::Bool(false));
        lemma_add_missing_keeps(m2, "destructiveHint"@, Json::Bool(false));
        let (m4, c4) = add_missing(m3, "idempotentHint"@, Json::Bool(true));
        lemma_add_missing_flag(m3, "idempotentHint"@, Json::Bool(true));
        lemma_add_missing_keeps(m3, "idempotentHint"@, Json::Bool(true));
        let (m5, c5) = add_missing(m4, "openWorldHint"@, Json::Bool(true));
        lemma_add_missing_flag(m4, "openWorldHint"@, Json::Bool(true));
        lemma_add_missing_keeps(m4, "openWorldHint"@, Json::Bool(true));
        if c1 {
            assert(lookup(m5, "title"@) != lookup(ms, "title"@));
        } else if c2 {
            assert(lookup(m5, "readOnlyHint"@) != lookup(ms, "readOnlyHint"@));
        } else if c3 {
            assert(lookup(m5, "destructiveHint"@) != lookup(ms, "destructiveHint"@));
        } else if c4 {
            assert(lookup(m5, "idempotentHint"@) != lookup(ms, "idempotentHint"@));
        } else if c5 {
            assert(lookup(m5, "openWorldHint"@) != lookup(ms, "openWorldHint"@));
        }
    }
}

proof fn lemma_fetch_source_flag(ms: Seq<(Seq<char>, Json)>)
    ensures
        enrich_fetch_source(ms).1 ==> exists|k: Seq<char>|
            k != "securitySchemes"@ && #[trigger] lookup(enrich_fetch_source(ms).0, k) != lookup(ms, k),
        !enrich_fetch_source(ms).1 ==> enrich_fetch_source(ms).0 == ms,
{
    lemma_enrich_names_distinct();
    lemma_meta_flag(empty_object());
    lemma_annotations_flag(empty_object());
    let (m1, c1) = add_missing(ms, "title"@, Json::Str("Fetch Source"@));
    lemma_add_missing_flag(ms, "title"@, Json::Str("Fetch Source"@));
    lemma_add_missing_keeps(ms, "title"@, Json::Str("Fetch Source"@));
    let (m2, c2) = add_missing(m1, "outputSchema"@, output_schema_json());
    lemma_add_missing_flag(m1, "outputSchema"@, output_schema_json());
    lemma_add_missing_keeps(m1, "outputSchema"@, output_schema_json());
    let m3 = with_entry(m2, "_meta"@);
    lemma_with_entry_keeps(m2, "_meta"@);
    lemma_lookup_has_key(m3, "_meta"@);
    lemma_lookup_has_key(m2, "_meta"@);
    let meta0 = lookup(m3, "_meta"@).unwrap();
    let (meta, c3) = enrich_meta(meta0);
    lemma_meta_flag(meta0);
    let m4 = insert_member(m3, "_meta"@, meta);
    lemma_insert_keeps(m3, "_meta"@, meta);
    let m5 = with_entry(m4, "annotations"@);
    lemma_with_entry_keeps(m4, "annotations"@);
    lemma_lookup_has_key(m5, "annotations"@);
    lemma_lookup_has_key(m4, "annotations"@);
    let ann0 = lookup(m5, "annotations"@).unwrap();
    let (ann, c4) = enrich_annotations(ann0);
    lemma_annotations_flag(ann0);
    let m6 = insert_member(m5, "annotations"@, ann);
    lemma_insert_keeps(m5, "annotations"@, ann);
    assert(enrich_fetch_source(ms) == (m6, c1 || c2 || c3 || c4));
    if c1 {
        assert(lookup(m6, "title"@) != lookup(ms, "title"@));
        assert(lookup(enrich_fetch_source(ms).0, "title"@) != lookup(ms, "title"@));
    } else if c2 {
        assert(lookup(m6, "outputSchema"@) != lookup(ms, "outputSchema"@));
        assert(lookup(enrich_fetch_source(ms).0, "outputSchema"@) != lookup(ms, "outputSchema"@));
    } else {
        assert(m2 == ms);
        if !has_key(m2, "_meta"@) {
            lemma_insert_keeps(m2, "_meta"@, empty_object());
            assert(meta0 == empty_object());
            assert(lookup(m6, "_meta"@) != lookup(ms, "_meta"@));
        assert(lookup(enrich_fetch_source(ms).0, "_meta"@) != lookup(ms, "_meta"@));
        } else if c3 {
            assert(m3 == ms);
            assert(lookup(m6, "_meta"@) != lookup(ms, "_meta"@));
        assert(lookup(enrich_fetch_source(ms).0, "_meta"@) != lookup(ms, "_meta"@));
        } else {
            assert(m3 == ms);
            lemma_insert_same(m3, "_meta"@, meta0);
            assert(m4 == ms);
            if !has_key(m4, "annotations"@) {
                lemma_insert_keeps(m4, "annotations"@, empty_object());
                assert(ann0 == empty_object());
                assert(lookup(m6, "annotations"@) != lookup(ms, "annotations"@));
        assert(lookup(enrich_fetch_source(ms).0, "annotations"@) != lookup(ms, "annotations"@));
            } else if c4 {
                assert(lookup(m6, "annotations"@) != lookup(ms, "annotations"@));
        assert(lookup(enrich_fetch_source(ms).0, "annotations"@) != lookup(ms, "annotations"@));
            } else {
                lemma_insert_same(m5, "annotations"@, ann0);
            }
        }
    }
}

proof fn lemma_tool_flag(tool: Json)
    ensures
        enrich_tool(tool).1 == (enrich_tool(tool).0 != tool),
{
    if let Json::Object(ms) = tool {
        lemma_enrich_names_distinct();
        let (m1, c1) = if names_fetch_source(ms) {
            enrich_fetch_source(ms)
        } else {
            (ms, false)
        };
        lemma_fetch_source_flag(ms);
        let (m2, c2) = mirror_schemes(m1);
        lemma_mirror_schemes_twice(m1);
        if c1 {
            let k = choose|k: Seq<char>| k != "securitySchemes"@ && #[trigger] lookup(m1, k) != lookup(ms, k);
            assert(lookup(m2, k) != lookup(ms, k));
        } else {
            assert(m1 == ms);
            if c2 {
                lemma_lookup_has_key(m1, "securitySchemes"@);
                let schemes = lookup(m1, "_meta"@).unwrap().member("securitySchemes"@).unwrap();
                lemma_insert_keeps(m1, "securitySchemes"@, schemes);
                assert(lookup(m2, "securitySchemes"@) != lookup(ms, "securitySchemes"@));
            }
        }
    }
}

/// Enrichment of a `tools/list` reply reports a change exactly when the
/// reply it gives back differs from the one it was given.
pub proof fn lemma_enrich_flag(message: Json)
    ensures
        enrich_message(message).1 == (enrich_message(message).0 != message),
{
    if let Json::Object(ms) = message {
        if let Some(Json::Object(rms)) = lookup(ms, "result"@) {
            if let Some(Json::Array(tools)) = lookup(rms, "tools"@) {
                lemma_enrich_names_distinct();
                let (t, c) = enrich_tools(tools);
                let rms2 = insert_member(rms, "tools"@, Json::Array(t));
                lemma_insert_keeps(rms, "tools"@, Json::Array(t));
                let ms2 = insert_member(ms, "result"@, Json::Object(rms2));
                lemma_insert_keeps(ms, "result"@, Json::Object(rms2));
                if c {
                    let i = choose|i: int| 0 <= i < tools.len() && (#[trigger] enrich_tool(tools[i])).1;
                    lemma_tool_flag(tools[i]);
                    assert(t[i] != tools[i]);
                    assert(Json::Array(t) != Json::Array(tools));
                    assert(lookup(rms2, "tools"@) != lookup(rms, "tools"@));
                    assert(lookup(ms2, "result"@) != lookup(ms, "result"@));
                } else {
                    assert forall|i: int| 0 <= i < tools.len() implies #[trigger] t[i] == tools[i] by {
                        lemma_tool_flag(tools[i]);
                    }
                    assert(t =~= tools);
                    lemma_insert_same(rms, "tools"@, Json::Array(tools));
                    lemma_insert_same(ms, "result"@, Json::Object(rms));
                }
            }
        }
    }
}

// ---------------------------------------------------------------------
// The structured result meets the output schema.

/// The JSON Schema type of a value.
pub open spec fn schema_type_of(v: Json) -> Seq<char> {
    match v {
        Json::Null => "null"@,
        Json::Bool(_) => "boolean"@,
        Json::UInt(_) => "integer"@,
        Json::Int(_) => "integer"@,
        Json::Float(_) => "number"@,
        Json::Str(_) => "string"@,
        Json::Array(_) => "array"@,
        Json::Object(_) => "object"@,
    }
}

/// Whether a value meets an object schema that lists its `properties`
/// with their types, its `required` names and `additionalProperties:
/// false`: it is an object, each member is a listed property with the
/// listed type, and each required name is present.
pub open spec fn meets_object_schema(v: Json, schema: Json) -> bool {
    &&& schema.member("type"@) == Some(Json::Str("object"@))
    &&& schema.member("additionalProperties"@) == Some(Json::Bool(false))
    &&& v is Object
    &&& schema.member("properties"@) matches Some(Json::Object(props))
    &&& schema.member("required"@) matches Some(Json::Array(required))
    &&& forall|i: int|
        0 <= i < v->Object_0.len() ==> (lookup(props, #[trigger] v->Object_0[i].0) matches Some(p) && p.member("type"@)
            == Some(Json::Str(schema_type_of(v->Object_0[i].1))))
    &&& forall|j: int|
        0 <= j < required.len() ==> (#[trigger] required[j] matches Json::Str(name) && has_key(v->Object_0, name))
}

proof fn lemma_output_names_distinct()
    ensures
        "receipt_id"@ != "source_url"@,
        "receipt_id"@ != "status"@,
        "receipt_id"@ != "fetch_elapsed_ms"@,
        "receipt_id"@ != "content_bytes"@,
        "receipt_id"@ != "text"@,
        "source_url"@ != "status"@,
        "source_url"@ != "fetch_elapsed_ms"@,
        "source_url"@ != "content_bytes"@,
        "source_url"@ != "text"@,
        "status"@ != "fetch_elapsed_ms"@,
        "status"@ != "content_bytes"@,
        "status"@ != "text"@,
        "fetch_elapsed_ms"@ != "content_bytes"@,
        "fetch_elapsed_ms"@ != "text"@,
        "content_bytes"@ != "text"@,
        "$schema"@ != "type"@,
        "$schema"@ != "properties"@,
        "$schema"@ != "required"@,
        "$schema"@ != "additionalProperties"@,
        "type"@ != "properties"@,
        "type"@ != "required"@,
        "type"@ != "additionalProperties"@,
        "properties"@ != "required"@,
        "properties"@ != "additionalProperties"@,
        "required"@ != "additionalProperties"@,
{
    reveal_strlit("receipt_id");
    reveal_strlit("source_url");
    reveal_strlit("status");
    reveal_strlit("fetch_elapsed_ms");
    reveal_strlit("content_bytes");
    reveal_strlit("text");
    reveal_strlit("$schema");
    reveal_strlit("type");
    reveal_strlit("properties");
    reveal_strlit("required");
    reveal_strlit("additionalProperties");
    assert("receipt_id"@.len() == 10);
    assert("source_url"@.len() == 10);
    assert("status"@.len() == 6);
    assert("fetch_elapsed_ms"@.len() == 16);
    assert("content_bytes"@.len() == 13);
    assert("text"@.len() == 4);
    assert("$schema"@.len() == 7);
    assert("type"@.len() == 4);
    assert("properties"@.len() == 10);
    assert("required"@.len() == 8);
    assert("additionalProperties"@.len() == 20);
    assert("receipt_id"@[0] != "source_url"@[0]);
    assert("type"@[1] != "text"@[1]);
}

/// The structured answer of the `fetch_source` tool meets the tool's
/// output schema: every member is a listed property of the listed type,
/// and `receipt_id`, `source_url` and `text` are always there.
pub proof fn lemma_structured_result_meets_schema(receipt_id: Seq<char>, receipt: Receipt, text: Seq<char>)
    ensures
        meets_object_schema(Json::Object(structured_members(receipt_id, receipt, text)), output_schema_json()),
{
    lemma_output_names_distinct();
    let top = output_schema_json()->Object_0;
    assert(is_first_key(top, "type"@, 1));
    lemma_first_lookup(top, "type"@, 1);
    assert(is_first_key(top, "properties"@, 2));
    lemma_first_lookup(top, "properties"@, 2);
    assert(is_first_key(top, "required"@, 3));
    lemma_first_lookup(top, "required"@, 3);
    assert(is_first_key(top, "additionalProperties"@, 4));
    lemma_first_lookup(top, "additionalProperties"@, 4);
    let props = top[2].1->Object_0;
    assert(is_first_key(props, "receipt_id"@, 0));
    lemma_first_lookup(props, "receipt_id"@, 0);
    assert(is_first_key(props, "source_url"@, 1));
    lemma_first_lookup(props, "source_url"@, 1);
    assert(is_first_key(props, "status"@, 2));
    lemma_first_lookup(props, "status"@, 2);
    assert(is_first_key(props, "fetch_elapsed_ms"@, 3));
    lemma_first_lookup(props, "fetch_elapsed_ms"@, 3);
    assert(is_first_key(props, "content_bytes"@, 4));
    lemma_first_lookup(props, "content_bytes"@, 4);
    assert(is_first_key(props, "text"@, 5));
    lemma_first_lookup(props, "text"@, 5);
    assert forall|kind: Seq<char>, d: Seq<char>| #[trigger] property_json(kind, d).member("type"@) == Some(Json::Str(kind)) by {
        let pm = property_json(kind, d)->Object_0;
        assert(is_first_key(pm, "type"@, 0));
        lemma_first_lookup(pm, "type"@, 0);
    }
    let ms = structured_members(receipt_id, receipt, text);
    let head = seq![("receipt_id"@, Json::Str(receipt_id)), ("source_url"@, Json::Str(receipt.source_url@))];
    let s1 = match receipt.status {
        Some(n) => head.push(("status"@, signed_json(n))),
        None => head,
    };
    let s2 = match receipt.duration_elapsed_ms {
        Some(n) => s1.push(("fetch_elapsed_ms"@, Json::UInt(n))),
        None => s1,
    };
    let s3 = match receipt.content_bytes {
        Some(n) => s2.push(("content_bytes"@, Json::UInt(n as u64))),
        None => s2,
    };
    assert(ms == s3.push(("text"@, Json::Str(text))));
    assert forall|i: int| 0 <= i < ms.len() implies (lookup(props, #[trigger] ms[i].0) matches Some(p) && p.member(
        "type"@,
    ) == Some(Json::Str(schema_type_of(ms[i].1)))) by {
        if i == ms.len() - 1 {
        } else if i < 2 {
            assert(ms[i] == head[i]);
        } else {
            assert(ms[i] == s3[i]);
        }
    }
    let required = top[3].1->Array_0;
    assert forall|j: int| 0 <= j < required.len() implies (#[trigger] required[j] matches Json::Str(name) && has_key(
        ms,
        name,
    )) by {
        assert(ms[0].0 == "receipt_id"@);
        assert(ms[1].0 == "source_url"@);
        assert(ms[ms.len() - 1].0 == "text"@);
    }
}

// ---------------------------------------------------------------------
// What enrichment fills in is what the tool declares.

proof fn lemma_add_missing_lookup(ms: Seq<(Seq<char>, Json)>, key: Seq<char>, v: Json, o: Seq<char>)
    ensures
        lookup(add_missing(ms, key, v).0, o) == if o == key && lookup(ms, key) is None {
            Some(v)
        } else {
            lookup(ms, o)
        },
{
    lemma_lookup_has_key(ms, key);
    lemma_insert_member(ms, key, v, o);
}

/// A name that no member of `ms` carries is not found.
proof fn lemma_absent_lookup(ms: Seq<(Seq<char>, Json)>, o: Seq<char>)
    requires
        forall|i: int| 0 <= i < ms.len() ==> #[trigger] ms[i].0 != o,
    ensures
        lookup(ms, o) is None,
{
    lemma_lookup_has_key(ms, o);
}

/// The declared annotations, member by member.
proof fn lemma_declared_annotations(o: Seq<char>)
    ensures
        annotations_json().member(o) == if o == "title"@ {
            Some(Json::Str("Fetch exact source URL"@))
        } else if o == "readOnlyHint"@ {
            Some(Json::Bool(true))
        } else if o == "destructiveHint"@ {
            Some(Json::Bool(false))
        } else if o == "idempotentHint"@ {
            Some(Json::Bool(true))
        } else if o == "openWorldHint"@ {
            Some(Json::Bool(true))
        } else {
            None
        },
{
    lemma_enrich_names_distinct();
    let a = annotations_json()->Object_0;
    if o == "title"@ {
        assert(is_first_key(a, o, 0));
        lemma_first_lookup(a, o, 0);
    } else if o == "readOnlyHint"@ {
        assert(is_first_key(a, o, 1));
        lemma_first_lookup(a, o, 1);
    } else if o == "destructiveHint"@ {
        assert(is_first_key(a, o, 2));
        lemma_first_lookup(a, o, 2);
    } else if o == "idempotentHint"@ {
        assert(is_first_key(a, o, 3));
        lemma_first_lookup(a, o, 3);
    } else if o == "openWorldHint"@ {
        assert(is_first_key(a, o, 4));
        lemma_first_lookup(a, o, 4);
    } else {
        assert forall|i: int| 0 <= i < a.len() implies #[trigger] a[i].0 != o by {
            assert(i == 0 || i == 1 || i == 2 || i == 3 || i == 4);
        }
        lemma_absent_lookup(a, o);
    }
}

/// Enriching annotations fills each missing annotation with the one the
/// tool declares, and keeps every annotation already there: under every
/// name the result holds the incoming value if there was one, else the
/// declared one (so `readOnlyHint` is added as `true`, `destructiveHint`
/// as `false`), else nothing.
pub proof fn lemma_annotations_from_declaration(ms: Seq<(Seq<char>, Json)>, o: Seq<char>)
    ensures
        enrich_annotations(Json::Object(ms)).0 matches Json::Object(out) && lookup(out, o) == match lookup(ms, o) {
            Some(v) => Some(v),
            None => annotations_json().member(o),
        },
{
    lemma_enrich_names_distinct();
    lemma_declared_annotations(o);
    let m1 = add_missing(ms, "title"@, Json::Str("Fetch exact source URL"@)).0;
    lemma_add_missing_lookup(ms, "title"@, Json::Str("Fetch exact source URL"@), o);
    let m2 = add_missing(m1, "readOnlyHint"@, Json::Bool(true)).0;
    lemma_add_missing_lookup(m1, "readOnlyHint"@, Json::Bool(true), o);
    let m3 = add_missing(m2, "destructiveHint"@, Json::Bool(false)).0;
    lemma_add_missing_lookup(m2, "destructiveHint"@, Json::Bool(false), o);
    let m4 = add_missing(m3, "idempotentHint"@, Json::Bool(true)).0;
    lemma_add_missing_lookup(m3, "idempotentHint"@, Json::Bool(true), o);
    lemma_add_missing_lookup(m4, "openWorldHint"@, Json::Bool(true), o);
    if o == "readOnlyHint"@ || o == "destructiveHint"@ || o == "idempotentHint"@ || o == "openWorldHint"@ {
        lemma_add_missing_lookup(ms, "title"@, Json::Str("Fetch exact source URL"@), "readOnlyHint"@);
    }
}

/// The declared `_meta` members, member by member.
proof fn lemma_declared_meta(o: Seq<char>)
    ensures
        lookup(tool_meta_json(), o) == if o == "securitySchemes"@ {
            Some(security_schemes_json())
        } else if o == "ui"@ {
            Some(Json::Object(seq![("visibility"@, visibility_json())]))
        } else if o == "openai/visibility"@ {
            Some(Json::Str("public"@))
        } else if o == "openai/toolInvocation/invoking"@ {
            Some(Json::Str("Fetching source"@))
        } else if o == "openai/toolInvocation/invoked"@ {
            Some(Json::Str("Source fetched"@))
        } else {
            None
        },
{
    lemma_enrich_names_distinct();
    let a = tool_meta_json();
    if o == "securitySchemes"@ {
        assert(is_first_key(a, o, 0));
        lemma_first_lookup(a, o, 0);
    } else if o == "ui"@ {
        assert(is_first_key(a, o, 1));
        lemma_first_lookup(a, o, 1);
    } else if o == "openai/visibility"@ {
        assert(is_first_key(a, o, 2));
        lemma_first_lookup(a, o, 2);
    } else if o == "openai/toolInvocation/invoking"@ {
        assert(is_first_key(a, o, 3));
        lemma_first_lookup(a, o, 3);
    } else if o == "openai/toolInvocation/invoked"@ {
        assert(is_first_key(a, o, 4));
        lemma_first_lookup(a, o, 4);
    } else {
        assert forall|i: int| 0 <= i < a.len() implies #[trigger] a[i].0 != o by {
            assert(i == 0 || i == 1 || i == 2 || i == 3 || i == 4);
        }
        lemma_absent_lookup(a, o);
    }
}

/// Enriching a `_meta` object fills each missing member with the one the
/// tool declares, and keeps the members already there: under every name
/// other than `ui` the result holds the incoming value if there was one,
/// else the declared one. A missing `ui` becomes the declared `ui`; a `ui`
/// object keeps its members and gains the declared `visibility` if it
/// lacked one.
pub proof fn lemma_meta_from_declaration(ms: Seq<(Seq<char>, Json)>, o: Seq<char>)
    ensures
        enrich_meta(Json::Object(ms)).0 matches Json::Object(out) && {
            &&& o != "ui"@ ==> lookup(out, o) == match lookup(ms, o) {
                Some(v) => Some(v),
                None => lookup(tool_meta_json(), o),
            }
            &&& lookup(ms, "ui"@) is None ==> lookup(out, "ui"@) == lookup(tool_meta_json(), "ui"@)
            &&& lookup(ms, "ui"@) matches Some(Json::Object(u)) ==> (lookup(out, "ui"@) matches Some(
                Json::Object(u2),
            ) && lookup(u2, o) == match lookup(u, o) {
                Some(v) => Some(v),
                None => if o == "visibility"@ {
                    Some(visibility_json())
                } else {
                    None
                },
            })
        },
{
    lemma_enrich_names_distinct();
    lemma_declared_meta(o);
    lemma_declared_meta("ui"@);
    let m0 = with_entry(ms, "ui"@);
    lemma_with_entry_keeps(ms, "ui"@);
    lemma_insert_member(ms, "ui"@, empty_object(), o);
    lemma_lookup_has_key(ms, "ui"@);
    lemma_lookup_has_key(m0, "ui"@);
    let u0 = lookup(m0, "ui"@).unwrap();
    let ui = enrich_ui(u0).0;
    let m1 = insert_member(m0, "ui"@, ui);
    lemma_insert_member(m0, "ui"@, ui, o);
    let ss = "securitySchemes"@;
    let inv = "openai/toolInvocation/invoking"@;
    let done = "openai/toolInvocation/invoked"@;
    let vis = "openai/visibility"@;
    let m2 = add_missing(m1, ss, security_schemes_json()).0;
    lemma_add_missing_lookup(m1, ss, security_schemes_json(), o);
    lemma_add_missing_lookup(m1, ss, security_schemes_json(), "ui"@);
    let m3 = add_missing(m2, inv, Json::Str("Fetching source"@)).0;
    lemma_add_missing_lookup(m2, inv, Json::Str("Fetching source"@), o);
    lemma_add_missing_lookup(m2, inv, Json::Str("Fetching source"@), "ui"@);
    let m4 = add_missing(m3, done, Json::Str("Source fetched"@)).0;
    lemma_add_missing_lookup(m3, done, Json::Str("Source fetched"@), o);
    lemma_add_missing_lookup(m3, done, Json::Str("Source fetched"@), "ui"@);
    lemma_add_missing_lookup(m4, vis, Json::Str("public"@), o);
    lemma_add_missing_lookup(m4, vis, Json::Str("public"@), "ui"@);
    lemma_insert_keeps(m0, "ui"@, ui);
    if lookup(ms, "ui"@) is None {
        lemma_insert_keeps(ms, "ui"@, empty_object());
        let e: Seq<(Seq<char>, Json)> = Seq::empty();
        lemma_lookup_has_key(e, "visibility"@);
        assert(insert_member(e, "visibility"@, visibility_json()) =~= seq![("visibility"@, visibility_json())]);
    }
    if let Some(Json::Object(u)) = lookup(ms, "ui"@) {
        assert(m0 == ms);
        lemma_add_missing_lookup(u, "visibility"@, visibility_json(), o);
    }
}

/// Enriching the `fetch_source` descriptor keeps its title and output
/// schema when it has them and otherwise adds the tool's title and its
/// declared output schema; its `_meta` and `annotations` become the
/// enrichment of what it had there, or of an empty object when it had
/// nothing; every other member stays as it was.
pub proof fn lemma_fetch_source_from_declaration(ms: Seq<(Seq<char>, Json)>, o: Seq<char>)
    ensures
        lookup(enrich_fetch_source(ms).0, "title"@) == match lookup(ms, "title"@) {
            Some(v) => Some(v),
            None => Some(Json::Str("Fetch Source"@)),
        },
        lookup(enrich_fetch_source(ms).0, "outputSchema"@) == match lookup(ms, "outputSchema"@) {
            Some(v) => Some(v),
            None => Some(output_schema_json()),
        },
        lookup(enrich_fetch_source(ms).0, "_meta"@) == Some(
            enrich_meta(
                match lookup(ms, "_meta"@) {
                    Some(v) => v,
                    None => empty_object(),
                },
            ).0,
        ),
        lookup(enrich_fetch_source(ms).0, "annotations"@) == Some(
            enrich_annotations(
                match lookup(ms, "annotations"@) {
                    Some(v) => v,
                    None => empty_object(),
                },
            ).0,
        ),
        o != "title"@ && o != "outputSchema"@ && o != "_meta"@ && o != "annotations"@ ==> lookup(
            enrich_fetch_source(ms).0,
            o,
        ) == lookup(ms, o),
{
    lemma_enrich_names_distinct();
    let keys = seq!["title"@, "outputSchema"@, "_meta"@, "annotations"@, o];
    let m1 = add_missing(ms, "title"@, Json::Str("Fetch Source"@)).0;
    let m2 = add_missing(m1, "outputSchema"@, output_schema_json()).0;
    let m3 = with_entry(m2, "_meta"@);
    lemma_with_entry_keeps(m2, "_meta"@);
    lemma_lookup_has_key(m3, "_meta"@);
    let meta = enrich_meta(lookup(m3, "_meta"@).unwrap()).0;
    let m4 = insert_member(m3, "_meta"@, meta);
    let m5 = with_entry(m4, "annotations"@);
    lemma_with_entry_keeps(m4, "annotations"@);
    lemma_lookup_has_key(m5, "annotations"@);
    let ann = enrich_annotations(lookup(m5, "annotations"@).unwrap()).0;
    assert forall|j: int| 0 <= j < keys.len() implies {
        let k = #[trigger] keys[j];
        &&& lookup(m1, k) == if k == "title"@ && lookup(ms, k) is None {
            Some(Json::Str("Fetch Source"@))
        } else {
            lookup(ms, k)
        }
        &&& lookup(m2, k) == if k == "outputSchema"@ && lookup(m1, k) is None {
            Some(output_schema_json())
        } else {
            lookup(m1, k)
        }
        &&& lookup(m3, k) == if k == "_meta"@ && lookup(m2, k) is None {
            Some(empty_object())
        } else {
            lookup(m2, k)
        }
        &&& lookup(m4, k) == if k == "_meta"@ {
            Some(meta)
        } else {
            lookup(m3, k)
        }
        &&& lookup(m5, k) == if k == "annotations"@ && lookup(m4, k) is None {
            Some(empty_object())
        } else {
            lookup(m4, k)
        }
        &&& lookup(insert_member(m5, "annotations"@, ann), k) == if k == "annotations"@ {
            Some(ann)
        } else {
            lookup(m5, k)
        }
    } by {
        let k = keys[j];
        lemma_add_missing_lookup(ms, "title"@, Json::Str("Fetch Source"@), k);
        lemma_add_missing_lookup(m1, "outputSchema"@, output_schema_json(), k);
        lemma_lookup_has_key(m2, "_meta"@);
        lemma_insert_member(m2, "_meta"@, empty_object(), k);
        lemma_insert_member(m3, "_meta"@, meta, k);
        lemma_lookup_has_key(m4, "annotations"@);
        lemma_insert_member(m4, "annotations"@, empty_object(), k);
        lemma_insert_member(m5, "annotations"@, ann, k);
    }
    assert(keys[0] == "title"@);
    assert(keys[1] == "outputSchema"@);
    assert(keys[2] == "_meta"@);
    assert(keys[3] == "annotations"@);
    assert(keys[4] == o);
}

} // verus!
