//! Livy provenance records for resolver fetches: the redacted request
//! summary, the commitments, the schema fields and the attestation
//! request.

use vstd::prelude::*;
use crate::codec::{
    hex_text, le_value, sha256, sha256_digest, sha256_string_hex,
    u64_from_le_bytes,
};
use crate::env::{
    IntErrorKind, bool_word, env_text, int_error_message, int_error_text, opt_view, optional_value,
    parse_bool_word, parse_unsigned, parse_unsigned_spec, value_or,
};
use crate::encode::{encode_json, json_text};
use crate::errors::{status_display, status_text, valid_status};
use crate::json::{
    Json, JsonValue, array, has_key, is_first_key, items_deep, key_pos, lemma_first_key_unique,
    lemma_has_key_pos, lookup, members_deep, object, opt_deep, pair,
};
use crate::text::{
    concat2, owned, prefix_chars, push_str, str_eq, trim_end_char, trim_end_matches_char,
};
use crate::types::Receipt;
use vstd::utf8::encode_utf8;
use crate::types::{
    FormatSelection, ProductFormat, ProductMode, ProductProxy, ProductRequest, ProductRoute,
    route_name,
};

verus! {

/// Label of each output format.
pub open spec fn format_label(format: ProductFormat) -> Seq<char> {
    match format {
        ProductFormat::Raw => "raw"@,
        ProductFormat::Markdown => "markdown"@,
        ProductFormat::Commonmark => "commonmark"@,
        ProductFormat::Html2text => "html2text"@,
        ProductFormat::Text => "text"@,
        ProductFormat::Screenshot => "screenshot"@,
        ProductFormat::Xml => "xml"@,
        ProductFormat::Bytes => "bytes"@,
    }
}

/// Label of each proxy policy.
pub open spec fn proxy_name(proxy: ProductProxy) -> Seq<char> {
    match proxy {
        ProductProxy::Auto => "auto"@,
        ProductProxy::NoProxy => "none"@,
        ProductProxy::Isp => "isp"@,
        ProductProxy::Residential => "residential"@,
        ProductProxy::Mobile => "mobile"@,
    }
}

/// Label of each mode in provenance records.
pub open spec fn mode_name(mode: ProductMode) -> Seq<char> {
    match mode {
        ProductMode::Auto => "auto"@,
        ProductMode::Fast => "fast"@,
        ProductMode::Browser => "browser"@,
        ProductMode::Unblock => "unblock"@,
        ProductMode::Raw => "raw"@,
        ProductMode::Crawl => "crawl"@,
        ProductMode::LinkMap => "map"@,
        ProductMode::Search => "search"@,
        ProductMode::Extract => "extract"@,
        ProductMode::Screenshot => "screenshot"@,
    }
}

/// Label of an output format.
pub fn product_format_label(format: ProductFormat) -> (s: &'static str)
    ensures
        s@ == format_label(format),
{
    match format {
        ProductFormat::Raw => "raw",
        ProductFormat::Markdown => "markdown",
        ProductFormat::Commonmark => "commonmark",
        ProductFormat::Html2text => "html2text",
        ProductFormat::Text => "text",
        ProductFormat::Screenshot => "screenshot",
        ProductFormat::Xml => "xml",
        ProductFormat::Bytes => "bytes",
    }
}

/// Label of a proxy policy, when one is set.
pub fn proxy_label(proxy: Option<ProductProxy>) -> (s: Option<&'static str>)
    ensures
        match proxy {
            Some(p) => s matches Some(t) && t@ == proxy_name(p),
            None => s is None,
        },
{
    match proxy {
        Some(ProductProxy::Auto) => Some("auto"),
        Some(ProductProxy::NoProxy) => Some("none"),
        Some(ProductProxy::Isp) => Some("isp"),
        Some(ProductProxy::Residential) => Some("residential"),
        Some(ProductProxy::Mobile) => Some("mobile"),
        None => None,
    }
}

/// Label of a mode in provenance records.
pub fn mode_label(mode: ProductMode) -> (s: &'static str)
    ensures
        s@ == mode_name(mode),
{
    match mode {
        ProductMode::Auto => "auto",
        ProductMode::Fast => "fast",
        ProductMode::Browser => "browser",
        ProductMode::Unblock => "unblock",
        ProductMode::Raw => "raw",
        ProductMode::Crawl => "crawl",
        ProductMode::LinkMap => "map",
        ProductMode::Search => "search",
        ProductMode::Extract => "extract",
        ProductMode::Screenshot => "screenshot",
    }
}

// ---------------------------------------------------------------------
// JSON renderings of request fields.

pub open spec fn text_json(o: Option<String>) -> Json {
    match o {
        Some(s) => Json::Str(s@),
        None => Json::Null,
    }
}

pub open spec fn bool_json(o: Option<bool>) -> Json {
    match o {
        Some(b) => Json::Bool(b),
        None => Json::Null,
    }
}

pub open spec fn uint_json(o: Option<u64>) -> Json {
    match o {
        Some(n) => Json::UInt(n),
        None => Json::Null,
    }
}

pub open spec fn number_text_json(o: Option<String>) -> Json {
    match o {
        Some(s) => Json::Float(s@),
        None => Json::Null,
    }
}

pub open spec fn strings_json(v: Seq<String>) -> Seq<Json> {
    Seq::new(v.len(), |i: int| Json::Str(v[i]@))
}

pub open spec fn text_list_json(o: Option<Vec<String>>) -> Json {
    match o {
        Some(v) => Json::Array(strings_json(v@)),
        None => Json::Null,
    }
}

pub open spec fn formats_json(v: Seq<ProductFormat>) -> Seq<Json> {
    Seq::new(v.len(), |i: int| Json::Str(format_label(v[i])))
}

pub open spec fn format_list_json(o: Option<Vec<ProductFormat>>) -> Json {
    match o {
        Some(v) => Json::Array(formats_json(v@)),
        None => Json::Null,
    }
}

pub open spec fn format_selection_json(o: Option<FormatSelection>) -> Json {
    match o {
        Some(FormatSelection::One(f)) => Json::Str(format_label(f)),
        Some(FormatSelection::Many(v)) => Json::Array(formats_json(v@)),
        None => Json::Null,
    }
}

pub open spec fn selectors_json(o: Option<Vec<(String, Vec<String>)>>) -> Json {
    match o {
        Some(v) => Json::Object(
            Seq::new(v@.len(), |i: int| (v@[i].0@, Json::Array(strings_json(v@[i].1@)))),
        ),
        None => Json::Null,
    }
}

pub open spec fn proxy_json(o: Option<ProductProxy>) -> Json {
    match o {
        Some(p) => Json::Str(proxy_name(p)),
        None => Json::Null,
    }
}

/// Whether an optional text is present and non-empty, as JSON.
pub open spec fn presence_json(o: Option<String>) -> Json {
    match o {
        Some(s) => Json::Bool(s@.len() > 0),
        None => Json::Null,
    }
}

pub open spec fn count_json(o: Option<Vec<(String, String)>>) -> Json {
    match o {
        Some(v) => Json::UInt(v@.len() as u64),
        None => Json::Null,
    }
}

pub open spec fn opt_u32(o: Option<u32>) -> Option<u64> {
    match o {
        Some(n) => Some(n as u64),
        None => None,
    }
}

pub open spec fn opt_u8(o: Option<u8>) -> Option<u64> {
    match o {
        Some(n) => Some(n as u64),
        None => None,
    }
}

/// The redacted request summary: every option of the request, except
/// that custom headers appear only as their count, and cookies and the
/// user agent only as whether they are non-empty.
pub open spec fn summary_members(p: ProductRequest, route: ProductRoute, mode: ProductMode) -> Seq<(Seq<char>, Json)> {
    seq![
        ("route"@, Json::Str(route_name(route))),
        ("mode"@, Json::Str(mode_name(mode))),
        ("source"@, text_json(p.source)),
        ("query"@, text_json(p.query)),
        ("format"@, format_selection_json(p.format)),
        ("formats"@, format_list_json(p.formats)),
        ("proxy"@, proxy_json(p.proxy)),
        ("limit"@, uint_json(opt_u32(p.limit))),
        ("depth"@, uint_json(opt_u32(p.depth))),
        ("timeout_secs"@, uint_json(p.timeout_secs)),
        ("request_timeout_secs"@, uint_json(opt_u8(p.request_timeout_secs))),
        ("crawl_timeout_secs"@, uint_json(p.crawl_timeout_secs)),
        ("readability"@, bool_json(p.readability)),
        ("cache"@, bool_json(p.cache)),
        ("metadata"@, bool_json(p.metadata)),
        ("return_headers"@, bool_json(p.return_headers)),
        ("return_page_links"@, bool_json(p.return_page_links)),
        ("return_cookies"@, bool_json(p.return_cookies)),
        ("country_code"@, text_json(p.country_code)),
        ("locale"@, text_json(p.locale)),
        ("user_agent_present"@, presence_json(p.user_agent)),
        ("header_count"@, count_json(p.headers)),
        ("cookies_present"@, presence_json(p.cookies)),
        ("root_selector"@, text_json(p.root_selector)),
        ("selectors"@, selectors_json(p.selectors)),
        ("whitelist"@, text_list_json(p.whitelist)),
        ("blacklist"@, text_list_json(p.blacklist)),
        ("tld"@, bool_json(p.tld)),
        ("subdomains"@, bool_json(p.subdomains)),
        ("external_domains"@, text_list_json(p.external_domains)),
        ("sitemap"@, bool_json(p.sitemap)),
        ("respect_robots"@, bool_json(p.respect_robots)),
        ("stealth"@, bool_json(p.stealth)),
        ("fingerprint"@, bool_json(p.fingerprint)),
        ("scroll"@, uint_json(opt_u32(p.scroll))),
        ("wait_ms"@, uint_json(p.wait_ms)),
        ("wait_selector"@, text_json(p.wait_selector)),
        ("disable_intercept"@, bool_json(p.disable_intercept)),
        ("disable_hints"@, bool_json(p.disable_hints)),
        ("lite_mode"@, bool_json(p.lite_mode)),
        ("max_credits_per_page"@, number_text_json(p.max_credits_per_page)),
        ("receipt"@, bool_json(p.receipt)),
        ("search_limit"@, uint_json(opt_u32(p.search_limit))),
        ("fetch_page_content"@, bool_json(p.fetch_page_content)),
        ("quick_search"@, bool_json(p.quick_search)),
        ("engine"@, text_json(p.engine)),
    ]
}

fn text_value(o: &Option<String>) -> (r: JsonValue)
    ensures
        r.deep() == text_json(*o),
{
    match o {
        Some(s) => JsonValue::Str(s.clone()),
        None => JsonValue::Null,
    }
}

fn bool_value(o: Option<bool>) -> (r: JsonValue)
    ensures
        r.deep() == bool_json(o),
{
    match o {
        Some(b) => JsonValue::Bool(b),
        None => JsonValue::Null,
    }
}

fn uint_value(o: Option<u64>) -> (r: JsonValue)
    ensures
        r.deep() == uint_json(o),
{
    match o {
        Some(n) => JsonValue::UInt(n),
        None => JsonValue::Null,
    }
}

fn widen32(o: Option<u32>) -> (r: Option<u64>)
    ensures
        r == opt_u32(o),
{
    match o {
        Some(n) => Some(n as u64),
        None => None,
    }
}

fn widen8(o: Option<u8>) -> (r: Option<u64>)
    ensures
        r == opt_u8(o),
{
    match o {
        Some(n) => Some(n as u64),
        None => None,
    }
}

fn strings_value(v: &Vec<String>) -> (r: JsonValue)
    ensures
        r.deep() == Json::Array(strings_json(v@)),
{
    let mut out: Vec<JsonValue> = Vec::new();
    let mut i: usize = 0;
    while i < v.len()
        invariant
            i <= v@.len(),
            out@.len() == i,
            forall|j: int| 0 <= j < i ==> (#[trigger] out@[j]).deep() == Json::Str(v@[j]@),
        decreases v@.len() - i,
    {
        out.push(JsonValue::Str(v[i].clone()));
        i = i + 1;
    }
    assert(items_deep(out@) =~= strings_json(v@));
    array(out)
}

fn text_list_value(o: &Option<Vec<String>>) -> (r: JsonValue)
    ensures
        r.deep() == text_list_json(*o),
{
    match o {
        Some(v) => strings_value(v),
        None => JsonValue::Null,
    }
}

fn formats_value(v: &Vec<ProductFormat>) -> (r: JsonValue)
    ensures
        r.deep() == Json::Array(formats_json(v@)),
{
    let mut out: Vec<JsonValue> = Vec::new();
    let mut i: usize = 0;
    while i < v.len()
        invariant
            i <= v@.len(),
            out@.len() == i,
            forall|j: int| 0 <= j < i ==> (#[trigger] out@[j]).deep() == Json::Str(format_label(v@[j])),
        decreases v@.len() - i,
    {
        out.push(JsonValue::string(product_format_label(v[i])));
        i = i + 1;
    }
    assert(items_deep(out@) =~= formats_json(v@));
    array(out)
}

/// The requested format, as one label or a list of labels.
pub fn format_selection_value(format: Option<&FormatSelection>) -> (r: Option<JsonValue>)
    ensures
        match format {
            Some(f) => r matches Some(v) && v.deep() == format_selection_json(Some(*f)),
            None => r is None,
        },
{
    match format {
        Some(FormatSelection::One(f)) => Some(JsonValue::string(product_format_label(*f))),
        Some(FormatSelection::Many(v)) => Some(formats_value(v)),
        None => None,
    }
}

fn selectors_value(o: &Option<Vec<(String, Vec<String>)>>) -> (r: JsonValue)
    ensures
        r.deep() == selectors_json(*o),
{
    match o {
        Some(v) => {
            let mut out: Vec<(String, JsonValue)> = Vec::new();
            let mut i: usize = 0;
            while i < v.len()
                invariant
                    i <= v@.len(),
                    out@.len() == i,
                    forall|j: int| 0 <= j < i ==> (#[trigger] out@[j]).0@ == v@[j].0@ && out@[j].1.deep() == Json::Array(strings_json(v@[j].1@)),
                decreases v@.len() - i,
            {
                let item = strings_value(&v[i].1);
                out.push((v[i].0.clone(), item));
                i = i + 1;
            }
            assert(members_deep(out@) =~= Seq::new(v@.len(), |i: int| (v@[i].0@, Json::Array(strings_json(v@[i].1@)))));
            object(out)
        },
        None => JsonValue::Null,
    }
}

fn proxy_value(o: Option<ProductProxy>) -> (r: JsonValue)
    ensures
        r.deep() == proxy_json(o),
{
    match proxy_label(o) {
        Some(s) => JsonValue::string(s),
        None => JsonValue::Null,
    }
}

fn presence_value(o: &Option<String>) -> (r: JsonValue)
    ensures
        r.deep() == presence_json(*o),
{
    match o {
        Some(s) => JsonValue::Bool(!s.as_str().is_empty()),
        None => JsonValue::Null,
    }
}

fn count_value(o: &Option<Vec<(String, String)>>) -> (r: JsonValue)
    ensures
        r.deep() == count_json(*o),
{
    match o {
        Some(v) => JsonValue::UInt(v.len() as u64),
        None => JsonValue::Null,
    }
}

fn number_text_value(o: &Option<String>) -> (r: JsonValue)
    ensures
        r.deep() == number_text_json(*o),
{
    match o {
        Some(s) => JsonValue::Float(s.clone()),
        None => JsonValue::Null,
    }
}

/// The redacted summary of a request that the input commitment holds.
#[verifier::rlimit(50)]
pub fn request_summary(payload: &ProductRequest, route: ProductRoute, mode: ProductMode) -> (r: JsonValue)
    ensures
        r.deep() == Json::Object(summary_members(*payload, route, mode)),
{
    let p = payload;
    let format = match format_selection_value(p.format.as_ref()) {
        Some(v) => v,
        None => JsonValue::Null,
    };
    let ms = vec![
        pair("route", JsonValue::string(route.as_str())),
        pair("mode", JsonValue::string(mode_label(mode))),
        pair("source", text_value(&p.source)),
        pair("query", text_value(&p.query)),
        pair("format", format),
        pair("formats", match &p.formats { Some(v) => formats_value(v), None => JsonValue::Null }),
        pair("proxy", proxy_value(p.proxy)),
        pair("limit", uint_value(widen32(p.limit))),
        pair("depth", uint_value(widen32(p.depth))),
        pair("timeout_secs", uint_value(p.timeout_secs)),
        pair("request_timeout_secs", uint_value(widen8(p.request_timeout_secs))),
        pair("crawl_timeout_secs", uint_value(p.crawl_timeout_secs)),
        pair("readability", bool_value(p.readability)),
        pair("cache", bool_value(p.cache)),
        pair("metadata", bool_value(p.metadata)),
        pair("return_headers", bool_value(p.return_headers)),
        pair("return_page_links", bool_value(p.return_page_links)),
        pair("return_cookies", bool_value(p.return_cookies)),
        pair("country_code", text_value(&p.country_code)),
        pair("locale", text_value(&p.locale)),
        pair("user_agent_present", presence_value(&p.user_agent)),
        pair("header_count", count_value(&p.headers)),
        pair("cookies_present", presence_value(&p.cookies)),
        pair("root_selector", text_value(&p.root_selector)),
        pair("selectors", selectors_value(&p.selectors)),
        pair("whitelist", text_list_value(&p.whitelist)),
        pair("blacklist", text_list_value(&p.blacklist)),
        pair("tld", bool_value(p.tld)),
        pair("subdomains", bool_value(p.subdomains)),
        pair("external_domains", text_list_value(&p.external_domains)),
        pair("sitemap", bool_value(p.sitemap)),
        pair("respect_robots", bool_value(p.respect_robots)),
        pair("stealth", bool_value(p.stealth)),
        pair("fingerprint", bool_value(p.fingerprint)),
        pair("scroll", uint_value(widen32(p.scroll))),
        pair("wait_ms", uint_value(p.wait_ms)),
        pair("wait_selector", text_value(&p.wait_selector)),
        pair("disable_intercept", bool_value(p.disable_intercept)),
        pair("disable_hints", bool_value(p.disable_hints)),
        pair("lite_mode", bool_value(p.lite_mode)),
        pair("max_credits_per_page", number_text_value(&p.max_credits_per_page)),
        pair("receipt", bool_value(p.receipt)),
        pair("search_limit", uint_value(widen32(p.search_limit))),
        pair("fetch_page_content", bool_value(p.fetch_page_content)),
        pair("quick_search", bool_value(p.quick_search)),
        pair("engine", text_value(&p.engine)),
    ];
    assert(members_deep(ms@) =~= summary_members(*payload, route, mode));
    object(ms)
}


// ---------------------------------------------------------------------
// Configuration.

/// Schema id used when none is configured.
pub const DEFAULT_SCHEMA_ID: &'static str = "resolver-fetch-v1";

/// Schema version used when none is configured.
pub const DEFAULT_SCHEMA_VERSION: &'static str = "1";

/// Integration id used when none is configured.
pub const DEFAULT_INTEGRATION_ID: &'static str = "delphi";

/// Livy backend used when none is configured.
pub const DEFAULT_BACKEND_BASE_URL: &'static str = "https://api.livylabs.xyz";

/// Application domain committed into every record.
pub const APPLICATION_DOMAIN: &'static str = "resolver";

/// Subject type of resolver fetch records.
pub const SUBJECT_TYPE: &'static str = "resolver_fetch";

/// Attestation claim of resolver fetch records.
pub const ATTESTATION_CLAIM: &'static str = "source";

/// Provenance failures. Errors of the HTTP client and of JSON handling are
/// kept as their messages.
#[derive(Debug)]
pub enum ProvenanceError {
    MissingEnv(&'static str),
    InvalidEnv(String),
    Http(String),
    Json(String),
    Attestation(String),
    Backend(String),
    Time(String),
}

/// The message of each provenance error.
pub open spec fn provenance_error_text(e: ProvenanceError) -> Seq<char> {
    match e {
        ProvenanceError::MissingEnv(name) => name@ + " must be set when provenance is enabled"@,
        ProvenanceError::InvalidEnv(m) => "invalid provenance configuration: "@ + m@,
        ProvenanceError::Http(m) => "provenance HTTP request failed: "@ + m@,
        ProvenanceError::Json(m) => "provenance JSON handling failed: "@ + m@,
        ProvenanceError::Attestation(m) => "provenance attestation failed: "@ + m@,
        ProvenanceError::Backend(m) => "provenance backend rejected the record: "@ + m@,
        ProvenanceError::Time(m) => "provenance timestamp failed: "@ + m@,
    }
}

impl ProvenanceError {
    /// The error's message.
    pub fn message(&self) -> (r: String)
        ensures
            r@ == provenance_error_text(*self),
    {
        match self {
            ProvenanceError::MissingEnv(name) => concat2(name, " must be set when provenance is enabled"),
            ProvenanceError::InvalidEnv(m) => concat2("invalid provenance configuration: ", m.as_str()),
            ProvenanceError::Http(m) => concat2("provenance HTTP request failed: ", m.as_str()),
            ProvenanceError::Json(m) => concat2("provenance JSON handling failed: ", m.as_str()),
            ProvenanceError::Attestation(m) => concat2("provenance attestation failed: ", m.as_str()),
            ProvenanceError::Backend(m) => concat2("provenance backend rejected the record: ", m.as_str()),
            ProvenanceError::Time(m) => concat2("provenance timestamp failed: ", m.as_str()),
        }
    }
}

/// Raw values of the provenance environment variables; absent when unset.
#[derive(Clone, Debug)]
pub struct ProvenanceEnv {
    /// `LIVY_PROVENANCE_ENABLED`
    pub enabled: Option<String>,
    /// `LIVY_BACKEND_BASE_URL`
    pub backend_base_url: Option<String>,
    /// `LIVY_API_KEY`
    pub api_key: Option<String>,
    /// `LIVY_INTEGRATION_ID`
    pub integration_id: Option<String>,
    /// `LIVY_PROVENANCE_SCHEMA_ID`
    pub schema_id: Option<String>,
    /// `LIVY_PROVENANCE_SCHEMA_VERSION`
    pub schema_version: Option<String>,
    /// `LIVY_PROVENANCE_VISIBILITY`
    pub visibility: Option<String>,
    /// `LIVY_PROVENANCE_VERIFICATION_MODE`
    pub verification_mode: Option<String>,
    /// `LIVY_PROVENANCE_SUBJECT_PREFIX`
    pub subject_prefix: Option<String>,
    /// `LIVY_EXPLORER_BASE_URL`
    pub explorer_base_url: Option<String>,
    /// `LIVY_RESOLVER_PROGRAM_ID`
    pub program_id: Option<String>,
    /// `LIVY_PROVENANCE_BOOTSTRAP_TEMPLATE`
    pub bootstrap_template: Option<String>,
    /// `LIVY_PROVENANCE_MANAGED_PUBLICATION`
    pub managed_publication: Option<String>,
    /// `LIVY_PROVENANCE_WAIT_FOR_REGISTRY_REFS`
    pub wait_for_registry_refs: Option<String>,
    /// `LIVY_PROVENANCE_REGISTRY_WAIT_ATTEMPTS`
    pub registry_wait_attempts: Option<String>,
    /// `LIVY_PROVENANCE_REGISTRY_WAIT_INTERVAL_MS`
    pub registry_wait_interval_ms: Option<String>,
}

/// Provenance settings.
pub struct ProvenanceConfig {
    pub backend_base_url: String,
    pub explorer_base_url: Option<String>,
    pub api_key: String,
    pub integration_id: String,
    pub schema_id: String,
    pub schema_version: String,
    pub visibility: String,
    pub verification_mode: String,
    pub subject_prefix: String,
    pub program_id: Option<String>,
    pub bootstrap_template: bool,
    pub publication: PublicationSettings,
}

/// The content of provenance settings.
pub struct ProvenanceSettings {
    pub backend_base_url: Seq<char>,
    pub explorer_base_url: Option<Seq<char>>,
    pub api_key: Seq<char>,
    pub integration_id: Seq<char>,
    pub schema_id: Seq<char>,
    pub schema_version: Seq<char>,
    pub visibility: Seq<char>,
    pub verification_mode: Seq<char>,
    pub subject_prefix: Seq<char>,
    pub program_id: Option<Seq<char>>,
    pub bootstrap_template: bool,
    pub publication: PublicationSettings,
}

impl ProvenanceConfig {
    pub open spec fn view(&self) -> ProvenanceSettings {
        ProvenanceSettings {
            backend_base_url: self.backend_base_url@,
            explorer_base_url: opt_view(self.explorer_base_url),
            api_key: self.api_key@,
            integration_id: self.integration_id@,
            schema_id: self.schema_id@,
            schema_version: self.schema_version@,
            visibility: self.visibility@,
            verification_mode: self.verification_mode@,
            subject_prefix: self.subject_prefix@,
            program_id: opt_view(self.program_id),
            bootstrap_template: self.bootstrap_template,
            publication: self.publication,
        }
    }
}

/// A variable's value, or a default.
pub open spec fn text_or(raw: Option<String>, default: Seq<char>) -> Seq<char> {
    match env_text(raw) {
        Some(v) => v,
        None => default,
    }
}

/// A boolean variable: absent, a boolean word, or the error message.
pub open spec fn boolean_setting(name: Seq<char>, raw: Option<String>) -> Result<Option<bool>, Seq<char>> {
    match env_text(raw) {
        None => Ok(None),
        Some(v) => match bool_word(v) {
            Some(b) => Ok(Some(b)),
            None => Err("invalid provenance configuration: "@ + name + " must be a boolean"@),
        },
    }
}

/// A whole-number variable: absent, a decimal `u64`, or the error message.
pub open spec fn number_setting(name: Seq<char>, raw: Option<String>) -> Result<Option<u64>, Seq<char>> {
    match env_text(raw) {
        None => Ok(None),
        Some(v) => match parse_unsigned_spec(v, 10, u64::MAX as nat) {
            Ok(n) => Ok(Some(n as u64)),
            Err(k) => Err("invalid provenance configuration: "@ + name + ": "@ + int_error_text(k)),
        },
    }
}

/// How records are published: whether the backend is asked to publish
/// them and register them, and whether and how long a fetch waits for
/// the registry references.
#[derive(Clone, Copy, Debug, PartialEq, Eq, Structural)]
pub struct PublicationSettings {
    pub managed: bool,
    pub wait_for_registry_refs: bool,
    pub registry_wait_attempts: u64,
    pub registry_wait_interval_ms: u64,
}

/// What the attestation request adds for publication: the ask to publish
/// and register the record, under managed publication.
pub open spec fn publication_request_members(p: PublicationSettings) -> Seq<(Seq<char>, Json)> {
    if p.managed {
        seq![("managed_publication"@, Json::Bool(true))]
    } else {
        Seq::empty()
    }
}

/// The publication settings that the environment gives: off, no waiting,
/// 30 attempts 2000 ms apart unless set.
pub open spec fn publication_settings(env: ProvenanceEnv) -> Result<PublicationSettings, Seq<char>> {
    match boolean_setting("LIVY_PROVENANCE_MANAGED_PUBLICATION"@, env.managed_publication) {
        Err(m) => Err(m),
        Ok(managed) => match boolean_setting("LIVY_PROVENANCE_WAIT_FOR_REGISTRY_REFS"@, env.wait_for_registry_refs) {
            Err(m) => Err(m),
            Ok(wait) => match number_setting("LIVY_PROVENANCE_REGISTRY_WAIT_ATTEMPTS"@, env.registry_wait_attempts) {
                Err(m) => Err(m),
                Ok(attempts) => match number_setting(
                    "LIVY_PROVENANCE_REGISTRY_WAIT_INTERVAL_MS"@,
                    env.registry_wait_interval_ms,
                ) {
                    Err(m) => Err(m),
                    Ok(interval) => Ok(
                        PublicationSettings {
                            managed: match managed {
                                Some(b) => b,
                                None => false,
                            },
                            wait_for_registry_refs: match wait {
                                Some(b) => b,
                                None => false,
                            },
                            registry_wait_attempts: match attempts {
                                Some(n) => n,
                                None => 30,
                            },
                            registry_wait_interval_ms: match interval {
                                Some(n) => n,
                                None => 2000,
                            },
                        },
                    ),
                },
            },
        },
    }
}

/// The settings that the environment gives, `None` when provenance is
/// off, or the message of the configuration error.
pub open spec fn provenance_settings(env: ProvenanceEnv) -> Result<Option<ProvenanceSettings>, Seq<char>> {
    let configured = env_text(env.backend_base_url) is Some || env_text(env.api_key) is Some
        || env_text(env.enabled) is Some;
    match boolean_setting("LIVY_PROVENANCE_ENABLED"@, env.enabled) {
        Err(m) => Err(m),
        Ok(flag) => {
            let enabled = match flag {
                Some(b) => b,
                None => configured,
            };
            if !enabled {
                Ok(None)
            } else if env_text(env.api_key) is None {
                Err("LIVY_API_KEY"@ + " must be set when provenance is enabled"@)
            } else {
                match boolean_setting("LIVY_PROVENANCE_BOOTSTRAP_TEMPLATE"@, env.bootstrap_template) {
                    Err(m) => Err(m),
                    Ok(bootstrap) => match publication_settings(env) {
                    Err(m) => Err(m),
                    Ok(publication) => {
                        let visibility = text_or(env.visibility, "public"@);
                        if visibility != "public"@ && visibility != "private"@ {
                            Err(
                                "invalid provenance configuration: "@
                                    + "LIVY_PROVENANCE_VISIBILITY must be public or private"@,
                            )
                        } else {
                            Ok(
                                Some(
                                    ProvenanceSettings {
                                        backend_base_url: trim_end_char(text_or(env.backend_base_url, "https://api.livylabs.xyz"@), '/'),
                                        explorer_base_url: match env_text(env.explorer_base_url) {
                                            Some(u) => Some(trim_end_char(u, '/')),
                                            None => None,
                                        },
                                        api_key: env_text(env.api_key).unwrap(),
                                        integration_id: text_or(env.integration_id, "delphi"@),
                                        schema_id: text_or(env.schema_id, "resolver-fetch-v1"@),
                                        schema_version: text_or(env.schema_version, "1"@),
                                        visibility,
                                        verification_mode: text_or(env.verification_mode, "verify_fresh"@),
                                        subject_prefix: text_or(env.subject_prefix, "resolver_fetch"@),
                                        program_id: env_text(env.program_id),
                                        bootstrap_template: match bootstrap {
                                            Some(b) => b,
                                            None => false,
                                        },
                                        publication,
                                    },
                                ),
                            )
                        }
                    },
                    },
                }
            }
        },
    }
}

/// The outcome of reading the settings, by content.
pub open spec fn settings_outcome(r: Result<Option<ProvenanceConfig>, ProvenanceError>) -> Result<Option<ProvenanceSettings>, Seq<char>> {
    match r {
        Ok(Some(c)) => Ok(Some(c.view())),
        Ok(None) => Ok(None),
        Err(e) => Err(provenance_error_text(e)),
    }
}

/// A required variable, or the error naming it.
pub fn required_env(name: &'static str, raw: &Option<String>) -> (r: Result<String, ProvenanceError>)
    ensures
        match env_text(*raw) {
            Some(v) => r matches Ok(s) && s@ == v,
            None => r matches Err(ProvenanceError::MissingEnv(n)) && n == name,
        },
{
    match optional_value(raw) {
        Some(v) => Ok(v),
        None => Err(ProvenanceError::MissingEnv(name)),
    }
}

/// A variable's value, or `default` when it is unset or empty.
pub fn env_or(raw: &Option<String>, default: &str) -> (r: String)
    ensures
        r@ == text_or(*raw, default@),
{
    value_or(raw, default)
}

/// A boolean variable, or the error naming it.
pub fn env_bool(name: &str, raw: &Option<String>) -> (r: Result<Option<bool>, ProvenanceError>)
    ensures
        match r {
            Ok(b) => boolean_setting(name@, *raw) == Ok::<Option<bool>, Seq<char>>(b),
            Err(e) => e is InvalidEnv && boolean_setting(name@, *raw) == Err::<Option<bool>, Seq<char>>(
                provenance_error_text(e),
            ),
        },
{
    match optional_value(raw) {
        None => Ok(None),
        Some(v) => match parse_bool_word(v.as_str()) {
            Some(b) => Ok(Some(b)),
            None => {
                let mut m = concat2(name, " must be a boolean");
                let e = ProvenanceError::InvalidEnv(m);
                proof {
                    assert(provenance_error_text(e) =~= "invalid provenance configuration: "@ + name@ + " must be a boolean"@);
                }
                Err(e)
            },
        },
    }
}

/// A whole-number variable, or the error naming it.
pub fn env_number(name: &str, raw: &Option<String>) -> (r: Result<Option<u64>, ProvenanceError>)
    ensures
        match r {
            Ok(n) => number_setting(name@, *raw) == Ok::<Option<u64>, Seq<char>>(n),
            Err(e) => e is InvalidEnv && number_setting(name@, *raw) == Err::<Option<u64>, Seq<char>>(
                provenance_error_text(e),
            ),
        },
{
    match optional_value(raw) {
        None => Ok(None),
        Some(v) => match parse_unsigned(v.as_str(), 10, u64::MAX) {
            Ok(n) => Ok(Some(n)),
            Err(k) => {
                let mut m = concat2(name, ": ");
                let why = int_error_message(k);
                push_str(&mut m, why.as_str());
                let e = ProvenanceError::InvalidEnv(m);
                proof {
                    assert(provenance_error_text(e) =~= "invalid provenance configuration: "@ + name@ + ": "@ + int_error_text(k));
                }
                Err(e)
            },
        },
    }
}

/// The publication settings, or the error naming the variable at fault.
pub fn publication_values(env: &ProvenanceEnv) -> (r: Result<PublicationSettings, ProvenanceError>)
    ensures
        match r {
            Ok(p) => publication_settings(*env) == Ok::<PublicationSettings, Seq<char>>(p),
            Err(e) => e is InvalidEnv && publication_settings(*env) == Err::<PublicationSettings, Seq<char>>(
                provenance_error_text(e),
            ),
        },
{
    let managed = match env_bool("LIVY_PROVENANCE_MANAGED_PUBLICATION", &env.managed_publication) {
        Ok(Some(b)) => b,
        Ok(None) => false,
        Err(e) => return Err(e),
    };
    let wait = match env_bool("LIVY_PROVENANCE_WAIT_FOR_REGISTRY_REFS", &env.wait_for_registry_refs) {
        Ok(Some(b)) => b,
        Ok(None) => false,
        Err(e) => return Err(e),
    };
    let attempts = match env_number("LIVY_PROVENANCE_REGISTRY_WAIT_ATTEMPTS", &env.registry_wait_attempts) {
        Ok(Some(n)) => n,
        Ok(None) => 30,
        Err(e) => return Err(e),
    };
    let interval = match env_number("LIVY_PROVENANCE_REGISTRY_WAIT_INTERVAL_MS", &env.registry_wait_interval_ms) {
        Ok(Some(n)) => n,
        Ok(None) => 2000,
        Err(e) => return Err(e),
    };
    Ok(
        PublicationSettings {
            managed,
            wait_for_registry_refs: wait,
            registry_wait_attempts: attempts,
            registry_wait_interval_ms: interval,
        },
    )
}

/// A URL without its trailing slashes.
pub fn trim_trailing_slash(value: &str) -> (r: String)
    ensures
        r@ == trim_end_char(value@, '/'),
{
    trim_end_matches_char(value, '/')
}

impl ProvenanceConfig {
    /// Reads the provenance settings: `None` when provenance is off, an
    /// error naming the missing or invalid variable.
    pub fn from_values(env: &ProvenanceEnv) -> (r: Result<Option<ProvenanceConfig>, ProvenanceError>)
        ensures
            settings_outcome(r) == provenance_settings(*env),
            r matches Err(e) ==> (e is MissingEnv || e is InvalidEnv),
    {
        let configured = optional_value(&env.backend_base_url).is_some()
            || optional_value(&env.api_key).is_some() || optional_value(&env.enabled).is_some();
        let flag = match env_bool("LIVY_PROVENANCE_ENABLED", &env.enabled) {
            Ok(f) => f,
            Err(e) => return Err(e),
        };
        let enabled = match flag {
            Some(b) => b,
            None => configured,
        };
        if !enabled {
            return Ok(None);
        }
        let backend_base_url = env_or(&env.backend_base_url, DEFAULT_BACKEND_BASE_URL);
        let api_key = match required_env("LIVY_API_KEY", &env.api_key) {
            Ok(v) => v,
            Err(e) => {
                return Err(e);
            },
        };
        let integration_id = env_or(&env.integration_id, DEFAULT_INTEGRATION_ID);
        let schema_id = env_or(&env.schema_id, DEFAULT_SCHEMA_ID);
        let schema_version = env_or(&env.schema_version, DEFAULT_SCHEMA_VERSION);
        let visibility = env_or(&env.visibility, "public");
        let verification_mode = env_or(&env.verification_mode, "verify_fresh");
        let subject_prefix = env_or(&env.subject_prefix, SUBJECT_TYPE);
        let explorer_base_url = optional_value(&env.explorer_base_url);
        let program_id = optional_value(&env.program_id);
        let bootstrap_template = match env_bool("LIVY_PROVENANCE_BOOTSTRAP_TEMPLATE", &env.bootstrap_template) {
            Ok(Some(b)) => b,
            Ok(None) => false,
            Err(e) => return Err(e),
        };
        let publication = match publication_values(env) {
            Ok(p) => p,
            Err(e) => return Err(e),
        };
        if !(str_eq(visibility.as_str(), "public") || str_eq(visibility.as_str(), "private")) {
            let e = ProvenanceError::InvalidEnv(owned("LIVY_PROVENANCE_VISIBILITY must be public or private"));
            return Err(e);
        }
        let explorer = match explorer_base_url {
            Some(u) => Some(trim_trailing_slash(u.as_str())),
            None => None,
        };
        let c = ProvenanceConfig {
            backend_base_url: trim_trailing_slash(backend_base_url.as_str()),
            explorer_base_url: explorer,
            api_key,
            integration_id,
            schema_id,
            schema_version,
            visibility,
            verification_mode,
            subject_prefix,
            program_id,
            bootstrap_template,
            publication,
        };
        Ok(Some(c))
    }
}


// ---------------------------------------------------------------------
// Records.

/// The source a record names: the URL, else the query, else `unknown`.
pub open spec fn primary_source_of(p: ProductRequest) -> Seq<char> {
    match p.source {
        Some(s) => s@,
        None => match p.query {
            Some(q) => q@,
            None => "unknown"@,
        },
    }
}

/// The source a record names: the URL, else the query, else `unknown`.
pub fn primary_source(payload: &ProductRequest) -> (r: String)
    ensures
        r@ == primary_source_of(*payload),
{
    match &payload.source {
        Some(s) => s.clone(),
        None => match &payload.query {
            Some(q) => q.clone(),
            None => owned("unknown"),
        },
    }
}

pub open spec fn output_commitment_json(sha: Seq<char>, bytes: u64) -> Json {
    Json::Object(seq![("kind"@, Json::Str("spider_response"@)), ("sha256"@, Json::Str(sha)), ("bytes"@, Json::UInt(bytes))])
}

/// The commitment to the upstream output: its digest and byte length.
pub fn output_commitment(data_sha256: &str, data_bytes: usize) -> (r: JsonValue)
    ensures
        r.deep() == output_commitment_json(data_sha256@, data_bytes as u64),
{
    let ms = vec![
        pair("kind", JsonValue::string("spider_response")),
        pair("sha256", JsonValue::string(data_sha256)),
        pair("bytes", JsonValue::UInt(data_bytes as u64)),
    ];
    assert(members_deep(ms@) =~= seq![("kind"@, Json::Str("spider_response"@)), ("sha256"@, Json::Str(data_sha256@)), ("bytes"@, Json::UInt(data_bytes as u64))]);
    object(ms)
}

pub open spec fn opt_text_json(o: Option<Seq<char>>) -> Json {
    match o {
        Some(s) => Json::Str(s),
        None => Json::Null,
    }
}

pub open spec fn subject_material_json(source: Seq<char>, route: ProductRoute, mode: ProductMode, receipt_id: Option<Seq<char>>, fetched_at: u64) -> Json {
    Json::Object(
        seq![
            ("source"@, Json::Str(source)),
            ("route"@, Json::Str(route_name(route))),
            ("mode"@, Json::Str(mode_name(mode))),
            ("receipt_id"@, opt_text_json(receipt_id)),
            ("fetched_at_unix_ms"@, Json::UInt(fetched_at)),
        ],
    )
}

pub open spec fn str_opt_view(o: Option<&str>) -> Option<Seq<char>> {
    match o {
        Some(s) => Some(s@),
        None => None,
    }
}

fn opt_string(o: Option<&str>) -> (r: JsonValue)
    ensures
        r.deep() == opt_text_json(str_opt_view(o)),
{
    match o {
        Some(s) => JsonValue::string(s),
        None => JsonValue::Null,
    }
}

/// What a record's subject id is derived from.
pub fn subject_material(
    source: &str,
    route: ProductRoute,
    mode: ProductMode,
    receipt_id: Option<&str>,
    fetched_at_unix_ms: u64,
) -> (r: JsonValue)
    ensures
        r.deep() == subject_material_json(source@, route, mode, str_opt_view(receipt_id), fetched_at_unix_ms),
{
    let ms = vec![
        pair("source", JsonValue::string(source)),
        pair("route", JsonValue::string(route.as_str())),
        pair("mode", JsonValue::string(mode_label(mode))),
        pair("receipt_id", opt_string(receipt_id)),
        pair("fetched_at_unix_ms", JsonValue::UInt(fetched_at_unix_ms)),
    ];
    assert(members_deep(ms@) =~= match subject_material_json(source@, route, mode, str_opt_view(receipt_id), fetched_at_unix_ms) {
        Json::Object(m) => m,
        _ => Seq::empty(),
    });
    object(ms)
}

/// The id of a fetch's receipt, when it has one.
pub open spec fn receipt_id_of(receipt: Option<&Receipt>) -> Option<Seq<char>> {
    match receipt {
        Some(r) => Some(r.id@),
        None => None,
    }
}

/// The UTF-8 bytes of a value's compact JSON text.
pub open spec fn json_bytes(v: Json) -> Seq<u8> {
    encode_utf8(json_text(v))
}

/// Lowercase hex of the SHA-256 digest of a value's JSON encoding.
pub open spec fn json_digest_hex(v: Json) -> Seq<char> {
    hex_text(sha256(json_bytes(v)))
}

/// Lowercase hex of the SHA-256 digest of a value's JSON encoding.
pub fn sha256_json_hex(v: &JsonValue) -> (r: String)
    ensures
        r@ == json_digest_hex(v.deep()),
        r@.len() == 64,
{
    let text = encode_json(v);
    sha256_string_hex(text.as_str())
}

/// The number of bytes in a value's JSON encoding.
pub fn json_byte_len(v: &JsonValue) -> (r: usize)
    ensures
        r == json_bytes(v.deep()).len(),
{
    let text = encode_json(v);
    text.as_str().as_bytes().len()
}

/// The id of a record's subject: the configured prefix, a colon, and the
/// first 24 hex digits of the SHA-256 digest of the subject material's
/// JSON encoding.
pub open spec fn subject_id_text(prefix: Seq<char>, material: Json) -> Seq<char> {
    prefix + ":"@ + json_digest_hex(material).take(24)
}

/// The nonce bound into an attestation: the first eight bytes of the
/// SHA-256 digest of the subject id, read little-endian.
pub open spec fn subject_nonce(subject_id: Seq<char>) -> nat {
    le_value(sha256(encode_utf8(subject_id)).take(8))
}

/// The nonce bound into an attestation for a subject.
pub fn nonce_from_subject(subject_id: &str) -> (r: u64)
    ensures
        r as nat == subject_nonce(subject_id@),
{
    let digest = sha256_digest(subject_id.as_bytes());
    let b: [u8; 8] = [digest[0], digest[1], digest[2], digest[3], digest[4], digest[5], digest[6], digest[7]];
    assert(b@ =~= sha256(encode_utf8(subject_id@)).take(8));
    u64_from_le_bytes(b)
}

/// The details of one fetch that its provenance record binds.
pub struct FetchAttestation {
    pub subject_id: String,
    pub source: String,
    pub route: ProductRoute,
    pub mode: ProductMode,
    pub fetched_at_unix_ms: u64,
    pub receipt_id: Option<String>,
    pub input_commitment: JsonValue,
    pub output_commitment: JsonValue,
    pub data_sha256: String,
}

/// One value committed into the attestation; `hashed` values are
/// committed by digest.
pub struct Commitment {
    pub value: JsonValue,
    pub hashed: bool,
}

/// The content of a commitment.
pub open spec fn commitment_view(c: Commitment) -> (Json, bool) {
    (c.value.deep(), c.hashed)
}

/// The values committed into a fetch attestation, in order.
pub open spec fn commitments_of(a: FetchAttestation, program_id: Option<Seq<char>>) -> Seq<(Json, bool)> {
    let base = seq![
        (Json::Str("resolver"@), false),
        (Json::Str(a.subject_id@), false),
        (a.input_commitment.deep(), true),
        (a.output_commitment.deep(), true),
        (Json::Str(a.source@), false),
        (Json::Str(route_name(a.route)), false),
        (Json::Str(mode_name(a.mode)), false),
        (Json::UInt(a.fetched_at_unix_ms), false),
    ];
    let with_receipt = match a.receipt_id {
        Some(r) => base.push((Json::Str(r@), false)),
        None => base,
    };
    match program_id {
        Some(p) => with_receipt.push((Json::Str(p), false)),
        None => with_receipt,
    }
}

/// One schema field of a record.
pub open spec fn schema_field_json(index: u32, name: Seq<char>, commit_mode: Seq<char>, value: Json, required: bool) -> Json {
    Json::Object(
        seq![
            ("index"@, Json::UInt(index as u64)),
            ("name"@, Json::Str(name)),
            ("commit_mode"@, Json::Str(commit_mode)),
            ("value"@, value),
            ("required"@, Json::Bool(required)),
        ],
    )
}

/// The schema fields of a fetch record, in order.
pub open spec fn schema_fields_of(a: FetchAttestation, program_id: Option<Seq<char>>) -> Seq<Json> {
    let base = seq![
        schema_field_json(0, "application_domain"@, "json"@, Json::Str("resolver"@), true),
        schema_field_json(1, "subject_id"@, "json"@, Json::Str(a.subject_id@), true),
        schema_field_json(2, "input_commitment"@, "json_sha256"@, a.input_commitment.deep(), true),
        schema_field_json(3, "output_commitment"@, "json_sha256"@, a.output_commitment.deep(), true),
        schema_field_json(4, "source"@, "json"@, Json::Str(a.source@), true),
        schema_field_json(5, "route"@, "json"@, Json::Str(route_name(a.route)), true),
        schema_field_json(6, "mode"@, "json"@, Json::Str(mode_name(a.mode)), true),
        schema_field_json(7, "fetched_at_unix_ms"@, "json"@, Json::UInt(a.fetched_at_unix_ms), true),
    ];
    let with_receipt = match a.receipt_id {
        Some(r) => base.push(schema_field_json(8, "receipt_id"@, "json"@, Json::Str(r@), false)),
        None => base,
    };
    match program_id {
        Some(p) => with_receipt.push(schema_field_json(9, "program_id"@, "json"@, Json::Str(p), false)),
        None => with_receipt,
    }
}

/// One schema field.
pub fn schema_field(index: u32, name: &str, commit_mode: &str, value: JsonValue, required: bool) -> (r: JsonValue)
    ensures
        r.deep() == schema_field_json(index, name@, commit_mode@, value.deep(), required),
{
    let ghost v = value.deep();
    let ms = vec![
        pair("index", JsonValue::UInt(index as u64)),
        pair("name", JsonValue::string(name)),
        pair("commit_mode", JsonValue::string(commit_mode)),
        pair("value", value),
        pair("required", JsonValue::Bool(required)),
    ];
    assert(members_deep(ms@) =~= seq![
        ("index"@, Json::UInt(index as u64)),
        ("name"@, Json::Str(name@)),
        ("commit_mode"@, Json::Str(commit_mode@)),
        ("value"@, v),
        ("required"@, Json::Bool(required)),
    ]);
    object(ms)
}

impl ProvenanceConfig {
    /// The id of a record's subject, from the JSON encoding of its subject
    /// material.
    pub fn subject_id(
        &self,
        source: &str,
        route: ProductRoute,
        mode: ProductMode,
        receipt_id: Option<&str>,
        fetched_at_unix_ms: u64,
    ) -> (r: String)
        ensures
            r@ == subject_id_text(
                self.subject_prefix@,
                subject_material_json(source@, route, mode, str_opt_view(receipt_id), fetched_at_unix_ms),
            ),
    {
        let material = subject_material(source, route, mode, receipt_id, fetched_at_unix_ms);
        let digest = sha256_json_hex(&material);
        let mut r = concat2(self.subject_prefix.as_str(), ":");
        let head = prefix_chars(digest.as_str(), 24);
        push_str(&mut r, head.as_str());
        r
    }

    /// What the record of a fetch binds: its subject id, the primary
    /// source, the redacted request summary, and the commitment to the
    /// digest and size of the fetched data's JSON encoding.
    pub fn fetch_attestation(
        &self,
        payload: &ProductRequest,
        route: ProductRoute,
        mode: ProductMode,
        receipt_id: Option<&str>,
        fetched_at_unix_ms: u64,
        data: &JsonValue,
    ) -> (r: FetchAttestation)
        ensures
            r.subject_id@ == subject_id_text(
                self.subject_prefix@,
                subject_material_json(primary_source_of(*payload), route, mode, str_opt_view(receipt_id), fetched_at_unix_ms),
            ),
            r.source@ == primary_source_of(*payload),
            r.route == route,
            r.mode == mode,
            r.fetched_at_unix_ms == fetched_at_unix_ms,
            opt_view(r.receipt_id) == str_opt_view(receipt_id),
            r.input_commitment.deep() == Json::Object(summary_members(*payload, route, mode)),
            r.output_commitment.deep() == output_commitment_json(json_digest_hex(data.deep()), json_bytes(data.deep()).len() as u64),
            r.data_sha256@ == json_digest_hex(data.deep()),
            r.data_sha256@.len() == 64,
    {
        let receipt = match receipt_id {
            Some(id) => Some(owned(id)),
            None => None,
        };
        let source = primary_source(payload);
        let data_sha256 = sha256_json_hex(data);
        let data_bytes = json_byte_len(data);
        FetchAttestation {
            subject_id: self.subject_id(source.as_str(), route, mode, receipt_id, fetched_at_unix_ms),
            source,
            route,
            mode,
            fetched_at_unix_ms,
            receipt_id: receipt,
            input_commitment: request_summary(payload, route, mode),
            output_commitment: output_commitment(data_sha256.as_str(), data_bytes),
            data_sha256,
        }
    }

    /// What the record of a fetch binds, from the evidence of the fetch:
    /// the receipt's id when there is a receipt, and the digest and size of
    /// the JSON encoding of the fetched data.
    pub fn evidence_attestation(&self, evidence: &ResolverFetchEvidence, fetched_at_unix_ms: u64) -> (r: FetchAttestation)
        ensures
            r.subject_id@ == subject_id_text(
                self.subject_prefix@,
                subject_material_json(
                    primary_source_of(*evidence.payload),
                    evidence.route,
                    evidence.mode,
                    receipt_id_of(evidence.receipt),
                    fetched_at_unix_ms,
                ),
            ),
            r.source@ == primary_source_of(*evidence.payload),
            r.route == evidence.route,
            r.mode == evidence.mode,
            r.fetched_at_unix_ms == fetched_at_unix_ms,
            opt_view(r.receipt_id) == receipt_id_of(evidence.receipt),
            r.input_commitment.deep() == Json::Object(summary_members(*evidence.payload, evidence.route, evidence.mode)),
            r.output_commitment.deep() == output_commitment_json(
                json_digest_hex(evidence.data.deep()),
                json_bytes(evidence.data.deep()).len() as u64,
            ),
            r.data_sha256@ == json_digest_hex(evidence.data.deep()),
            r.data_sha256@.len() == 64,
    {
        let receipt_id = match evidence.receipt {
            Some(receipt) => Some(receipt.id.as_str()),
            None => None,
        };
        self.fetch_attestation(evidence.payload, evidence.route, evidence.mode, receipt_id, fetched_at_unix_ms, evidence.data)
    }

    /// The values committed into the attestation of a fetch, in order.
    pub fn attestation_commitments(&self, a: &FetchAttestation) -> (r: Vec<Commitment>)
        ensures
            r@.map_values(|c: Commitment| commitment_view(c)) == commitments_of(*a, opt_view(self.program_id)),
    {
        let mut r: Vec<Commitment> = Vec::new();
        r.push(Commitment { value: JsonValue::string(APPLICATION_DOMAIN), hashed: false });
        r.push(Commitment { value: JsonValue::Str(a.subject_id.clone()), hashed: false });
        r.push(Commitment { value: a.input_commitment.duplicate(), hashed: true });
        r.push(Commitment { value: a.output_commitment.duplicate(), hashed: true });
        r.push(Commitment { value: JsonValue::Str(a.source.clone()), hashed: false });
        r.push(Commitment { value: JsonValue::string(a.route.as_str()), hashed: false });
        r.push(Commitment { value: JsonValue::string(mode_label(a.mode)), hashed: false });
        r.push(Commitment { value: JsonValue::UInt(a.fetched_at_unix_ms), hashed: false });
        let ghost base = r@.map_values(|c: Commitment| commitment_view(c));
        assert(base =~= seq![
            (Json::Str("resolver"@), false),
            (Json::Str(a.subject_id@), false),
            (a.input_commitment.deep(), true),
            (a.output_commitment.deep(), true),
            (Json::Str(a.source@), false),
            (Json::Str(route_name(a.route)), false),
            (Json::Str(mode_name(a.mode)), false),
            (Json::UInt(a.fetched_at_unix_ms), false),
        ]);
        if let Some(receipt_id) = &a.receipt_id {
            r.push(Commitment { value: JsonValue::Str(receipt_id.clone()), hashed: false });
        }
        let ghost mid = r@.map_values(|c: Commitment| commitment_view(c));
        assert(mid =~= match a.receipt_id {
            Some(rid) => base.push((Json::Str(rid@), false)),
            None => base,
        });
        if let Some(program_id) = &self.program_id {
            r.push(Commitment { value: JsonValue::Str(program_id.clone()), hashed: false });
        }
        assert(r@.map_values(|c: Commitment| commitment_view(c)) =~= match opt_view(self.program_id) {
            Some(p) => mid.push((Json::Str(p), false)),
            None => mid,
        });
        r
    }

    /// The schema fields of a fetch record, in order.
    pub fn schema_fields(&self, a: &FetchAttestation) -> (r: Vec<JsonValue>)
        ensures
            items_deep(r@) == schema_fields_of(*a, opt_view(self.program_id)),
    {
        let mut r: Vec<JsonValue> = Vec::new();
        r.push(schema_field(0, "application_domain", "json", JsonValue::string(APPLICATION_DOMAIN), true));
        r.push(schema_field(1, "subject_id", "json", JsonValue::Str(a.subject_id.clone()), true));
        r.push(schema_field(2, "input_commitment", "json_sha256", a.input_commitment.duplicate(), true));
        r.push(schema_field(3, "output_commitment", "json_sha256", a.output_commitment.duplicate(), true));
        r.push(schema_field(4, "source", "json", JsonValue::Str(a.source.clone()), true));
        r.push(schema_field(5, "route", "json", JsonValue::string(a.route.as_str()), true));
        r.push(schema_field(6, "mode", "json", JsonValue::string(mode_label(a.mode)), true));
        r.push(schema_field(7, "fetched_at_unix_ms", "json", JsonValue::UInt(a.fetched_at_unix_ms), true));
        let ghost base = items_deep(r@);
        assert(base =~= seq![
            schema_field_json(0, "application_domain"@, "json"@, Json::Str("resolver"@), true),
            schema_field_json(1, "subject_id"@, "json"@, Json::Str(a.subject_id@), true),
            schema_field_json(2, "input_commitment"@, "json_sha256"@, a.input_commitment.deep(), true),
            schema_field_json(3, "output_commitment"@, "json_sha256"@, a.output_commitment.deep(), true),
            schema_field_json(4, "source"@, "json"@, Json::Str(a.source@), true),
            schema_field_json(5, "route"@, "json"@, Json::Str(route_name(a.route)), true),
            schema_field_json(6, "mode"@, "json"@, Json::Str(mode_name(a.mode)), true),
            schema_field_json(7, "fetched_at_unix_ms"@, "json"@, Json::UInt(a.fetched_at_unix_ms), true),
        ]);
        if let Some(receipt_id) = &a.receipt_id {
            r.push(schema_field(8, "receipt_id", "json", JsonValue::Str(receipt_id.clone()), false));
        }
        let ghost mid = items_deep(r@);
        assert(mid =~= match a.receipt_id {
            Some(rid) => base.push(schema_field_json(8, "receipt_id"@, "json"@, Json::Str(rid@), false)),
            None => base,
        });
        if let Some(program_id) = &self.program_id {
            r.push(schema_field(9, "program_id", "json", JsonValue::Str(program_id.clone()), false));
        }
        assert(items_deep(r@) =~= match opt_view(self.program_id) {
            Some(p) => mid.push(schema_field_json(9, "program_id"@, "json"@, Json::Str(p), false)),
            None => mid,
        });
        r
    }
}


/// One field of the resolver record template.
pub open spec fn template_field_json(
    index: u32,
    name: Seq<char>,
    commit_mode: Seq<char>,
    disclosure: Seq<char>,
    required: bool,
    value_type: Seq<char>,
    description: Seq<char>,
) -> Json {
    Json::Object(
        seq![
            ("index"@, Json::UInt(index as u64)),
            ("name"@, Json::Str(name)),
            ("commit_mode"@, Json::Str(commit_mode)),
            ("disclosure"@, Json::Str(disclosure)),
            ("required"@, Json::Bool(required)),
            ("value_type"@, Json::Str(value_type)),
            ("description"@, Json::Str(description)),
        ],
    )
}

/// Field `k` of the resolver record template: its name, commit mode,
/// disclosure, whether it is required, value type and description.
pub open spec fn template_row(k: int) -> (Seq<char>, Seq<char>, Seq<char>, bool, Seq<char>, Seq<char>) {
    if k == 0 {
        ("application_domain"@, "json"@, "public"@, true, "string"@, "Static application domain for resolver proofs."@)
    } else if k == 1 {
        ("subject_id"@, "json"@, "public"@, true, "string"@, "Unique resolver fetch subject."@)
    } else if k == 2 {
        ("input_commitment"@, "json_sha256"@, "commitment"@, true, "object"@, "Redacted request summary committed by hash."@)
    } else if k == 3 {
        ("output_commitment"@, "json_sha256"@, "commitment"@, true, "object"@, "Hash and byte length of the upstream resolver output."@)
    } else if k == 4 {
        ("source"@, "json"@, "public"@, true, "string"@, "Fetched URL or search query."@)
    } else if k == 5 {
        ("route"@, "json"@, "public"@, true, "string"@, "Resolver HTTP or MCP route."@)
    } else if k == 6 {
        ("mode"@, "json"@, "public"@, true, "string"@, "Resolved execution mode."@)
    } else if k == 7 {
        ("fetched_at_unix_ms"@, "json"@, "public"@, true, "integer"@, "Fetch timestamp."@)
    } else if k == 8 {
        ("receipt_id"@, "json"@, "public"@, false, "string"@, "Resolver receipt id when created."@)
    } else {
        ("program_id"@, "json"@, "public"@, false, "string"@, "Optional deployment or program identifier."@)
    }
}

/// The fields of the resolver record template, in index order.
pub open spec fn template_fields_json() -> Seq<Json> {
    Seq::new(
        10,
        |k: int|
            template_field_json(
                k as u32,
                template_row(k).0,
                template_row(k).1,
                template_row(k).2,
                template_row(k).3,
                template_row(k).4,
                template_row(k).5,
            ),
    )
}

/// One field of the resolver record template.
pub fn template_field(
    index: u32,
    name: &str,
    commit_mode: &str,
    disclosure: &str,
    required: bool,
    value_type: &str,
    description: &str,
) -> (r: JsonValue)
    ensures
        r.deep() == template_field_json(index, name@, commit_mode@, disclosure@, required, value_type@, description@),
{
    let ms = vec![
        pair("index", JsonValue::UInt(index as u64)),
        pair("name", JsonValue::string(name)),
        pair("commit_mode", JsonValue::string(commit_mode)),
        pair("disclosure", JsonValue::string(disclosure)),
        pair("required", JsonValue::Bool(required)),
        pair("value_type", JsonValue::string(value_type)),
        pair("description", JsonValue::string(description)),
    ];
    assert(members_deep(ms@) =~= match template_field_json(index, name@, commit_mode@, disclosure@, required, value_type@, description@) {
        Json::Object(m) => m,
        _ => Seq::empty(),
    });
    object(ms)
}

/// The fields of the resolver record template, in index order.
pub fn resolver_template_fields() -> (r: Vec<JsonValue>)
    ensures
        items_deep(r@) == template_fields_json(),
{
    let r = vec![
        template_field(0, "application_domain", "json", "public", true, "string", "Static application domain for resolver proofs."),
        template_field(1, "subject_id", "json", "public", true, "string", "Unique resolver fetch subject."),
        template_field(2, "input_commitment", "json_sha256", "commitment", true, "object", "Redacted request summary committed by hash."),
        template_field(3, "output_commitment", "json_sha256", "commitment", true, "object", "Hash and byte length of the upstream resolver output."),
        template_field(4, "source", "json", "public", true, "string", "Fetched URL or search query."),
        template_field(5, "route", "json", "public", true, "string", "Resolver HTTP or MCP route."),
        template_field(6, "mode", "json", "public", true, "string", "Resolved execution mode."),
        template_field(7, "fetched_at_unix_ms", "json", "public", true, "integer", "Fetch timestamp."),
        template_field(8, "receipt_id", "json", "public", false, "string", "Resolver receipt id when created."),
        template_field(9, "program_id", "json", "public", false, "string", "Optional deployment or program identifier."),
    ];
    assert(items_deep(r@) =~= template_fields_json());
    r
}

/// The record the backend answers with.
pub struct ProvenanceRecord {
    pub provenance_attestation_id: String,
    pub subject_id: String,
    pub verification_status: String,
    pub schema_binding_status: String,
    pub public_values_commitment: String,
    pub report_payload_hash: String,
    /// The state of the backend's publication of the record, when it
    /// reports one.
    pub managed_publication: Option<JsonValue>,
    /// The registry references of the published record, none until it is
    /// registered.
    pub registry_refs: Vec<JsonValue>,
}

/// The provenance of one fetch, as the resolver returns it.
#[derive(Debug)]
pub struct ProvenanceResult {
    pub provenance_attestation_id: String,
    pub subject_id: String,
    pub schema_id: String,
    pub schema_version: String,
    pub verification_status: String,
    pub schema_binding_status: String,
    pub public_values_commitment: String,
    pub report_payload_hash: String,
    pub explorer_url: Option<String>,
    pub data_sha256: String,
    pub managed_publication: Option<JsonValue>,
    pub registry_refs: Vec<JsonValue>,
}

/// What a fetch record is made from.
pub struct ResolverFetchEvidence<'a> {
    pub payload: &'a ProductRequest,
    pub route: ProductRoute,
    pub mode: ProductMode,
    pub data: &'a JsonValue,
    pub receipt: Option<&'a Receipt>,
}

/// Whether every UTF-8 byte is allowed in an HTTP header value: a tab, or
/// a byte of 32 or more other than 127.
pub open spec fn header_bytes_valid(b: Seq<u8>) -> bool {
    forall|i: int| 0 <= i < b.len() ==> (b[i] >= 32 && b[i] != 127) || b[i] == 9
}

/// `reqwest::header::HeaderValue::from_str`: rejects exactly the values
/// with a byte that `header_bytes_valid` refuses; the error's message is
/// `failed to parse header value`.
#[verifier::external_body]
fn header_value_error(value: &str) -> (r: Option<String>)
    ensures
        r is None <==> header_bytes_valid(encode_utf8(value@)),
        r matches Some(m) ==> m@ == "failed to parse header value"@,
{
    reqwest::header::HeaderValue::from_str(value).err().map(|e| e.to_string())
}

/// Lowercase hex of the SHA-256 digest of bytes.
pub open spec fn digest_hex(bytes: Seq<u8>) -> Seq<char> {
    hex_text(sha256(bytes))
}

impl ProvenanceConfig {
    /// The URL of a backend path.
    pub fn endpoint(&self, path: &str) -> (r: String)
        ensures
            r@ == self.backend_base_url@ + path@,
    {
        concat2(self.backend_base_url.as_str(), path)
    }

    /// The public explorer URL of a record: under the explorer base when
    /// one is set, else under the backend base.
    pub fn explorer_url(&self, provenance_attestation_id: &str) -> (r: Option<String>)
        ensures
            r matches Some(u) && u@ == match self.explorer_base_url {
                Some(b) => b@,
                None => self.backend_base_url@,
            } + "/api/v1/public/provenance/attestations/"@ + provenance_attestation_id@,
    {
        let base = match &self.explorer_base_url {
            Some(b) => b.as_str(),
            None => self.backend_base_url.as_str(),
        };
        let mut u = concat2(base, "/api/v1/public/provenance/attestations/");
        push_str(&mut u, provenance_attestation_id);
        Some(u)
    }

    /// The headers of backend requests: the bearer API key, the JSON
    /// content type and the integration id; an error when a value is not a
    /// valid header value.
    pub fn headers(&self) -> (r: Result<Vec<(String, String)>, ProvenanceError>)
        ensures
            match r {
                Ok(h) => {
                    &&& header_bytes_valid(encode_utf8("Bearer "@ + self.api_key@))
                    &&& header_bytes_valid(encode_utf8(self.integration_id@))
                    &&& h@.len() == 3
                    &&& h@[0].0@ == "authorization"@ && h@[0].1@ == "Bearer "@ + self.api_key@
                    &&& h@[1].0@ == "content-type"@ && h@[1].1@ == "application/json"@
                    &&& h@[2].0@ == "x-integration-id"@ && h@[2].1@ == self.integration_id@
                },
                Err(e) => {
                    &&& !(header_bytes_valid(encode_utf8("Bearer "@ + self.api_key@))
                        && header_bytes_valid(encode_utf8(self.integration_id@)))
                    &&& e matches ProvenanceError::InvalidEnv(m) && m@ == "failed to parse header value"@
                },
            },
    {
        let auth = concat2("Bearer ", self.api_key.as_str());
        if let Some(m) = header_value_error(auth.as_str()) {
            return Err(ProvenanceError::InvalidEnv(m));
        }
        if let Some(m) = header_value_error(self.integration_id.as_str()) {
            return Err(ProvenanceError::InvalidEnv(m));
        }
        let h = vec![
            (owned("authorization"), auth),
            (owned("content-type"), owned("application/json")),
            (owned("x-integration-id"), self.integration_id.clone()),
        ];
        Ok(h)
    }

    /// Whether the record template still has to be created.
    pub fn needs_template(&self, template_ready: bool) -> (r: bool)
        ensures
            r == (self.bootstrap_template && !template_ready),
    {
        self.bootstrap_template && !template_ready
    }

    /// The request that creates the resolver record template.
    pub fn template_request(&self, resolver_version: &str) -> (r: JsonValue)
        ensures
            r.deep() == template_request_json(self@, resolver_version@),
    {
        let meta = vec![
            pair("application_domain", JsonValue::string(APPLICATION_DOMAIN)),
            pair("resolver_service", JsonValue::string("livy-resolver")),
            pair("resolver_version", JsonValue::string(resolver_version)),
        ];
        assert(members_deep(meta@) =~= seq![
            ("application_domain"@, Json::Str("resolver"@)),
            ("resolver_service"@, Json::Str("livy-resolver"@)),
            ("resolver_version"@, Json::Str(resolver_version@)),
        ]);
        let ms = vec![
            pair("integration_id", JsonValue::Str(self.integration_id.clone())),
            pair("schema_id", JsonValue::Str(self.schema_id.clone())),
            pair("schema_version", JsonValue::Str(self.schema_version.clone())),
            pair("attestation_claim", JsonValue::string(ATTESTATION_CLAIM)),
            pair("subject_type", JsonValue::string(SUBJECT_TYPE)),
            pair("name", JsonValue::string("Resolver fetch")),
            pair("template_kind", JsonValue::string("resolver_source")),
            pair("description", JsonValue::string("Generic Livy resolver source-fetch proof. Use a separate prediction-market template only when the resolver emits market outcome fields.")),
            pair("visibility", JsonValue::Str(self.visibility.clone())),
            pair("fields", array(resolver_template_fields())),
            pair("metadata", object(meta)),
        ];
        let r = object(ms);
        assert(members_deep(ms@) =~= seq![
            ("integration_id"@, Json::Str(self.integration_id@)),
            ("schema_id"@, Json::Str(self.schema_id@)),
            ("schema_version"@, Json::Str(self.schema_version@)),
            ("attestation_claim"@, Json::Str("source"@)),
            ("subject_type"@, Json::Str("resolver_fetch"@)),
            ("name"@, Json::Str("Resolver fetch"@)),
            ("template_kind"@, Json::Str("resolver_source"@)),
            ("description"@, Json::Str("Generic Livy resolver source-fetch proof. Use a separate prediction-market template only when the resolver emits market outcome fields."@)),
            ("visibility"@, Json::Str(self.visibility@)),
            ("fields"@, Json::Array(template_fields_json())),
            (
                "metadata"@,
                Json::Object(
                    seq![
                        ("application_domain"@, Json::Str("resolver"@)),
                        ("resolver_service"@, Json::Str("livy-resolver"@)),
                        ("resolver_version"@, Json::Str(resolver_version@)),
                    ],
                ),
            ),
        ]);
        r
    }

    /// The request that stores the provenance record of a fetch. The
    /// digests of the input commitment and of the output commitment are
    /// taken of their JSON encodings.
    pub fn attestation_request(
        &self,
        a: &FetchAttestation,
        attestation: JsonValue,
        resolver_version: &str,
    ) -> (r: JsonValue)
        ensures
            r.deep() == Json::Object(
                seq![
                    ("integration_id"@, Json::Str(self.integration_id@)),
                    ("attestation_claim"@, Json::Str("source"@)),
                    ("subject_type"@, Json::Str("resolver_fetch"@)),
                    ("subject_id"@, Json::Str(a.subject_id@)),
                    ("schema_id"@, Json::Str(self.schema_id@)),
                    ("schema_version"@, Json::Str(self.schema_version@)),
                    ("visibility"@, Json::Str(self.visibility@)),
                    ("verification_mode"@, Json::Str(self.verification_mode@)),
                    ("attestation"@, attestation.deep()),
                    ("fields"@, Json::Array(schema_fields_of(*a, opt_view(self.program_id)))),
                    (
                        "metadata"@,
                        Json::Object(
                            seq![
                                ("application_domain"@, Json::Str("resolver"@)),
                                ("resolver_service"@, Json::Str("livy-resolver"@)),
                                ("resolver_version"@, Json::Str(resolver_version@)),
                                ("route"@, Json::Str(route_name(a.route))),
                                ("mode"@, Json::Str(mode_name(a.mode))),
                                ("source_sha256"@, Json::Str(digest_hex(encode_utf8(a.source@)))),
                                ("input_sha256"@, Json::Str(json_digest_hex(a.input_commitment.deep()))),
                                ("output_sha256"@, Json::Str(a.data_sha256@)),
                                ("output_commitment_sha256"@, Json::Str(json_digest_hex(a.output_commitment.deep()))),
                                ("receipt_id"@, opt_text_json(opt_view(a.receipt_id))),
                            ],
                        ),
                    ),
                ] + publication_request_members(self.publication),
            ),
    {
        let ghost att = attestation.deep();
        let fields = self.schema_fields(a);
        let receipt = match &a.receipt_id {
            Some(r) => JsonValue::Str(r.clone()),
            None => JsonValue::Null,
        };
        let meta = vec![
            pair("application_domain", JsonValue::string(APPLICATION_DOMAIN)),
            pair("resolver_service", JsonValue::string("livy-resolver")),
            pair("resolver_version", JsonValue::string(resolver_version)),
            pair("route", JsonValue::string(a.route.as_str())),
            pair("mode", JsonValue::string(mode_label(a.mode))),
            pair("source_sha256", JsonValue::Str(sha256_string_hex(a.source.as_str()))),
            pair("input_sha256", JsonValue::Str(sha256_json_hex(&a.input_commitment))),
            pair("output_sha256", JsonValue::Str(a.data_sha256.clone())),
            pair("output_commitment_sha256", JsonValue::Str(sha256_json_hex(&a.output_commitment))),
            pair("receipt_id", receipt),
        ];
        let ghost meta_d = members_deep(meta@);
        assert(meta_d =~= seq![
            ("application_domain"@, Json::Str("resolver"@)),
            ("resolver_service"@, Json::Str("livy-resolver"@)),
            ("resolver_version"@, Json::Str(resolver_version@)),
            ("route"@, Json::Str(route_name(a.route))),
            ("mode"@, Json::Str(mode_name(a.mode))),
            ("source_sha256"@, Json::Str(digest_hex(encode_utf8(a.source@)))),
            ("input_sha256"@, Json::Str(json_digest_hex(a.input_commitment.deep()))),
            ("output_sha256"@, Json::Str(a.data_sha256@)),
            ("output_commitment_sha256"@, Json::Str(json_digest_hex(a.output_commitment.deep()))),
            ("receipt_id"@, opt_text_json(opt_view(a.receipt_id))),
        ]);
        let mut ms = vec![
            pair("integration_id", JsonValue::Str(self.integration_id.clone())),
            pair("attestation_claim", JsonValue::string(ATTESTATION_CLAIM)),
            pair("subject_type", JsonValue::string(SUBJECT_TYPE)),
            pair("subject_id", JsonValue::Str(a.subject_id.clone())),
            pair("schema_id", JsonValue::Str(self.schema_id.clone())),
            pair("schema_version", JsonValue::Str(self.schema_version.clone())),
            pair("visibility", JsonValue::Str(self.visibility.clone())),
            pair("verification_mode", JsonValue::Str(self.verification_mode.clone())),
            pair("attestation", attestation),
            pair("fields", array(fields)),
            pair("metadata", object(meta)),
        ];
        assert(members_deep(ms@) =~= seq![
            ("integration_id"@, Json::Str(self.integration_id@)),
            ("attestation_claim"@, Json::Str("source"@)),
            ("subject_type"@, Json::Str("resolver_fetch"@)),
            ("subject_id"@, Json::Str(a.subject_id@)),
            ("schema_id"@, Json::Str(self.schema_id@)),
            ("schema_version"@, Json::Str(self.schema_version@)),
            ("visibility"@, Json::Str(self.visibility@)),
            ("verification_mode"@, Json::Str(self.verification_mode@)),
            ("attestation"@, att),
            ("fields"@, Json::Array(schema_fields_of(*a, opt_view(self.program_id)))),
            ("metadata"@, Json::Object(meta_d)),
        ]);
        let ghost base = members_deep(ms@);
        if self.publication.managed {
            ms.push(pair("managed_publication", JsonValue::Bool(true)));
        }
        assert(members_deep(ms@) =~= base + publication_request_members(self.publication));
        object(ms)
    }

    /// The provenance of a fetch from the backend's record.
    pub fn provenance_result(&self, record: ProvenanceRecord, data_sha256: String) -> (r: ProvenanceResult)
        ensures
            r.provenance_attestation_id@ == record.provenance_attestation_id@,
            r.subject_id@ == record.subject_id@,
            r.schema_id@ == self.schema_id@,
            r.schema_version@ == self.schema_version@,
            r.verification_status@ == record.verification_status@,
            r.schema_binding_status@ == record.schema_binding_status@,
            r.public_values_commitment@ == record.public_values_commitment@,
            r.report_payload_hash@ == record.report_payload_hash@,
            r.explorer_url matches Some(u) && u@ == match self.explorer_base_url {
                Some(b) => b@,
                None => self.backend_base_url@,
            } + "/api/v1/public/provenance/attestations/"@ + record.provenance_attestation_id@,
            r.data_sha256@ == data_sha256@,
            opt_deep(r.managed_publication) == opt_deep(record.managed_publication),
            items_deep(r.registry_refs@) == items_deep(record.registry_refs@),
    {
        let explorer_url = self.explorer_url(record.provenance_attestation_id.as_str());
        ProvenanceResult {
            provenance_attestation_id: record.provenance_attestation_id,
            subject_id: record.subject_id,
            schema_id: self.schema_id.clone(),
            schema_version: self.schema_version.clone(),
            verification_status: record.verification_status,
            schema_binding_status: record.schema_binding_status,
            public_values_commitment: record.public_values_commitment,
            report_payload_hash: record.report_payload_hash,
            explorer_url,
            data_sha256,
            managed_publication: record.managed_publication,
            registry_refs: record.registry_refs,
        }
    }

    /// Whether a fetch asks the backend once more for its record's registry
    /// references: only under managed publication with waiting on, while
    /// none came back and fewer than the allowed attempts were made.
    pub fn registry_poll_due(&self, result: &ProvenanceResult, attempts_made: u64) -> (r: bool)
        ensures
            r == (self.publication.managed && self.publication.wait_for_registry_refs
                && result.registry_refs@.len() == 0
                && attempts_made < self.publication.registry_wait_attempts),
    {
        self.publication.managed && self.publication.wait_for_registry_refs && result.registry_refs.len() == 0
            && attempts_made < self.publication.registry_wait_attempts
    }

    /// The backend URL that a fetch reads its record from while it waits
    /// for the registry references.
    pub fn record_url(&self, provenance_attestation_id: &str) -> (r: String)
        ensures
            r@ == self.backend_base_url@ + "/api/v1/provenance/attestations/"@ + provenance_attestation_id@,
    {
        let mut r = concat2(self.backend_base_url.as_str(), "/api/v1/provenance/attestations/");
        push_str(&mut r, provenance_attestation_id);
        r
    }
}

/// A fetch's provenance after the backend's record was read again: the
/// publication state and the registry references come from the record,
/// everything else stays.
pub fn with_registry_refs(result: ProvenanceResult, record: ProvenanceRecord) -> (r: ProvenanceResult)
    ensures
        opt_deep(r.managed_publication) == opt_deep(record.managed_publication),
        items_deep(r.registry_refs@) == items_deep(record.registry_refs@),
        r.provenance_attestation_id@ == result.provenance_attestation_id@,
        r.subject_id@ == result.subject_id@,
        r.schema_id@ == result.schema_id@,
        r.schema_version@ == result.schema_version@,
        r.verification_status@ == result.verification_status@,
        r.schema_binding_status@ == result.schema_binding_status@,
        r.public_values_commitment@ == result.public_values_commitment@,
        r.report_payload_hash@ == result.report_payload_hash@,
        opt_view(r.explorer_url) == opt_view(result.explorer_url),
        r.data_sha256@ == result.data_sha256@,
{
    ProvenanceResult {
        managed_publication: record.managed_publication,
        registry_refs: record.registry_refs,
        ..result
    }
}

/// The request that creates the resolver record template.
pub open spec fn template_request_json(c: ProvenanceSettings, resolver_version: Seq<char>) -> Json {
    Json::Object(
    seq![
        ("integration_id"@, Json::Str(c.integration_id)),
        ("schema_id"@, Json::Str(c.schema_id)),
        ("schema_version"@, Json::Str(c.schema_version)),
        ("attestation_claim"@, Json::Str("source"@)),
        ("subject_type"@, Json::Str("resolver_fetch"@)),
        ("name"@, Json::Str("Resolver fetch"@)),
        ("template_kind"@, Json::Str("resolver_source"@)),
        ("description"@, Json::Str("Generic Livy resolver source-fetch proof. Use a separate prediction-market template only when the resolver emits market outcome fields."@)),
        ("visibility"@, Json::Str(c.visibility)),
        ("fields"@, Json::Array(template_fields_json())),
        (
            "metadata"@,
            Json::Object(
                seq![
                    ("application_domain"@, Json::Str("resolver"@)),
                    ("resolver_service"@, Json::Str("livy-resolver"@)),
                    ("resolver_version"@, Json::Str(resolver_version)),
                ],
            ),
        ),
    ],
)
}

/// What to do before a record: go on, or first create the record template
/// with this request.
pub enum TemplateAction {
    Proceed,
    Create(JsonValue),
}

impl ProvenanceConfig {
    /// Whether the record template has to be created first, and how: only
    /// when bootstrapping is configured and the template is not ready yet.
    pub fn template_action(&self, template_ready: bool, resolver_version: &str) -> (r: TemplateAction)
        ensures
            match r {
                TemplateAction::Proceed => !(self.bootstrap_template && !template_ready),
                TemplateAction::Create(request) => self.bootstrap_template && !template_ready
                    && request.deep() == template_request_json(self@, resolver_version@),
            },
    {
        if self.needs_template(template_ready) {
            TemplateAction::Create(self.template_request(resolver_version))
        } else {
            TemplateAction::Proceed
        }
    }
}

/// What the backend's answer to a template request leads to: after a
/// success status (200 to 299) the template is ready and the record goes
/// on; else it stays not ready and the record fails, naming the status as
/// `http::StatusCode` shows it, and the body.
pub fn template_outcome(status: u16, body: &str) -> (r: (bool, Result<(), ProvenanceError>))
    requires
        valid_status(status),
    ensures
        200 <= status <= 299 ==> r.0 && r.1 is Ok,
        !(200 <= status <= 299) ==> (!r.0 && (r.1 matches Err(ProvenanceError::Backend(m))
            && m@ == "template bootstrap returned "@ + status_text(status) + ": "@ + body@)),
{
    if 200 <= status && status <= 299 {
        (true, Ok(()))
    } else {
        (false, Err(template_rejection(status, body)))
    }
}

/// The error for a refused template bootstrap, naming the status as
/// `http::StatusCode` shows it, and the body.
pub fn template_rejection(status: u16, body: &str) -> (r: ProvenanceError)
    requires
        valid_status(status),
    ensures
        r matches ProvenanceError::Backend(m) && m@ == "template bootstrap returned "@ + status_text(status) + ": "@ + body@,
{
    let shown = status_display(status);
    let mut m = concat2("template bootstrap returned ", shown.as_str());
    push_str(&mut m, ": ");
    push_str(&mut m, body);
    ProvenanceError::Backend(m)
}

/// The fetch time in whole milliseconds since the Unix epoch, from the
/// elapsed time or the clock's error message.
pub fn unix_millis(since_epoch: Result<u128, String>) -> (r: Result<u64, ProvenanceError>)
    ensures
        match since_epoch {
            Ok(ms) => if ms <= u64::MAX {
                r matches Ok(v) && v == ms
            } else {
                r matches Err(ProvenanceError::Time(m)) && m@ == "out of range integral type conversion attempted"@
            },
            Err(e) => r matches Err(ProvenanceError::Time(m)) && m@ == e@,
        },
{
    match since_epoch {
        Ok(ms) => if ms <= 0xFFFF_FFFF_FFFF_FFFFu128 {
            Ok(ms as u64)
        } else {
            Err(ProvenanceError::Time(owned("out of range integral type conversion attempted")))
        },
        Err(e) => Err(ProvenanceError::Time(e)),
    }
}

/// The summary shows custom headers only as their count, and cookies and
/// the user agent only as whether they are present and non-empty: two
/// requests that differ only in these, with the same count and presence,
/// have the same summary, so no header, cookie or user agent value can be
/// read from it.
pub proof fn lemma_summary_redacts(p: ProductRequest, q: ProductRequest, route: ProductRoute, mode: ProductMode)
    requires
        q == (ProductRequest { headers: q.headers, cookies: q.cookies, user_agent: q.user_agent, ..p }),
        count_json(p.headers) == count_json(q.headers),
        presence_json(p.cookies) == presence_json(q.cookies),
        presence_json(p.user_agent) == presence_json(q.user_agent),
    ensures
        summary_members(p, route, mode) == summary_members(q, route, mode),
{
}

/// The names of the request summary's members are pairwise distinct.
#[verifier::rlimit(100)]
proof fn lemma_summary_names_distinct(p: ProductRequest, route: ProductRoute, mode: ProductMode)
    ensures
        forall|i: int, j: int|
            0 <= i < j < summary_members(p, route, mode).len() ==> summary_members(p, route, mode)[i].0
                != summary_members(p, route, mode)[j].0,
{
    reveal_strlit("route");
    reveal_strlit("mode");
    reveal_strlit("source");
    reveal_strlit("query");
    reveal_strlit("format");
    reveal_strlit("formats");
    reveal_strlit("proxy");
    reveal_strlit("limit");
    reveal_strlit("depth");
    reveal_strlit("timeout_secs");
    reveal_strlit("request_timeout_secs");
    reveal_strlit("crawl_timeout_secs");
    reveal_strlit("readability");
    reveal_strlit("cache");
    reveal_strlit("metadata");
    reveal_strlit("return_headers");
    reveal_strlit("return_page_links");
    reveal_strlit("return_cookies");
    reveal_strlit("country_code");
    reveal_strlit("locale");
    reveal_strlit("user_agent_present");
    reveal_strlit("header_count");
    reveal_strlit("cookies_present");
    reveal_strlit("root_selector");
    reveal_strlit("selectors");
    reveal_strlit("whitelist");
    reveal_strlit("blacklist");
    reveal_strlit("tld");
    reveal_strlit("subdomains");
    reveal_strlit("external_domains");
    reveal_strlit("sitemap");
    reveal_strlit("respect_robots");
    reveal_strlit("stealth");
    reveal_strlit("fingerprint");
    reveal_strlit("scroll");
    reveal_strlit("wait_ms");
    reveal_strlit("wait_selector");
    reveal_strlit("disable_intercept");
    reveal_strlit("disable_hints");
    reveal_strlit("lite_mode");
    reveal_strlit("max_credits_per_page");
    reveal_strlit("receipt");
    reveal_strlit("search_limit");
    reveal_strlit("fetch_page_content");
    reveal_strlit("quick_search");
    reveal_strlit("engine");
    assert("route"@.len() == 5);
    assert("mode"@.len() == 4);
    assert("source"@.len() == 6);
    assert("query"@.len() == 5);
    assert("format"@.len() == 6);
    assert("formats"@.len() == 7);
    assert("proxy"@.len() == 5);
    assert("limit"@.len() == 5);
    assert("depth"@.len() == 5);
    assert("timeout_secs"@.len() == 12);
    assert("request_timeout_secs"@.len() == 20);
    assert("crawl_timeout_secs"@.len() == 18);
    assert("readability"@.len() == 11);
    assert("cache"@.len() == 5);
    assert("metadata"@.len() == 8);
    assert("return_headers"@.len() == 14);
    assert("return_page_links"@.len() == 17);
    assert("return_cookies"@.len() == 14);
    assert("country_code"@.len() == 12);
    assert("locale"@.len() == 6);
    assert("user_agent_present"@.len() == 18);
    assert("header_count"@.len() == 12);
    assert("cookies_present"@.len() == 15);
    assert("root_selector"@.len() == 13);
    assert("selectors"@.len() == 9);
    assert("whitelist"@.len() == 9);
    assert("blacklist"@.len() == 9);
    assert("tld"@.len() == 3);
    assert("subdomains"@.len() == 10);
    assert("external_domains"@.len() == 16);
    assert("sitemap"@.len() == 7);
    assert("respect_robots"@.len() == 14);
    assert("stealth"@.len() == 7);
    assert("fingerprint"@.len() == 11);
    assert("scroll"@.len() == 6);
    assert("wait_ms"@.len() == 7);
    assert("wait_selector"@.len() == 13);
    assert("disable_intercept"@.len() == 17);
    assert("disable_hints"@.len() == 13);
    assert("lite_mode"@.len() == 9);
    assert("max_credits_per_page"@.len() == 20);
    assert("receipt"@.len() == 7);
    assert("search_limit"@.len() == 12);
    assert("fetch_page_content"@.len() == 18);
    assert("quick_search"@.len() == 12);
    assert("engine"@.len() == 6);
    assert("route"@[0] != "query"@[0]);
    assert("route"@[0] != "proxy"@[0]);
    assert("route"@[0] != "limit"@[0]);
    assert("route"@[0] != "depth"@[0]);
    assert("route"@[0] != "cache"@[0]);
    assert("source"@[0] != "format"@[0]);
    assert("source"@[0] != "locale"@[0]);
    assert("source"@[1] != "scroll"@[1]);
    assert("source"@[0] != "engine"@[0]);
    assert("query"@[0] != "proxy"@[0]);
    assert("query"@[0] != "limit"@[0]);
    assert("query"@[0] != "depth"@[0]);
    assert("query"@[0] != "cache"@[0]);
    assert("format"@[0] != "locale"@[0]);
    assert("format"@[0] != "scroll"@[0]);
    assert("format"@[0] != "engine"@[0]);
    assert("formats"@[0] != "sitemap"@[0]);
    assert("formats"@[0] != "stealth"@[0]);
    assert("formats"@[0] != "wait_ms"@[0]);
    assert("formats"@[0] != "receipt"@[0]);
    assert("proxy"@[0] != "limit"@[0]);
    assert("proxy"@[0] != "depth"@[0]);
    assert("proxy"@[0] != "cache"@[0]);
    assert("limit"@[0] != "depth"@[0]);
    assert("limit"@[0] != "cache"@[0]);
    assert("depth"@[0] != "cache"@[0]);
    assert("timeout_secs"@[0] != "country_code"@[0]);
    assert("timeout_secs"@[0] != "header_count"@[0]);
    assert("timeout_secs"@[0] != "search_limit"@[0]);
    assert("timeout_secs"@[0] != "quick_search"@[0]);
    assert("request_timeout_secs"@[0] != "max_credits_per_page"@[0]);
    assert("crawl_timeout_secs"@[0] != "user_agent_present"@[0]);
    assert("crawl_timeout_secs"@[0] != "fetch_page_content"@[0]);
    assert("readability"@[0] != "fingerprint"@[0]);
    assert("return_headers"@[7] != "return_cookies"@[7]);
    assert("return_headers"@[2] != "respect_robots"@[2]);
    assert("return_page_links"@[0] != "disable_intercept"@[0]);
    assert("return_cookies"@[2] != "respect_robots"@[2]);
    assert("country_code"@[0] != "header_count"@[0]);
    assert("country_code"@[0] != "search_limit"@[0]);
    assert("country_code"@[0] != "quick_search"@[0]);
    assert("locale"@[0] != "scroll"@[0]);
    assert("locale"@[0] != "engine"@[0]);
    assert("user_agent_present"@[0] != "fetch_page_content"@[0]);
    assert("header_count"@[0] != "search_limit"@[0]);
    assert("header_count"@[0] != "quick_search"@[0]);
    assert("root_selector"@[0] != "wait_selector"@[0]);
    assert("root_selector"@[0] != "disable_hints"@[0]);
    assert("selectors"@[0] != "whitelist"@[0]);
    assert("selectors"@[0] != "blacklist"@[0]);
    assert("selectors"@[0] != "lite_mode"@[0]);
    assert("whitelist"@[0] != "blacklist"@[0]);
    assert("whitelist"@[0] != "lite_mode"@[0]);
    assert("blacklist"@[0] != "lite_mode"@[0]);
    assert("sitemap"@[1] != "stealth"@[1]);
    assert("sitemap"@[0] != "wait_ms"@[0]);
    assert("sitemap"@[0] != "receipt"@[0]);
    assert("stealth"@[0] != "wait_ms"@[0]);
    assert("stealth"@[0] != "receipt"@[0]);
    assert("scroll"@[0] != "engine"@[0]);
    assert("wait_ms"@[0] != "receipt"@[0]);
    assert("wait_selector"@[0] != "disable_hints"@[0]);
    assert("search_limit"@[0] != "quick_search"@[0]);
    let ms = summary_members(p, route, mode);
    assert forall|i: int, j: int| 0 <= i < j < ms.len() implies ms[i].0 != ms[j].0 by {
        assert(i == 0 || i == 1 || i == 2 || i == 3 || i == 4 || i == 5 || i == 6 || i == 7 || i == 8 || i == 9 || i == 10 || i == 11 || i == 12 || i == 13 || i == 14 || i == 15 || i == 16 || i == 17 || i == 18 || i == 19 || i == 20 || i == 21 || i == 22 || i == 23 || i == 24 || i == 25 || i == 26 || i == 27 || i == 28 || i == 29 || i == 30 || i == 31 || i == 32 || i == 33 || i == 34 || i == 35 || i == 36 || i == 37 || i == 38 || i == 39 || i == 40 || i == 41 || i == 42 || i == 43 || i == 44 || i == 45);
        assert(j == 0 || j == 1 || j == 2 || j == 3 || j == 4 || j == 5 || j == 6 || j == 7 || j == 8 || j == 9 || j == 10 || j == 11 || j == 12 || j == 13 || j == 14 || j == 15 || j == 16 || j == 17 || j == 18 || j == 19 || j == 20 || j == 21 || j == 22 || j == 23 || j == 24 || j == 25 || j == 26 || j == 27 || j == 28 || j == 29 || j == 30 || j == 31 || j == 32 || j == 33 || j == 34 || j == 35 || j == 36 || j == 37 || j == 38 || j == 39 || j == 40 || j == 41 || j == 42 || j == 43 || j == 44 || j == 45);
    }
}

/// In an object whose names are pairwise distinct, each member is found
/// under its name.
proof fn lemma_distinct_lookup(ms: Seq<(Seq<char>, Json)>, i: int)
    requires
        0 <= i < ms.len(),
        forall|a: int, b: int| 0 <= a < b < ms.len() ==> ms[a].0 != ms[b].0,
    ensures
        lookup(ms, ms[i].0) == Some(ms[i].1),
{
    assert(is_first_key(ms, ms[i].0, i));
    assert(has_key(ms, ms[i].0));
    lemma_has_key_pos(ms, ms[i].0);
    lemma_first_key_unique(ms, ms[i].0, i, key_pos(ms, ms[i].0).unwrap());
}

/// The request summary names each member after what it records, and each
/// member renders exactly that part of the request: the route and mode,
/// then every request field under its own name (the header count and the
/// presence of cookies and a user agent in place of their values).
pub proof fn lemma_summary_renders_fields(p: ProductRequest, route: ProductRoute, mode: ProductMode)
    ensures
        forall|i: int, j: int|
            0 <= i < j < summary_members(p, route, mode).len() ==> summary_members(p, route, mode)[i].0
                != summary_members(p, route, mode)[j].0,
        lookup(summary_members(p, route, mode), "route"@) == Some(Json::Str(route_name(route))),
        lookup(summary_members(p, route, mode), "mode"@) == Some(Json::Str(mode_name(mode))),
        lookup(summary_members(p, route, mode), "source"@) == Some(text_json(p.source)),
        lookup(summary_members(p, route, mode), "query"@) == Some(text_json(p.query)),
        lookup(summary_members(p, route, mode), "format"@) == Some(format_selection_json(p.format)),
        lookup(summary_members(p, route, mode), "formats"@) == Some(format_list_json(p.formats)),
        lookup(summary_members(p, route, mode), "proxy"@) == Some(proxy_json(p.proxy)),
        lookup(summary_members(p, route, mode), "limit"@) == Some(uint_json(opt_u32(p.limit))),
        lookup(summary_members(p, route, mode), "depth"@) == Some(uint_json(opt_u32(p.depth))),
        lookup(summary_members(p, route, mode), "timeout_secs"@) == Some(uint_json(p.timeout_secs)),
        lookup(summary_members(p, route, mode), "request_timeout_secs"@) == Some(uint_json(opt_u8(p.request_timeout_secs))),
        lookup(summary_members(p, route, mode), "crawl_timeout_secs"@) == Some(uint_json(p.crawl_timeout_secs)),
        lookup(summary_members(p, route, mode), "readability"@) == Some(bool_json(p.readability)),
        lookup(summary_members(p, route, mode), "cache"@) == Some(bool_json(p.cache)),
        lookup(summary_members(p, route, mode), "metadata"@) == Some(bool_json(p.metadata)),
        lookup(summary_members(p, route, mode), "return_headers"@) == Some(bool_json(p.return_headers)),
        lookup(summary_members(p, route, mode), "return_page_links"@) == Some(bool_json(p.return_page_links)),
        lookup(summary_members(p, route, mode), "return_cookies"@) == Some(bool_json(p.return_cookies)),
        lookup(summary_members(p, route, mode), "country_code"@) == Some(text_json(p.country_code)),
        lookup(summary_members(p, route, mode), "locale"@) == Some(text_json(p.locale)),
        lookup(summary_members(p, route, mode), "user_agent_present"@) == Some(presence_json(p.user_agent)),
        lookup(summary_members(p, route, mode), "header_count"@) == Some(count_json(p.headers)),
        lookup(summary_members(p, route, mode), "cookies_present"@) == Some(presence_json(p.cookies)),
        lookup(summary_members(p, route, mode), "root_selector"@) == Some(text_json(p.root_selector)),
        lookup(summary_members(p, route, mode), "selectors"@) == Some(selectors_json(p.selectors)),
        lookup(summary_members(p, route, mode), "whitelist"@) == Some(text_list_json(p.whitelist)),
        lookup(summary_members(p, route, mode), "blacklist"@) == Some(text_list_json(p.blacklist)),
        lookup(summary_members(p, route, mode), "tld"@) == Some(bool_json(p.tld)),
        lookup(summary_members(p, route, mode), "subdomains"@) == Some(bool_json(p.subdomains)),
        lookup(summary_members(p, route, mode), "external_domains"@) == Some(text_list_json(p.external_domains)),
        lookup(summary_members(p, route, mode), "sitemap"@) == Some(bool_json(p.sitemap)),
        lookup(summary_members(p, route, mode), "respect_robots"@) == Some(bool_json(p.respect_robots)),
        lookup(summary_members(p, route, mode), "stealth"@) == Some(bool_json(p.stealth)),
        lookup(summary_members(p, route, mode), "fingerprint"@) == Some(bool_json(p.fingerprint)),
        lookup(summary_members(p, route, mode), "scroll"@) == Some(uint_json(opt_u32(p.scroll))),
        lookup(summary_members(p, route, mode), "wait_ms"@) == Some(uint_json(p.wait_ms)),
        lookup(summary_members(p, route, mode), "wait_selector"@) == Some(text_json(p.wait_selector)),
        lookup(summary_members(p, route, mode), "disable_intercept"@) == Some(bool_json(p.disable_intercept)),
        lookup(summary_members(p, route, mode), "disable_hints"@) == Some(bool_json(p.disable_hints)),
        lookup(summary_members(p, route, mode), "lite_mode"@) == Some(bool_json(p.lite_mode)),
        lookup(summary_members(p, route, mode), "max_credits_per_page"@) == Some(number_text_json(p.max_credits_per_page)),
        lookup(summary_members(p, route, mode), "receipt"@) == Some(bool_json(p.receipt)),
        lookup(summary_members(p, route, mode), "search_limit"@) == Some(uint_json(opt_u32(p.search_limit))),
        lookup(summary_members(p, route, mode), "fetch_page_content"@) == Some(bool_json(p.fetch_page_content)),
        lookup(summary_members(p, route, mode), "quick_search"@) == Some(bool_json(p.quick_search)),
        lookup(summary_members(p, route, mode), "engine"@) == Some(text_json(p.engine)),
{
    let ms = summary_members(p, route, mode);
    lemma_summary_names_distinct(p, route, mode);
    assert forall|i: int| 0 <= i < ms.len() implies lookup(ms, #[trigger] ms[i].0) == Some(ms[i].1) by {
        lemma_distinct_lookup(ms, i);
    }
    assert(ms[0].0 == "route"@);
    assert(ms[1].0 == "mode"@);
    assert(ms[2].0 == "source"@);
    assert(ms[3].0 == "query"@);
    assert(ms[4].0 == "format"@);
    assert(ms[5].0 == "formats"@);
    assert(ms[6].0 == "proxy"@);
    assert(ms[7].0 == "limit"@);
    assert(ms[8].0 == "depth"@);
    assert(ms[9].0 == "timeout_secs"@);
    assert(ms[10].0 == "request_timeout_secs"@);
    assert(ms[11].0 == "crawl_timeout_secs"@);
    assert(ms[12].0 == "readability"@);
    assert(ms[13].0 == "cache"@);
    assert(ms[14].0 == "metadata"@);
    assert(ms[15].0 == "return_headers"@);
    assert(ms[16].0 == "return_page_links"@);
    assert(ms[17].0 == "return_cookies"@);
    assert(ms[18].0 == "country_code"@);
    assert(ms[19].0 == "locale"@);
    assert(ms[20].0 == "user_agent_present"@);
    assert(ms[21].0 == "header_count"@);
    assert(ms[22].0 == "cookies_present"@);
    assert(ms[23].0 == "root_selector"@);
    assert(ms[24].0 == "selectors"@);
    assert(ms[25].0 == "whitelist"@);
    assert(ms[26].0 == "blacklist"@);
    assert(ms[27].0 == "tld"@);
    assert(ms[28].0 == "subdomains"@);
    assert(ms[29].0 == "external_domains"@);
    assert(ms[30].0 == "sitemap"@);
    assert(ms[31].0 == "respect_robots"@);
    assert(ms[32].0 == "stealth"@);
    assert(ms[33].0 == "fingerprint"@);
    assert(ms[34].0 == "scroll"@);
    assert(ms[35].0 == "wait_ms"@);
    assert(ms[36].0 == "wait_selector"@);
    assert(ms[37].0 == "disable_intercept"@);
    assert(ms[38].0 == "disable_hints"@);
    assert(ms[39].0 == "lite_mode"@);
    assert(ms[40].0 == "max_credits_per_page"@);
    assert(ms[41].0 == "receipt"@);
    assert(ms[42].0 == "search_limit"@);
    assert(ms[43].0 == "fetch_page_content"@);
    assert(ms[44].0 == "quick_search"@);
    assert(ms[45].0 == "engine"@);
}

/// The template index of the field at position `i` of a record.
pub open spec fn record_slot(a: FetchAttestation, i: int) -> int {
    if i < 8 {
        i
    } else if i == 8 && a.receipt_id is Some {
        8
    } else {
        9
    }
}

/// A record follows the template and the attestation: its fields are
/// template fields at increasing indices, every required one included,
/// each with the template's name, commit mode and requirement; the field
/// at each position discloses the value that the attestation commits at
/// that position, and it is committed by hash exactly where the template
/// commits by hash.
pub proof fn lemma_record_follows_template(a: FetchAttestation, program_id: Option<Seq<char>>)
    ensures
        schema_fields_of(a, program_id).len() == commitments_of(a, program_id).len(),
        schema_fields_of(a, program_id).len() >= 8,
        forall|i: int|
            0 <= i < schema_fields_of(a, program_id).len() ==> {
                let k = record_slot(a, i);
                let row = template_row(k);
                &&& 0 <= k < template_fields_json().len()
                &&& (i < 8 ==> k == i)
                &&& #[trigger] schema_fields_of(a, program_id)[i] == schema_field_json(
                    k as u32,
                    row.0,
                    row.1,
                    commitments_of(a, program_id)[i].0,
                    row.3,
                )
                &&& commitments_of(a, program_id)[i].1 == (row.1 == "json_sha256"@)
            },
        forall|i: int, j: int|
            0 <= i < j < schema_fields_of(a, program_id).len() ==> record_slot(a, i) < record_slot(a, j),
{
    reveal_strlit("json");
    reveal_strlit("json_sha256");
    assert("json"@.len() != "json_sha256"@.len());
}

/// The template discloses in clear exactly what it commits as JSON, and
/// only by commitment what it commits by hash: a field's commit mode is
/// `json_sha256` exactly when its disclosure is `commitment`, and `json`
/// exactly when it is `public`. So the attestation of a fetch hashes the
/// value at a position exactly when the template field there is disclosed
/// by commitment.
pub proof fn lemma_template_discloses_by_commit_mode(a: FetchAttestation, program_id: Option<Seq<char>>)
    ensures
        forall|k: int|
            0 <= k < template_fields_json().len() ==> {
                &&& (#[trigger] template_row(k)).1 == "json_sha256"@ <==> template_row(k).2 == "commitment"@
                &&& template_row(k).1 == "json"@ <==> template_row(k).2 == "public"@
            },
        forall|i: int|
            0 <= i < commitments_of(a, program_id).len() ==> (#[trigger] commitments_of(a, program_id)[i]).1 == (
            template_row(record_slot(a, i)).2 == "commitment"@),
{
    reveal_strlit("json");
    reveal_strlit("json_sha256");
    reveal_strlit("commitment");
    reveal_strlit("public");
    assert("json"@.len() == 4);
    assert("json_sha256"@.len() == 11);
    assert("commitment"@.len() == 10);
    assert("public"@.len() == 6);
    lemma_record_follows_template(a, program_id);
    assert forall|i: int| 0 <= i < commitments_of(a, program_id).len() implies (#[trigger] commitments_of(
        a,
        program_id,
    )[i]).1 == (template_row(record_slot(a, i)).2 == "commitment"@) by {
        assert(schema_fields_of(a, program_id)[i] == schema_field_json(
            record_slot(a, i) as u32,
            template_row(record_slot(a, i)).0,
            template_row(record_slot(a, i)).1,
            commitments_of(a, program_id)[i].0,
            template_row(record_slot(a, i)).3,
        ));
    }
}

/// The settings follow the environment: when provenance is on, each
/// setting is the trimmed value of its variable when that is set and not
/// blank (the backend and explorer URLs without trailing slashes), and its
/// documented default otherwise; it is on only with an API key; and a
/// `false` word for `LIVY_PROVENANCE_ENABLED` turns it off.
pub proof fn lemma_settings_follow_env(env: ProvenanceEnv)
    ensures
        env_text(env.enabled) matches Some(v) && bool_word(v) == Some(false) ==> provenance_settings(env) == Ok::<
            Option<ProvenanceSettings>,
            Seq<char>,
        >(None),
        provenance_settings(env) matches Ok(Some(c)) ==> {
            &&& env_text(env.api_key) == Some(c.api_key)
            &&& c.integration_id == match env_text(env.integration_id) {
                Some(v) => v,
                None => "delphi"@,
            }
            &&& c.schema_id == match env_text(env.schema_id) {
                Some(v) => v,
                None => "resolver-fetch-v1"@,
            }
            &&& c.schema_version == match env_text(env.schema_version) {
                Some(v) => v,
                None => "1"@,
            }
            &&& c.visibility == match env_text(env.visibility) {
                Some(v) => v,
                None => "public"@,
            }
            &&& c.verification_mode == match env_text(env.verification_mode) {
                Some(v) => v,
                None => "verify_fresh"@,
            }
            &&& c.subject_prefix == match env_text(env.subject_prefix) {
                Some(v) => v,
                None => "resolver_fetch"@,
            }
            &&& c.backend_base_url == trim_end_char(
                match env_text(env.backend_base_url) {
                    Some(v) => v,
                    None => "https://api.livylabs.xyz"@,
                },
                '/',
            )
            &&& c.explorer_base_url == match env_text(env.explorer_base_url) {
                Some(v) => Some(trim_end_char(v, '/')),
                None => None,
            }
            &&& c.program_id == env_text(env.program_id)
            &&& c.bootstrap_template == match env_text(env.bootstrap_template) {
                Some(v) => bool_word(v) == Some(true),
                None => false,
            }
            &&& c.publication.managed == match env_text(env.managed_publication) {
                Some(v) => bool_word(v) == Some(true),
                None => false,
            }
            &&& c.publication.wait_for_registry_refs == match env_text(env.wait_for_registry_refs) {
                Some(v) => bool_word(v) == Some(true),
                None => false,
            }
        },
{
}

} // verus!
