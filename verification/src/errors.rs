//! Central error definitions and their HTTP mapping.

use vstd::prelude::*;
use crate::codec::utf8_text;
use crate::env::opt_view;
use crate::json::{Json, JsonValue, members_deep, object, opt_deep, pair};
use crate::text::{concat2, owned, push_str, trim, trimmed};
use crate::text::{decimal, has_prefix, str_eq};
use vstd::utf8::{decode_utf8, encode_utf8, valid_utf8};

verus! {

/// Whether `http::StatusCode::from_u16` takes a number as a status code:
/// it has three digits.
pub open spec fn valid_status(status: u16) -> bool {
    100 <= status <= 999
}

/// The text that `http::StatusCode`'s `Display` writes for a status code.
pub uninterp spec fn status_text(status: u16) -> Seq<char>;

/// `Display` of `http::StatusCode` (as `reqwest::StatusCode`): the code's
/// number, a space, then its canonical reason phrase, or
/// `<unknown status code>` where it has none. The reason phrases are left
/// to the name `status_text`.
#[verifier::external_body]
pub(crate) fn status_display(status: u16) -> (r: String)
    requires
        valid_status(status),
    ensures
        r@ == status_text(status),
        has_prefix(r@, decimal(status as nat) + " "@),
{
    match reqwest::StatusCode::from_u16(status) {
        Ok(code) => code.to_string(),
        Err(e) => e.to_string(),
    }
}

/// Snapshot failures reported by the fetch routes.
#[derive(Clone, Copy, Debug, PartialEq, Eq, Structural)]
pub enum SnapshotError {
    MissingHtml,
    MissingScreenshot,
}

pub open spec fn snapshot_error_text(e: SnapshotError) -> Seq<char> {
    match e {
        SnapshotError::MissingHtml => "Spider snapshot response did not include raw HTML"@,
        SnapshotError::MissingScreenshot => "Spider snapshot response did not include a screenshot"@,
    }
}

impl SnapshotError {
    /// The error's message.
    pub fn message(&self) -> (r: String)
        ensures
            r@ == snapshot_error_text(*self),
    {
        match self {
            SnapshotError::MissingHtml => owned("Spider snapshot response did not include raw HTML"),
            SnapshotError::MissingScreenshot => owned(
                "Spider snapshot response did not include a screenshot",
            ),
        }
    }
}

/// Resolver failures. Errors of the HTTP client and of JSON handling are
/// kept as their messages.
#[derive(Debug)]
pub enum FetchError {
    UnableFetch(String),
    UnableToSerialize(String),
    Http(String),
    Upstream(String),
    Timeout(String),
    NotFound(String),
    BadRequest(String),
    PaymentRequired(String),
    Credits(String),
    Snapshot(SnapshotError),
}

/// The short message of each error kind.
pub open spec fn fetch_error_text(e: FetchError) -> Seq<char> {
    match e {
        FetchError::UnableFetch(_) => "Can't fetch page (Clean)"@,
        FetchError::UnableToSerialize(_) => "Output is not desearializable"@,
        FetchError::Http(_) => "Http Failed"@,
        FetchError::Upstream(_) => "Upstream fetch failed"@,
        FetchError::Timeout(_) => "Fetch timed out"@,
        FetchError::NotFound(_) => "Not found"@,
        FetchError::BadRequest(_) => "Bad request"@,
        FetchError::PaymentRequired(_) => "Payment required"@,
        FetchError::Credits(_) => "Credit authorization failed"@,
        FetchError::Snapshot(_) => "Snapshot failed"@,
    }
}

/// HTTP status of each error kind.
pub open spec fn fetch_error_status(e: FetchError) -> u16 {
    match e {
        FetchError::UnableFetch(_) => 502,
        FetchError::UnableToSerialize(_) => 400,
        FetchError::Http(_) => 500,
        FetchError::Upstream(_) => 502,
        FetchError::Timeout(_) => 504,
        FetchError::NotFound(_) => 404,
        FetchError::BadRequest(_) => 400,
        FetchError::PaymentRequired(_) => 402,
        FetchError::Credits(_) => 502,
        FetchError::Snapshot(_) => 400,
    }
}

/// Every resolver error is answered with an HTTP error status.
pub proof fn lemma_errors_have_error_status(e: FetchError)
    ensures
        400 <= fetch_error_status(e) <= 599,
{
}

/// The message placed in the response body of each error.
pub open spec fn fetch_error_detail(e: FetchError) -> Seq<char> {
    match e {
        FetchError::UnableFetch(m) => "Fetch failed "@ + m@ + " "@,
        FetchError::UnableToSerialize(m) => "Data is not serializable "@ + m@,
        FetchError::Http(m) => "Http failed "@ + m@,
        FetchError::Upstream(m) => "Upstream fetch failed "@ + m@,
        FetchError::Timeout(m) => "Fetch timed out "@ + m@,
        FetchError::NotFound(m) => m@,
        FetchError::BadRequest(m) => m@,
        FetchError::PaymentRequired(m) => "Payment required "@ + m@,
        FetchError::Credits(m) => "Credit authorization failed "@ + m@,
        FetchError::Snapshot(s) => "Snapshot failed "@ + snapshot_error_text(s),
    }
}

/// The JSON body of an error response with status `status` and message
/// `detail`.
pub open spec fn error_body(status: u16, detail: Seq<char>) -> Json {
    if status == 402 {
        Json::Object(seq![("code"@, Json::Str("payment_required"@)), ("error"@, Json::Str(detail))])
    } else {
        Json::Object(seq![("error"@, Json::Str(detail))])
    }
}

/// A status code and a JSON body.
pub struct ErrorResponse {
    pub status: u16,
    pub body: JsonValue,
}

impl FetchError {
    /// The error's short message.
    pub fn message(&self) -> (r: String)
        ensures
            r@ == fetch_error_text(*self),
    {
        match self {
            FetchError::UnableFetch(_) => owned("Can't fetch page (Clean)"),
            FetchError::UnableToSerialize(_) => owned("Output is not desearializable"),
            FetchError::Http(_) => owned("Http Failed"),
            FetchError::Upstream(_) => owned("Upstream fetch failed"),
            FetchError::Timeout(_) => owned("Fetch timed out"),
            FetchError::NotFound(_) => owned("Not found"),
            FetchError::BadRequest(_) => owned("Bad request"),
            FetchError::PaymentRequired(_) => owned("Payment required"),
            FetchError::Credits(_) => owned("Credit authorization failed"),
            FetchError::Snapshot(_) => owned("Snapshot failed"),
        }
    }

    /// The HTTP response for this error: its status, and a body naming the
    /// error, with a `payment_required` code on 402.
    pub fn into_response(self) -> (r: ErrorResponse)
        ensures
            r.status == fetch_error_status(self),
            r.body.deep() == error_body(r.status, fetch_error_detail(self)),
    {
        let ghost this = self;
        let (status, message): (u16, String) = match self {
            FetchError::UnableFetch(e) => {
                let mut m = concat2("Fetch failed ", e.as_str());
                push_str(&mut m, " ");
                (502, m)
            },
            FetchError::UnableToSerialize(e) => (400, concat2("Data is not serializable ", e.as_str())),
            FetchError::Http(e) => (500, concat2("Http failed ", e.as_str())),
            FetchError::Upstream(e) => (502, concat2("Upstream fetch failed ", e.as_str())),
            FetchError::Timeout(e) => (504, concat2("Fetch timed out ", e.as_str())),
            FetchError::NotFound(e) => (404, e),
            FetchError::BadRequest(e) => (400, e),
            FetchError::PaymentRequired(e) => (402, concat2("Payment required ", e.as_str())),
            FetchError::Credits(e) => (502, concat2("Credit authorization failed ", e.as_str())),
            FetchError::Snapshot(e) => {
                let text = e.message();
                (400, concat2("Snapshot failed ", text.as_str()))
            },
        };
        let body = if status == 402 {
            let ms = vec![pair("code", JsonValue::string("payment_required")), pair("error", JsonValue::Str(message))];
            assert(members_deep(ms@) =~= seq![("code"@, Json::Str("payment_required"@)), ("error"@, Json::Str(fetch_error_detail(this)))]);
            object(ms)
        } else {
            let ms = vec![pair("error", JsonValue::Str(message))];
            assert(members_deep(ms@) =~= seq![("error"@, Json::Str(fetch_error_detail(this)))]);
            object(ms)
        };
        ErrorResponse { status, body }
    }
}

/// Authorization failures of the MCP tool.
#[derive(Debug, Clone, PartialEq, Eq)]
pub enum ResolverAuthError {
    Unauthorized { error: &'static str, message: &'static str },
    Forbidden { error: &'static str, message: &'static str },
    ServiceUnavailable(String),
}

impl ResolverAuthError {
    /// The OAuth error code and message of a challenge; none when the
    /// service is unavailable.
    pub fn challenge_parts(&self) -> (r: Option<(&'static str, &'static str)>)
        ensures
            match *self {
                ResolverAuthError::Unauthorized { error, message } => r == Some((error, message)),
                ResolverAuthError::Forbidden { error, message } => r == Some((error, message)),
                ResolverAuthError::ServiceUnavailable(_) => r is None,
            },
    {
        match self {
            ResolverAuthError::Unauthorized { error, message } => Some((*error, *message)),
            ResolverAuthError::Forbidden { error, message } => Some((*error, *message)),
            ResolverAuthError::ServiceUnavailable(_) => None,
        }
    }
}

/// The most of a backend body kept in a message, in bytes.
pub const BODY_LIMIT: usize = 512;

/// A backend body as shown in a message: trimmed, and cut after its first
/// 512 bytes with `...` added.
pub open spec fn compact_text(body: Seq<char>) -> Seq<char> {
    let t = trimmed(body);
    if encode_utf8(t).len() <= 512 {
        t
    } else {
        decode_utf8(encode_utf8(t).take(512)) + "..."@
    }
}

/// Whether a body can be cut after 512 bytes: it is short enough, or its
/// 512th byte ends a character.
pub open spec fn compactable(body: Seq<char>) -> bool {
    let b = encode_utf8(trimmed(body));
    b.len() <= 512 || valid_utf8(b.take(512))
}

/// Shortens a backend body for a message.
pub fn compact_body(body: &str) -> (r: String)
    requires
        compactable(body@),
    ensures
        r@ == compact_text(body@),
{
    let t = trim(body);
    let bytes = t.as_str().as_bytes();
    if bytes.len() <= BODY_LIMIT {
        return t;
    }
    let mut head: Vec<u8> = Vec::new();
    let mut i: usize = 0;
    while i < BODY_LIMIT
        invariant
            i <= BODY_LIMIT < bytes@.len(),
            head@ == bytes@.take(i as int),
        decreases BODY_LIMIT - i,
    {
        head.push(bytes[i]);
        i = i + 1;
        assert(head@ =~= bytes@.take(i as int));
    }
    match utf8_text(head.as_slice()) {
        Ok(text) => {
            let mut out = text;
            push_str(&mut out, "...");
            out
        },
        Err(_) => {
            assert(false);
            t
        },
    }
}

/// The `code` member of a backend's JSON body, when it is a string.
pub open spec fn error_code(body: Option<Json>) -> Option<Seq<char>> {
    match body {
        Some(v) => match v.member("code"@) {
            Some(c) => c.text(),
            None => None,
        },
        None => None,
    }
}

/// The error code in a backend body, given the body as parsed JSON, or
/// nothing when it was not JSON.
pub fn backend_error_code(parsed: &Option<JsonValue>) -> (r: Option<String>)
    ensures
        opt_view(r) == error_code(opt_deep(*parsed)),
{
    match parsed {
        Some(v) => match v.get("code") {
            Some(c) => match c.as_str() {
                Some(s) => Some(owned(s)),
                None => None,
            },
            None => None,
        },
        None => None,
    }
}

/// Failures of the credit backend.
#[derive(Debug)]
pub enum ResolverCreditsError {
    MissingAuth(&'static str),
    InvalidHeader(String),
    Http(String),
    Backend { status: u16, body: String },
}

/// The message of each credit failure.
pub open spec fn credits_error_text(e: ResolverCreditsError) -> Seq<char> {
    match e {
        ResolverCreditsError::MissingAuth(what) => "OAuth context is missing Livy "@ + what@,
        ResolverCreditsError::InvalidHeader(m) => "credit request header is invalid: "@ + m@,
        ResolverCreditsError::Http(m) => "credit request failed: "@ + m@,
        ResolverCreditsError::Backend { status, body } => "credit request returned "@ + status_text(status)
            + ": "@ + compact_text(body@),
    }
}

/// Whether a credit failure can be shown: a backend status must be a
/// status code, and its body must be cut at a character's end.
pub open spec fn credits_error_showable(e: ResolverCreditsError) -> bool {
    match e {
        ResolverCreditsError::Backend { status, body } => valid_status(status) && compactable(body@),
        _ => true,
    }
}

impl ResolverCreditsError {
    /// Whether the backend refused for want of credits: status 402, or the
    /// code `insufficient_user_credits` in its body, given the body as
    /// parsed JSON.
    pub fn is_payment_required(&self, parsed_body: &Option<JsonValue>) -> (r: bool)
        ensures
            r == match *self {
                ResolverCreditsError::Backend { status, .. } => status == 402
                    || error_code(opt_deep(*parsed_body)) == Some("insufficient_user_credits"@),
                _ => false,
            },
    {
        match self {
            ResolverCreditsError::Backend { status, .. } => {
                if *status == 402 {
                    return true;
                }
                match backend_error_code(parsed_body) {
                    Some(code) => str_eq(code.as_str(), "insufficient_user_credits"),
                    None => false,
                }
            },
            _ => false,
        }
    }

    /// The failure's message.
    pub fn message(&self) -> (r: String)
        requires
            credits_error_showable(*self),
        ensures
            r@ == credits_error_text(*self),
    {
        match self {
            ResolverCreditsError::MissingAuth(what) => concat2("OAuth context is missing Livy ", what),
            ResolverCreditsError::InvalidHeader(m) => concat2("credit request header is invalid: ", m.as_str()),
            ResolverCreditsError::Http(m) => concat2("credit request failed: ", m.as_str()),
            ResolverCreditsError::Backend { status, body } => {
                let code = status_display(*status);
                let mut out = concat2("credit request returned ", code.as_str());
                push_str(&mut out, ": ");
                let shown = compact_body(body.as_str());
                push_str(&mut out, shown.as_str());
                out
            },
        }
    }
}

/// The resolver error for a refused credit debit: `PaymentRequired` when
/// the backend asked for payment, else `Credits`, with the failure's
/// message.
pub open spec fn debit_refusal(e: ResolverCreditsError, parsed_body: Option<Json>) -> (bool, Seq<char>) {
    let payment = match e {
        ResolverCreditsError::Backend { status, .. } => status == 402 || error_code(parsed_body) == Some(
            "insufficient_user_credits"@,
        ),
        _ => false,
    };
    (payment, credits_error_text(e))
}

/// The resolver error for a refused credit debit, given the backend body
/// as parsed JSON.
pub fn debit_failure(err: &ResolverCreditsError, parsed_body: &Option<JsonValue>) -> (r: FetchError)
    requires
        credits_error_showable(*err),
    ensures
        match r {
            FetchError::PaymentRequired(m) => debit_refusal(*err, opt_deep(*parsed_body)) == (true, m@),
            FetchError::Credits(m) => debit_refusal(*err, opt_deep(*parsed_body)) == (false, m@),
            _ => false,
        },
{
    let message = err.message();
    if err.is_payment_required(parsed_body) {
        FetchError::PaymentRequired(message)
    } else {
        FetchError::Credits(message)
    }
}

/// Failures of the provenance service, as the HTTP layer reports them.
/// Errors of the SDK, the HTTP client and JSON handling are kept as their
/// messages.
#[derive(Debug)]
pub enum ProvenanceError {
    MissingEnv(&'static str),
    InvalidEnv(String),
    Sdk(String),
    Http(String),
    Backend { status: u16, body: String },
    Json(String),
    Attestation(String),
    Time(String),
}

/// The message of each provenance failure.
pub open spec fn provenance_failure_text(e: ProvenanceError) -> Seq<char> {
    match e {
        ProvenanceError::MissingEnv(name) => name@ + " must be set when provenance is enabled"@,
        ProvenanceError::InvalidEnv(m) => "invalid provenance configuration: "@ + m@,
        ProvenanceError::Sdk(m) => "provenance SDK failed: "@ + m@,
        ProvenanceError::Http(m) => "provenance HTTP request failed: "@ + m@,
        ProvenanceError::Backend { status, body } => "provenance backend returned "@ + status_text(status) + ": "@
            + body@,
        ProvenanceError::Json(m) => "provenance JSON handling failed: "@ + m@,
        ProvenanceError::Attestation(m) => "provenance attestation failed: "@ + m@,
        ProvenanceError::Time(m) => "provenance timestamp failed: "@ + m@,
    }
}

/// Whether a provenance failure can be shown: a backend status must be a
/// status code.
pub open spec fn provenance_failure_showable(e: ProvenanceError) -> bool {
    match e {
        ProvenanceError::Backend { status, .. } => valid_status(status),
        _ => true,
    }
}

impl ProvenanceError {
    /// The failure's message.
    pub fn message(&self) -> (r: String)
        requires
            provenance_failure_showable(*self),
        ensures
            r@ == provenance_failure_text(*self),
    {
        match self {
            ProvenanceError::MissingEnv(name) => concat2(name, " must be set when provenance is enabled"),
            ProvenanceError::InvalidEnv(m) => concat2("invalid provenance configuration: ", m.as_str()),
            ProvenanceError::Sdk(m) => concat2("provenance SDK failed: ", m.as_str()),
            ProvenanceError::Http(m) => concat2("provenance HTTP request failed: ", m.as_str()),
            ProvenanceError::Backend { status, body } => {
                let code = status_display(*status);
                let mut out = concat2("provenance backend returned ", code.as_str());
                push_str(&mut out, ": ");
                push_str(&mut out, body.as_str());
                out
            },
            ProvenanceError::Json(m) => concat2("provenance JSON handling failed: ", m.as_str()),
            ProvenanceError::Attestation(m) => concat2("provenance attestation failed: ", m.as_str()),
            ProvenanceError::Time(m) => concat2("provenance timestamp failed: ", m.as_str()),
        }
    }
}

} // verus!
