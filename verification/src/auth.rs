//! Livy OAuth login for the MCP endpoint: configuration, cookies, and the
//! bookkeeping of pending logins, sessions and introspected bearer tokens.

use vstd::prelude::*;
use crate::codec::{is_alphanumeric_ascii, random_token};
use crate::env::{
    bool_word, env_text, int_error_message, int_error_text, opt_view, optional_value,
    parse_bool_word, parse_unsigned, parse_unsigned_spec, value_or,
};
use crate::errors::FetchError;
use crate::json::{Json, JsonValue, members_deep, object, pair};
use crate::table::{Expires, Table, unexpired};
use crate::text::{
    concat2, decimal, has_prefix, index_of, is_ws, lemma_index_of, owned, push_str, split_char,
    split_on, split_whitespace, starts_with, trim, trim_end, trim_start, trimmed, u128_to_decimal,
    words,
};

verus! {

// ---------------------------------------------------------------------
// Cookies, bearer tokens and redirect targets.

/// The value of cookie `name` in one `;`-separated part of a Cookie
/// header: the part is trimmed and cut at its first `=`; an empty value
/// counts as absent.
pub open spec fn cookie_in_part(part: Seq<char>, name: Seq<char>) -> Option<Seq<char>> {
    let t = trimmed(part);
    match index_of(t, '=') {
        Some(i) => if t.take(i) == name && t.skip(i + 1).len() > 0 {
            Some(t.skip(i + 1))
        } else {
            None
        },
        None => None,
    }
}

/// The first part that gives a value for `name`.
pub open spec fn find_cookie(parts: Seq<Seq<char>>, name: Seq<char>) -> Option<Seq<char>>
    decreases parts.len(),
{
    if parts.len() == 0 {
        None
    } else {
        match cookie_in_part(parts[0], name) {
            Some(v) => Some(v),
            None => find_cookie(parts.drop_first(), name),
        }
    }
}

/// The value of cookie `name` in a Cookie header.
pub open spec fn cookie_value(header: Seq<char>, name: Seq<char>) -> Option<Seq<char>> {
    find_cookie(split_on(header, ';'), name)
}

fn cookie_in(part: &str, name: &str) -> (r: Option<String>)
    ensures
        opt_view(r) == cookie_in_part(part@, name@),
{
    let t = trim(part);
    let pieces = split_once_eq(t.as_str());
    match pieces {
        Some((key, value)) => {
            if crate::text::str_eq(key.as_str(), name) && !value.as_str().is_empty() {
                Some(value)
            } else {
                None
            }
        },
        None => None,
    }
}

/// Cuts text at its first `=`.
fn split_once_eq(t: &str) -> (r: Option<(String, String)>)
    ensures
        match index_of(t@, '=') {
            Some(i) => r matches Some(p) && p.0@ == t@.take(i) && p.1@ == t@.skip(i + 1),
            None => r is None,
        },
{
    let v = crate::text::chars_of(t);
    let mut i: usize = 0;
    while i < v.len()
        invariant
            v@ == t@,
            i <= v@.len(),
            forall|j: int| 0 <= j < i ==> v@[j] != '=',
        decreases v@.len() - i,
    {
        if v[i] == '=' {
            proof {
                crate::text::lemma_index_of(t@, '=', i as int);
            }
            let key = crate::text::string_of(crate::text::slice_range(&v, 0, i).as_slice());
            let value = crate::text::string_of(crate::text::slice_range(&v, i + 1, v.len()).as_slice());
            assert(t@.take(i as int) =~= v@.subrange(0, i as int));
            assert(t@.skip(i + 1) =~= v@.subrange(i + 1, v@.len() as int));
            return Some((key, value));
        }
        i = i + 1;
    }
    proof {
        crate::text::lemma_index_of(t@, '=', i as int);
    }
    None
}

/// The value of cookie `name` in a Cookie header.
pub fn parse_cookie(header: &str, name: &str) -> (r: Option<String>)
    ensures
        opt_view(r) == cookie_value(header@, name@),
{
    let parts = split_char(header, ';');
    let ghost ps = parts@.map_values(|p: String| p@);
    let mut i: usize = 0;
    assert(ps.skip(0) =~= ps);
    while i < parts.len()
        invariant
            ps == parts@.map_values(|p: String| p@),
            ps == split_on(header@, ';'),
            i <= parts@.len(),
            find_cookie(ps, name@) == find_cookie(ps.skip(i as int), name@),
        decreases parts@.len() - i,
    {
        let found = cookie_in(parts[i].as_str(), name);
        assert(ps.skip(i as int)[0] == parts@[i as int]@);
        assert(ps.skip(i as int).drop_first() =~= ps.skip(i + 1));
        if found.is_some() {
            return found;
        }
        i = i + 1;
    }
    None
}

/// The token of an `Authorization` value: what follows `Bearer `, when it
/// is not blank.
pub open spec fn bearer_of(value: Seq<char>) -> Option<Seq<char>> {
    if has_prefix(value, "Bearer "@) {
        let t = value.skip("Bearer "@.len() as int);
        if trimmed(t).len() > 0 {
            Some(t)
        } else {
            None
        }
    } else {
        None
    }
}

pub open spec fn str_view(o: Option<&str>) -> Option<Seq<char>> {
    match o {
        Some(s) => Some(s@),
        None => None,
    }
}

/// The bearer token of an `Authorization` header value, if any.
pub fn bearer_token(authorization: Option<&str>) -> (r: Option<String>)
    ensures
        opt_view(r) == match str_view(authorization) {
            Some(v) => bearer_of(v),
            None => None,
        },
{
    match authorization {
        Some(value) => {
            if starts_with(value, "Bearer ") {
                let v = crate::text::chars_of(value);
                let prefix = crate::text::chars_of("Bearer ");
                let rest = crate::text::string_of(crate::text::slice_range(&v, prefix.len(), v.len()).as_slice());
                assert(rest@ =~= value@.skip("Bearer "@.len() as int));
                let t = trim(rest.as_str());
                if t.as_str().is_empty() {
                    None
                } else {
                    Some(rest)
                }
            } else {
                None
            }
        },
        None => None,
    }
}

/// Whether a redirect target is a path on this server: it begins with one
/// `/` and not with `//`.
pub open spec fn is_local_path(v: Seq<char>) -> bool {
    has_prefix(v, "/"@) && !has_prefix(v, "//"@)
}

/// Where to go after login: the requested path when it is local, else
/// `/mcp`.
pub open spec fn next_target(next: Option<Seq<char>>) -> Seq<char> {
    match next {
        Some(v) => if is_local_path(v) {
            v
        } else {
            "/mcp"@
        },
        None => "/mcp"@,
    }
}

/// Where to go after login: the requested path when it is local, else
/// `/mcp`.
pub fn sanitize_next(next: Option<&str>) -> (r: String)
    ensures
        r@ == next_target(str_view(next)),
{
    match next {
        Some(value) => {
            if starts_with(value, "/") && !starts_with(value, "//") {
                owned(value)
            } else {
                owned("/mcp")
            }
        },
        None => owned("/mcp"),
    }
}

/// The Set-Cookie value of a session.
pub open spec fn session_cookie_text(name: Seq<char>, id: Seq<char>, ttl_secs: nat, secure: bool) -> Seq<char> {
    name + "="@ + id + "; Path=/; Max-Age="@ + decimal(ttl_secs) + "; HttpOnly; SameSite=Lax"@ + if secure {
        "; Secure"@
    } else {
        ""@
    }
}

/// The Set-Cookie value that ends a session.
pub open spec fn expired_cookie_text(name: Seq<char>, secure: bool) -> Seq<char> {
    name + "=; Path=/; Max-Age=0; HttpOnly; SameSite=Lax"@ + if secure {
        "; Secure"@
    } else {
        ""@
    }
}

/// The Set-Cookie value of a session.
pub fn session_cookie(name: &str, session_id: &str, ttl_secs: u128, secure: bool) -> (r: String)
    ensures
        r@ == session_cookie_text(name@, session_id@, ttl_secs as nat, secure),
{
    let mut r = concat2(name, "=");
    push_str(&mut r, session_id);
    push_str(&mut r, "; Path=/; Max-Age=");
    let digits = u128_to_decimal(ttl_secs);
    push_str(&mut r, digits.as_str());
    push_str(&mut r, "; HttpOnly; SameSite=Lax");
    if secure {
        push_str(&mut r, "; Secure");
    } else {
        push_str(&mut r, "");
    }
    r
}

/// The Set-Cookie value that ends a session.
pub fn expired_session_cookie(name: &str, secure: bool) -> (r: String)
    ensures
        r@ == expired_cookie_text(name@, secure),
{
    let mut r = concat2(name, "=; Path=/; Max-Age=0; HttpOnly; SameSite=Lax");
    if secure {
        push_str(&mut r, "; Secure");
    } else {
        push_str(&mut r, "");
    }
    r
}


// ---------------------------------------------------------------------
// Configuration.

/// Raw values of the OAuth environment variables; absent when unset. The
/// `*_present` flags tell whether a variable is set at all, even to
/// nothing.
#[derive(Clone, Debug)]
pub struct AuthEnv {
    /// `LIVY_OAUTH_ENABLED`
    pub enabled: Option<String>,
    pub enabled_present: bool,
    /// `LIVY_OAUTH_CLIENT_ID`
    pub client_id: Option<String>,
    pub client_id_present: bool,
    /// `LIVY_OAUTH_CLIENT_SECRET`
    pub client_secret: Option<String>,
    /// `LIVY_OAUTH_AUTH_URL`
    pub auth_url: Option<String>,
    pub auth_url_present: bool,
    /// `LIVY_OAUTH_TOKEN_URL`
    pub token_url: Option<String>,
    /// `LIVY_OAUTH_REDIRECT_URL`
    pub redirect_url: Option<String>,
    /// `LIVY_OAUTH_INTROSPECTION_URL`
    pub introspection_url: Option<String>,
    /// `LIVY_OAUTH_SCOPES`
    pub scopes: Option<String>,
    /// `LIVY_OAUTH_COOKIE_NAME`
    pub cookie_name: Option<String>,
    /// `LIVY_OAUTH_COOKIE_SECURE`
    pub cookie_secure: Option<String>,
    /// `LIVY_OAUTH_SESSION_TTL_SECS`
    pub session_ttl_secs: Option<String>,
    /// `LIVY_OAUTH_STATE_TTL_SECS`
    pub state_ttl_secs: Option<String>,
    /// `LIVY_OAUTH_INTROSPECTION_CACHE_SECS`
    pub introspection_cache_secs: Option<String>,
}

/// OAuth settings.
pub struct AuthConfig {
    pub client_id: String,
    pub client_secret: String,
    pub auth_url: String,
    pub token_url: String,
    pub redirect_url: String,
    pub introspection_url: Option<String>,
    pub scopes: Vec<String>,
    pub cookie_name: String,
    pub cookie_secure: bool,
    pub session_ttl_secs: u64,
    pub state_ttl_secs: u64,
    pub introspection_cache_secs: u64,
}

/// The content of OAuth settings.
pub struct AuthSettings {
    pub client_id: Seq<char>,
    pub client_secret: Seq<char>,
    pub auth_url: Seq<char>,
    pub token_url: Seq<char>,
    pub redirect_url: Seq<char>,
    pub introspection_url: Option<Seq<char>>,
    pub scopes: Seq<Seq<char>>,
    pub cookie_name: Seq<char>,
    pub cookie_secure: bool,
    pub session_ttl_secs: u64,
    pub state_ttl_secs: u64,
    pub introspection_cache_secs: u64,
}

impl AuthConfig {
    pub open spec fn view(&self) -> AuthSettings {
        AuthSettings {
            client_id: self.client_id@,
            client_secret: self.client_secret@,
            auth_url: self.auth_url@,
            token_url: self.token_url@,
            redirect_url: self.redirect_url@,
            introspection_url: opt_view(self.introspection_url),
            scopes: self.scopes@.map_values(|s: String| s@),
            cookie_name: self.cookie_name@,
            cookie_secure: self.cookie_secure,
            session_ttl_secs: self.session_ttl_secs,
            state_ttl_secs: self.state_ttl_secs,
            introspection_cache_secs: self.introspection_cache_secs,
        }
    }
}

/// The error message of `oauth2::AuthUrl::new` for a URL, if it fails.
pub uninterp spec fn auth_url_error(url: Seq<char>) -> Option<Seq<char>>;

/// The error message of `oauth2::TokenUrl::new` for a URL, if it fails.
pub uninterp spec fn token_url_error(url: Seq<char>) -> Option<Seq<char>>;

/// The error message of `oauth2::RedirectUrl::new` for a URL, if it fails.
pub uninterp spec fn redirect_url_error(url: Seq<char>) -> Option<Seq<char>>;

/// `oauth2::AuthUrl::new`: whether the URL parses, and the parse error's
/// message when it does not.
#[verifier::external_body]
fn check_auth_url(url: &str) -> (r: Option<String>)
    ensures
        opt_view(r) == auth_url_error(url@),
{
    oauth2::AuthUrl::new(url.to_string()).err().map(|e| e.to_string())
}

/// `oauth2::TokenUrl::new`: whether the URL parses, and the parse error's
/// message when it does not.
#[verifier::external_body]
fn check_token_url(url: &str) -> (r: Option<String>)
    ensures
        opt_view(r) == token_url_error(url@),
{
    oauth2::TokenUrl::new(url.to_string()).err().map(|e| e.to_string())
}

/// `oauth2::RedirectUrl::new`: whether the URL parses, and the parse
/// error's message when it does not.
#[verifier::external_body]
fn check_redirect_url(url: &str) -> (r: Option<String>)
    ensures
        opt_view(r) == redirect_url_error(url@),
{
    oauth2::RedirectUrl::new(url.to_string()).err().map(|e| e.to_string())
}

/// Whether a character is of the URL-safe base64 alphabet.
pub open spec fn is_base64url_char(c: char) -> bool {
    is_alphanumeric_ascii(c) || c == '-' || c == '_'
}

/// `oauth2::PkceCodeChallenge::new_random_sha256`: the secret of a fresh
/// PKCE code verifier, 32 random bytes in unpadded URL-safe base64, so 43
/// characters of that alphabet. Which ones is left to chance.
#[verifier::external_body]
fn new_pkce_verifier() -> (r: String)
    ensures
        r@.len() == 43,
        forall|i: int| 0 <= i < 43 ==> is_base64url_char(#[trigger] r@[i]),
{
    let (_, verifier) = oauth2::PkceCodeChallenge::new_random_sha256();
    verifier.secret().to_string()
}

/// The authorization URL that `oauth2` builds for a login: the
/// authorization endpoint with the query pairs `response_type=code`, the
/// client id, the state, the S256 challenge of the verifier with its
/// method, the redirect URL and the scopes joined by spaces.
pub uninterp spec fn authorization_url_text(
    auth_url: Seq<char>,
    client_id: Seq<char>,
    redirect_url: Seq<char>,
    scopes: Seq<Seq<char>>,
    pkce_verifier: Seq<char>,
    state: Seq<char>,
) -> Seq<char>;

/// `oauth2::BasicClient::authorize_url` with `oauth2::CsrfToken::new_random`,
/// the S256 challenge of the verifier and the scopes: the authorization URL
/// and its CSRF state, 16 random bytes in unpadded URL-safe base64, so 22
/// characters. The state is left to chance; the URL is the one built from
/// the arguments and that state.
#[verifier::external_body]
fn authorization_url(
    auth_url: &str,
    client_id: &str,
    redirect_url: &str,
    scopes: &Vec<String>,
    pkce_verifier: &str,
) -> (r: (String, String))
    requires
        auth_url_error(auth_url@) is None,
        redirect_url_error(redirect_url@) is None,
        43 <= pkce_verifier@.len() <= 128,
        forall|i: int| 0 <= i < pkce_verifier@.len() ==> is_base64url_char(#[trigger] pkce_verifier@[i]),
    ensures
        r.0@ == authorization_url_text(
            auth_url@,
            client_id@,
            redirect_url@,
            scopes@.map_values(|s: String| s@),
            pkce_verifier@,
            r.1@,
        ),
        r.1@.len() == 22,
        forall|i: int| 0 <= i < 22 ==> is_base64url_char(#[trigger] r.1@[i]),
{
    let client = oauth2::basic::BasicClient::new(oauth2::ClientId::new(client_id.to_string()))
        .set_auth_uri(oauth2::AuthUrl::new(auth_url.to_string()).expect("validated auth url"))
        .set_redirect_uri(oauth2::RedirectUrl::new(redirect_url.to_string()).expect("validated redirect url"));
    let verifier = oauth2::PkceCodeVerifier::new(pkce_verifier.to_string());
    let challenge = oauth2::PkceCodeChallenge::from_code_verifier_sha256(&verifier);
    let (url, csrf) = client
        .authorize_url(oauth2::CsrfToken::new_random)
        .set_pkce_challenge(challenge)
        .add_scopes(scopes.iter().cloned().map(oauth2::Scope::new))
        .url();
    (url.to_string(), csrf.secret().to_string())
}

/// A boolean variable: absent, a boolean word, or the error message.
pub open spec fn auth_bool(name: Seq<char>, raw: Option<String>) -> Result<Option<bool>, Seq<char>> {
    match env_text(raw) {
        None => Ok(None),
        Some(v) => match bool_word(v) {
            Some(b) => Ok(Some(b)),
            None => Err(name + " must be true or false"@),
        },
    }
}

/// A number variable: absent, a decimal `u64`, or the error message.
pub open spec fn auth_u64(name: Seq<char>, raw: Option<String>) -> Result<Option<u64>, Seq<char>> {
    match env_text(raw) {
        None => Ok(None),
        Some(v) => match parse_unsigned_spec(v, 10, u64::MAX as nat) {
            Ok(n) => Ok(Some(n as u64)),
            Err(k) => Err(name + " must be a number: "@ + int_error_text(k)),
        },
    }
}

/// A required variable, or the error naming it.
pub open spec fn auth_required(name: Seq<char>, raw: Option<String>) -> Result<Seq<char>, Seq<char>> {
    match env_text(raw) {
        Some(v) => Ok(v),
        None => Err(name + " must be set"@),
    }
}

/// A URL check: fine, or the error naming the variable.
pub open spec fn url_check(name: Seq<char>, error: Option<Seq<char>>) -> Result<(), Seq<char>> {
    match error {
        Some(e) => Err("invalid "@ + name + ": "@ + e),
        None => Ok(()),
    }
}

pub open spec fn or_default_u64(o: Option<u64>, d: u64) -> u64 {
    match o {
        Some(n) => n,
        None => d,
    }
}

/// The OAuth settings that the environment gives, `None` when OAuth is
/// off, or the message of the configuration error. Errors come in the
/// order the variables are read.
pub open spec fn auth_settings(env: AuthEnv) -> Result<Option<AuthSettings>, Seq<char>> {
    let configured = env.client_id_present || env.auth_url_present || env.enabled_present;
    match auth_bool("LIVY_OAUTH_ENABLED"@, env.enabled) {
        Err(m) => Err(m),
        Ok(flag) => {
            let enabled = match flag {
                Some(b) => b,
                None => configured,
            };
            if !enabled {
                Ok(None)
            } else {
                match auth_required("LIVY_OAUTH_CLIENT_ID"@, env.client_id) {
                    Err(m) => Err(m),
                    Ok(client_id) => match auth_required("LIVY_OAUTH_CLIENT_SECRET"@, env.client_secret) {
                        Err(m) => Err(m),
                        Ok(client_secret) => match auth_required("LIVY_OAUTH_AUTH_URL"@, env.auth_url) {
                            Err(m) => Err(m),
                            Ok(auth_url) => match auth_required("LIVY_OAUTH_TOKEN_URL"@, env.token_url) {
                                Err(m) => Err(m),
                                Ok(token_url) => match auth_required("LIVY_OAUTH_REDIRECT_URL"@, env.redirect_url) {
                                    Err(m) => Err(m),
                                    Ok(redirect_url) => match auth_bool("LIVY_OAUTH_COOKIE_SECURE"@, env.cookie_secure) {
                                        Err(m) => Err(m),
                                        Ok(secure) => match auth_u64("LIVY_OAUTH_SESSION_TTL_SECS"@, env.session_ttl_secs) {
                                            Err(m) => Err(m),
                                            Ok(session_ttl) => match auth_u64("LIVY_OAUTH_STATE_TTL_SECS"@, env.state_ttl_secs) {
                                                Err(m) => Err(m),
                                                Ok(state_ttl) => match auth_u64("LIVY_OAUTH_INTROSPECTION_CACHE_SECS"@, env.introspection_cache_secs) {
                                                    Err(m) => Err(m),
                                                    Ok(cache_ttl) => match url_check("LIVY_OAUTH_AUTH_URL"@, auth_url_error(auth_url)) {
                                                        Err(m) => Err(m),
                                                        Ok(_) => match url_check("LIVY_OAUTH_TOKEN_URL"@, token_url_error(token_url)) {
                                                            Err(m) => Err(m),
                                                            Ok(_) => match url_check("LIVY_OAUTH_REDIRECT_URL"@, redirect_url_error(redirect_url)) {
                                                                Err(m) => Err(m),
                                                                Ok(_) => Ok(
                                                                    Some(
                                                                        AuthSettings {
                                                                            client_id,
                                                                            client_secret,
                                                                            auth_url,
                                                                            token_url,
                                                                            redirect_url,
                                                                            introspection_url: env_text(env.introspection_url),
                                                                            scopes: words(match env_text(env.scopes) {
                                                                                Some(v) => v,
                                                                                None => "openid profile email"@,
                                                                            }),
                                                                            cookie_name: match env_text(env.cookie_name) {
                                                                                Some(v) => v,
                                                                                None => "livy_resolver_session"@,
                                                                            },
                                                                            cookie_secure: match secure {
                                                                                Some(b) => b,
                                                                                None => false,
                                                                            },
                                                                            session_ttl_secs: or_default_u64(session_ttl, 28800),
                                                                            state_ttl_secs: or_default_u64(state_ttl, 600),
                                                                            introspection_cache_secs: or_default_u64(cache_ttl, 60),
                                                                        },
                                                                    ),
                                                                ),
                                                            },
                                                        },
                                                    },
                                                },
                                            },
                                        },
                                    },
                                },
                            },
                        },
                    },
                }
            }
        },
    }
}

/// The outcome of reading the settings, by content; errors by message.
pub open spec fn auth_outcome(r: Result<Option<AuthConfig>, FetchError>) -> Result<Option<AuthSettings>, Seq<char>> {
    match r {
        Ok(Some(c)) => Ok(Some(c.view())),
        Ok(None) => Ok(None),
        Err(FetchError::BadRequest(m)) => Err(m@),
        Err(_) => Err(Seq::empty()),
    }
}

/// A boolean variable, or the error naming it.
pub fn env_bool(name: &str, raw: &Option<String>) -> (r: Result<Option<bool>, FetchError>)
    ensures
        match r {
            Ok(b) => auth_bool(name@, *raw) == Ok::<Option<bool>, Seq<char>>(b),
            Err(FetchError::BadRequest(m)) => auth_bool(name@, *raw) == Err::<Option<bool>, Seq<char>>(m@),
            Err(_) => false,
        },
{
    match optional_value(raw) {
        None => Ok(None),
        Some(v) => match parse_bool_word(v.as_str()) {
            Some(b) => Ok(Some(b)),
            None => Err(FetchError::BadRequest(concat2(name, " must be true or false"))),
        },
    }
}

/// A number variable, or the error naming it.
pub fn env_u64(name: &str, raw: &Option<String>) -> (r: Result<Option<u64>, FetchError>)
    ensures
        match r {
            Ok(n) => auth_u64(name@, *raw) == Ok::<Option<u64>, Seq<char>>(n),
            Err(FetchError::BadRequest(m)) => auth_u64(name@, *raw) == Err::<Option<u64>, Seq<char>>(m@),
            Err(_) => false,
        },
{
    match optional_value(raw) {
        None => Ok(None),
        Some(v) => match parse_unsigned(v.as_str(), 10, 0xFFFF_FFFF_FFFF_FFFFu64) {
            Ok(n) => Ok(Some(n)),
            Err(k) => {
                let mut m = concat2(name, " must be a number: ");
                let text = int_error_message(k);
                push_str(&mut m, text.as_str());
                Err(FetchError::BadRequest(m))
            },
        },
    }
}

/// A required variable, or the error naming it.
pub fn required_env(name: &str, raw: &Option<String>) -> (r: Result<String, FetchError>)
    ensures
        match r {
            Ok(v) => auth_required(name@, *raw) == Ok::<Seq<char>, Seq<char>>(v@),
            Err(FetchError::BadRequest(m)) => auth_required(name@, *raw) == Err::<Seq<char>, Seq<char>>(m@),
            Err(_) => false,
        },
{
    match optional_value(raw) {
        Some(v) => Ok(v),
        None => Err(FetchError::BadRequest(concat2(name, " must be set"))),
    }
}

/// A variable's value, or `default` when it is unset or empty.
pub fn env_or(raw: &Option<String>, default: &str) -> (r: String)
    ensures
        r@ == match env_text(*raw) {
            Some(v) => v,
            None => default@,
        },
{
    value_or(raw, default)
}

/// The error for a URL that does not parse, naming the variable.
pub fn validate_url(name: &str, parse_error: Option<String>) -> (r: Result<(), FetchError>)
    ensures
        match r {
            Ok(_) => url_check(name@, opt_view(parse_error)) == Ok::<(), Seq<char>>(()),
            Err(FetchError::BadRequest(m)) => url_check(name@, opt_view(parse_error)) == Err::<(), Seq<char>>(m@),
            Err(_) => false,
        },
{
    match parse_error {
        Some(e) => {
            let mut m = concat2("invalid ", name);
            push_str(&mut m, ": ");
            push_str(&mut m, e.as_str());
            Err(FetchError::BadRequest(m))
        },
        None => Ok(()),
    }
}

impl AuthConfig {
    /// Reads the OAuth settings: `None` when OAuth is off, an error naming
    /// the missing or invalid variable.
    pub fn from_values(env: &AuthEnv) -> (r: Result<Option<AuthConfig>, FetchError>)
        ensures
            auth_outcome(r) == auth_settings(*env),
            r matches Err(e) ==> e is BadRequest,
    {
        let configured = env.client_id_present || env.auth_url_present || env.enabled_present;
        let flag = match env_bool("LIVY_OAUTH_ENABLED", &env.enabled) {
            Ok(f) => f,
            Err(e) => return Err(e),
        };
        let enabled = match flag {
            Some(b) => b,
            None => configured,
        };
        if !enabled {
            return Ok(None);
        }
        let client_id = match required_env("LIVY_OAUTH_CLIENT_ID", &env.client_id) {
            Ok(v) => v,
            Err(e) => return Err(e),
        };
        let client_secret = match required_env("LIVY_OAUTH_CLIENT_SECRET", &env.client_secret) {
            Ok(v) => v,
            Err(e) => return Err(e),
        };
        let auth_url = match required_env("LIVY_OAUTH_AUTH_URL", &env.auth_url) {
            Ok(v) => v,
            Err(e) => return Err(e),
        };
        let token_url = match required_env("LIVY_OAUTH_TOKEN_URL", &env.token_url) {
            Ok(v) => v,
            Err(e) => return Err(e),
        };
        let redirect_url = match required_env("LIVY_OAUTH_REDIRECT_URL", &env.redirect_url) {
            Ok(v) => v,
            Err(e) => return Err(e),
        };
        let introspection_url = optional_value(&env.introspection_url);
        let scope_text = env_or(&env.scopes, "openid profile email");
        let scopes = split_whitespace(scope_text.as_str());
        let cookie_name = env_or(&env.cookie_name, "livy_resolver_session");
        let cookie_secure = match env_bool("LIVY_OAUTH_COOKIE_SECURE", &env.cookie_secure) {
            Ok(Some(b)) => b,
            Ok(None) => false,
            Err(e) => return Err(e),
        };
        let session_ttl_secs = match env_u64("LIVY_OAUTH_SESSION_TTL_SECS", &env.session_ttl_secs) {
            Ok(Some(n)) => n,
            Ok(None) => 28800,
            Err(e) => return Err(e),
        };
        let state_ttl_secs = match env_u64("LIVY_OAUTH_STATE_TTL_SECS", &env.state_ttl_secs) {
            Ok(Some(n)) => n,
            Ok(None) => 600,
            Err(e) => return Err(e),
        };
        let introspection_cache_secs = match env_u64("LIVY_OAUTH_INTROSPECTION_CACHE_SECS", &env.introspection_cache_secs) {
            Ok(Some(n)) => n,
            Ok(None) => 60,
            Err(e) => return Err(e),
        };
        if let Err(e) = validate_url("LIVY_OAUTH_AUTH_URL", check_auth_url(auth_url.as_str())) {
            return Err(e);
        }
        if let Err(e) = validate_url("LIVY_OAUTH_TOKEN_URL", check_token_url(token_url.as_str())) {
            return Err(e);
        }
        if let Err(e) = validate_url("LIVY_OAUTH_REDIRECT_URL", check_redirect_url(redirect_url.as_str())) {
            return Err(e);
        }
        Ok(
            Some(
                AuthConfig {
                    client_id,
                    client_secret,
                    auth_url,
                    token_url,
                    redirect_url,
                    introspection_url,
                    scopes,
                    cookie_name,
                    cookie_secure,
                    session_ttl_secs,
                    state_ttl_secs,
                    introspection_cache_secs,
                },
            ),
        )
    }
}


// ---------------------------------------------------------------------
// Replies.

/// An HTTP reply: status, the headers the flows set, and a JSON body.
pub struct HttpReply {
    pub status: u16,
    pub location: Option<String>,
    pub set_cookie: Option<String>,
    pub www_authenticate: Option<String>,
    pub body: Option<JsonValue>,
}

/// The content of a reply.
pub struct ReplyView {
    pub status: u16,
    pub location: Option<Seq<char>>,
    pub set_cookie: Option<Seq<char>>,
    pub www_authenticate: Option<Seq<char>>,
    pub body: Option<Json>,
}

pub open spec fn opt_json(o: Option<JsonValue>) -> Option<Json> {
    match o {
        Some(v) => Some(v.deep()),
        None => None,
    }
}

impl HttpReply {
    pub open spec fn view(&self) -> ReplyView {
        ReplyView {
            status: self.status,
            location: opt_view(self.location),
            set_cookie: opt_view(self.set_cookie),
            www_authenticate: opt_view(self.www_authenticate),
            body: opt_json(self.body),
        }
    }
}

/// A reply with only a status and a JSON body.
pub open spec fn json_reply(status: u16, body: Json) -> ReplyView {
    ReplyView { status, location: None, set_cookie: None, www_authenticate: None, body: Some(body) }
}

/// A temporary redirect.
pub open spec fn redirect_reply(location: Seq<char>) -> ReplyView {
    ReplyView { status: 307, location: Some(location), set_cookie: None, www_authenticate: None, body: None }
}

/// The JSON body `{"error": message}`.
pub open spec fn error_json(message: Seq<char>) -> Json {
    Json::Object(seq![("error"@, Json::Str(message))])
}

fn error_body(message: String) -> (r: JsonValue)
    ensures
        r.deep() == error_json(message@),
{
    let ghost m = message@;
    let ms = vec![pair("error", JsonValue::Str(message))];
    assert(members_deep(ms@) =~= seq![("error"@, Json::Str(m))]);
    object(ms)
}

fn json_body_reply(status: u16, body: JsonValue) -> (r: HttpReply)
    ensures
        r@ == json_reply(status, body.deep()),
{
    HttpReply { status, location: None, set_cookie: None, www_authenticate: None, body: Some(body) }
}

/// A 400 reply for a malformed login callback.
pub fn bad_auth_request(message: &str) -> (r: HttpReply)
    ensures
        r@ == json_reply(400, error_json(message@)),
{
    json_body_reply(400, error_body(owned(message)))
}

/// What an unauthenticated MCP request gets.
#[derive(Clone, Copy, Debug, PartialEq, Eq, Structural)]
pub enum AuthDecision {
    RedirectToLogin,
    Unauthorized,
    Unavailable,
}

/// The login path that MCP requests are sent to.
pub open spec fn login_path() -> Seq<char> {
    "/auth/livy/login?next=/mcp"@
}

/// The reply of each decision: a redirect to login, a 401 with a bearer
/// challenge, or a 503.
pub open spec fn decision_reply_view(d: AuthDecision) -> ReplyView {
    match d {
        AuthDecision::RedirectToLogin => redirect_reply(login_path()),
        AuthDecision::Unauthorized => ReplyView {
            status: 401,
            location: None,
            set_cookie: None,
            www_authenticate: Some("Bearer realm=\"livy-resolver-mcp\""@),
            body: Some(
                Json::Object(
                    seq![("error"@, Json::Str("Livy login required"@)), ("login_url"@, Json::Str(login_path()))],
                ),
            ),
        },
        AuthDecision::Unavailable => json_reply(503, error_json("Livy token validation is unavailable"@)),
    }
}

/// The reply of a decision.
pub fn decision_reply(d: AuthDecision) -> (r: HttpReply)
    ensures
        r@ == decision_reply_view(d),
{
    match d {
        AuthDecision::RedirectToLogin => HttpReply {
            status: 307,
            location: Some(owned("/auth/livy/login?next=/mcp")),
            set_cookie: None,
            www_authenticate: None,
            body: None,
        },
        AuthDecision::Unauthorized => unauthorized_response(),
        AuthDecision::Unavailable => json_body_reply(503, error_body(owned("Livy token validation is unavailable"))),
    }
}

/// The 401 reply for MCP requests without a valid login.
pub fn unauthorized_response() -> (r: HttpReply)
    ensures
        r@ == decision_reply_view(AuthDecision::Unauthorized),
{
    let ms = vec![
        pair("error", JsonValue::string("Livy login required")),
        pair("login_url", JsonValue::string("/auth/livy/login?next=/mcp")),
    ];
    assert(members_deep(ms@) =~= seq![("error"@, Json::Str("Livy login required"@)), ("login_url"@, Json::Str(login_path()))]);
    HttpReply {
        status: 401,
        location: None,
        set_cookie: None,
        www_authenticate: Some(owned("Bearer realm=\"livy-resolver-mcp\"")),
        body: Some(object(ms)),
    }
}

// ---------------------------------------------------------------------
// Logins, sessions and the bearer cache. Times are milliseconds on a
// clock that never goes back.

/// A login waiting for its callback.
pub struct PendingLogin {
    pub pkce_verifier: String,
    pub next: String,
    pub expires_at: u128,
}

/// A logged-in browser session.
pub struct Session {
    pub subject: Option<String>,
    pub expires_at: u128,
}

/// The outcome of introspecting a bearer token, kept for a while.
pub struct BearerCacheEntry {
    pub active: bool,
    pub expires_at: u128,
}

impl Expires for PendingLogin {
    open spec fn expiry(&self) -> u128 {
        self.expires_at
    }

    fn expires_at(&self) -> (r: u128) {
        self.expires_at
    }
}

impl Expires for Session {
    open spec fn expiry(&self) -> u128 {
        self.expires_at
    }

    fn expires_at(&self) -> (r: u128) {
        self.expires_at
    }
}

impl Expires for BearerCacheEntry {
    open spec fn expiry(&self) -> u128 {
        self.expires_at
    }

    fn expires_at(&self) -> (r: u128) {
        self.expires_at
    }
}

/// The state of the login flows.
pub struct AuthStore {
    pub pending: Table<PendingLogin>,
    pub sessions: Table<Session>,
    pub bearer_cache: Table<BearerCacheEntry>,
}

pub open spec fn opt_str_view(o: Option<&str>) -> Option<Seq<char>> {
    match o {
        Some(s) => Some(s@),
        None => None,
    }
}

/// The session id that a Cookie header names.
pub open spec fn cookie_session_id(cookie_header: Option<Seq<char>>, cookie_name: Seq<char>) -> Option<Seq<char>> {
    match cookie_header {
        Some(h) => cookie_value(h, cookie_name),
        None => None,
    }
}

/// The live session that a Cookie header names, if any.
pub open spec fn live_session(
    sessions: Map<Seq<char>, Session>,
    cookie_header: Option<Seq<char>>,
    cookie_name: Seq<char>,
    now: u128,
) -> Option<Session> {
    match cookie_session_id(cookie_header, cookie_name) {
        Some(id) => if sessions.contains_key(id) && sessions[id].expires_at > now {
            Some(sessions[id])
        } else {
            None
        },
        None => None,
    }
}

/// The next step for an MCP request.
pub enum AuthStep {
    /// Let the request through.
    Allow,
    /// Answer with the decision's reply.
    Deny(AuthDecision),
    /// Ask the introspection endpoint about this bearer token, then call
    /// `record_introspection`.
    Introspect(String),
}

/// The content of a step.
pub enum AuthOutcome {
    Allow,
    Deny(AuthDecision),
    Introspect(Seq<char>),
}

impl AuthStep {
    pub open spec fn view(&self) -> AuthOutcome {
        match self {
            AuthStep::Allow => AuthOutcome::Allow,
            AuthStep::Deny(d) => AuthOutcome::Deny(*d),
            AuthStep::Introspect(t) => AuthOutcome::Introspect(t@),
        }
    }
}

/// How an MCP request is authorized: a live session cookie lets it
/// through; else a bearer token is judged by a fresh cached
/// introspection, or introspected, or refused when no introspection
/// endpoint is configured; else a GET is sent to login and anything else
/// is refused.
pub open spec fn authorize_outcome(
    sessions: Map<Seq<char>, Session>,
    cache: Map<Seq<char>, BearerCacheEntry>,
    now: u128,
    is_get: bool,
    cookie_header: Option<Seq<char>>,
    cookie_name: Seq<char>,
    authorization: Option<Seq<char>>,
    introspection_configured: bool,
) -> AuthOutcome {
    if live_session(sessions, cookie_header, cookie_name, now) is Some {
        AuthOutcome::Allow
    } else {
        match match authorization {
            Some(v) => bearer_of(v),
            None => None,
        } {
            Some(token) => if !introspection_configured {
                AuthOutcome::Deny(AuthDecision::Unauthorized)
            } else if cache.contains_key(token) && cache[token].expires_at > now {
                if cache[token].active {
                    AuthOutcome::Allow
                } else {
                    AuthOutcome::Deny(AuthDecision::Unauthorized)
                }
            } else {
                AuthOutcome::Introspect(token)
            },
            None => if is_get {
                AuthOutcome::Deny(AuthDecision::RedirectToLogin)
            } else {
                AuthOutcome::Deny(AuthDecision::Unauthorized)
            },
        }
    }
}

/// The query of the login callback.
pub struct CallbackQuery {
    pub code: Option<String>,
    pub state: Option<String>,
    pub error: Option<String>,
    pub error_description: Option<String>,
}

/// The next step of a login callback.
pub enum CallbackStep {
    /// Answer with this reply.
    Reply(HttpReply),
    /// Exchange the code for a token with this verifier; after login, go
    /// to `next`.
    Exchange { code: String, pkce_verifier: String, next: String },
}

/// The content of a callback step.
pub enum CallbackOutcome {
    Reply(ReplyView),
    Exchange { code: Seq<char>, pkce_verifier: Seq<char>, next: Seq<char> },
}

impl CallbackStep {
    pub open spec fn view(&self) -> CallbackOutcome {
        match self {
            CallbackStep::Reply(reply) => CallbackOutcome::Reply(reply@),
            CallbackStep::Exchange { code, pkce_verifier, next } => CallbackOutcome::Exchange {
                code: code@,
                pkce_verifier: pkce_verifier@,
                next: next@,
            },
        }
    }
}

/// The pending logins after a callback: a callback that names a state,
/// with a code and no error, uses the state up.
pub open spec fn callback_pending(pending: Map<Seq<char>, PendingLogin>, query: CallbackQuery) -> Map<Seq<char>, PendingLogin> {
    match query.error {
        Some(_) => pending,
        None => match query.code {
            None => pending,
            Some(_) => match query.state {
                None => pending,
                Some(state) => pending.remove(state@),
            },
        },
    }
}

/// What a callback leads to: an OAuth error gives 401; a missing code or
/// state gives 400; an unknown or expired state gives 400; else the code
/// is to be exchanged with the state's verifier.
pub open spec fn callback_outcome(pending: Map<Seq<char>, PendingLogin>, query: CallbackQuery, now: u128) -> CallbackOutcome {
    match query.error {
        Some(e) => CallbackOutcome::Reply(
            json_reply(
                401,
                callback_error_json(e@, match query.error_description {
                    Some(d) => d@,
                    None => Seq::empty(),
                }),
            ),
        ),
        None => match query.code {
            None => CallbackOutcome::Reply(json_reply(400, error_json("missing OAuth code"@))),
            Some(code) => match query.state {
                None => CallbackOutcome::Reply(json_reply(400, error_json("missing OAuth state"@))),
                Some(state) => if !pending.contains_key(state@) {
                    CallbackOutcome::Reply(json_reply(400, error_json("invalid OAuth state"@)))
                } else if pending[state@].expires_at <= now {
                    CallbackOutcome::Reply(json_reply(400, error_json("expired OAuth state"@)))
                } else {
                    CallbackOutcome::Exchange {
                        code: code@,
                        pkce_verifier: pending[state@].pkce_verifier@,
                        next: pending[state@].next@,
                    }
                },
            },
        },
    }
}

/// The 401 body for a callback that reports an OAuth error.
pub open spec fn callback_error_json(error: Seq<char>, description: Seq<char>) -> Json {
    Json::Object(seq![("error"@, Json::Str(error)), ("error_description"@, Json::Str(description))])
}

/// The subject of a session as JSON.
pub open spec fn subject_json(o: Option<Seq<char>>) -> Json {
    match o {
        Some(t) => Json::Str(t),
        None => Json::Null,
    }
}

/// The lifetime of a new session: the token's, capped by the session
/// lifetime.
pub open spec fn login_ttl(token_ttl_ms: Option<u128>, session_ttl_ms: u128) -> u128 {
    match token_ttl_ms {
        Some(t) => if t < session_ttl_ms {
            t
        } else {
            session_ttl_ms
        },
        None => session_ttl_ms,
    }
}

/// A login completed with session id `id`: a 48-character alphanumeric
/// id, stored with the subject and expiry and nothing else changed, and a
/// redirect to `next` that sets the session cookie.
pub open spec fn login_completed(
    before: Map<Seq<char>, Session>,
    after: Map<Seq<char>, Session>,
    reply: ReplyView,
    id: Seq<char>,
    subject: Seq<char>,
    expires_at: int,
    ttl_secs: nat,
    next: Seq<char>,
    cookie_name: Seq<char>,
    cookie_secure: bool,
) -> bool {
    &&& id.len() == 48
    &&& forall|i: int| 0 <= i < 48 ==> is_alphanumeric_ascii(#[trigger] id[i])
    &&& after.contains_key(id)
    &&& after[id].subject matches Some(s) && s@ == subject
    &&& after[id].expires_at == expires_at
    &&& after.remove(id) == before.remove(id)
    &&& reply == (ReplyView {
        status: 307,
        location: Some(next),
        set_cookie: Some(session_cookie_text(cookie_name, id, ttl_secs, cookie_secure)),
        www_authenticate: None,
        body: None,
    })
}

/// The sessions after a logout: the one that the Cookie header names is
/// gone.
pub open spec fn after_logout(
    sessions: Map<Seq<char>, Session>,
    cookie_header: Option<Seq<char>>,
    cookie_name: Seq<char>,
) -> Map<Seq<char>, Session> {
    match cookie_session_id(cookie_header, cookie_name) {
        Some(id) => sessions.remove(id),
        None => sessions,
    }
}

/// A login waiting under CSRF state `state` with PKCE verifier
/// `verifier`: pending logins pruned at `now`, the state remembered with
/// the verifier, the local path to return to and its expiry, and a
/// temporary redirect to the provider's authorization URL built from the
/// settings, the verifier and the state.
pub open spec fn pending_login_at(
    settings: AuthSettings,
    before: Map<Seq<char>, PendingLogin>,
    after: Map<Seq<char>, PendingLogin>,
    reply: ReplyView,
    now: u128,
    expires_at: int,
    next: Option<Seq<char>>,
    state: Seq<char>,
    verifier: Seq<char>,
) -> bool {
    &&& state.len() == 22
    &&& verifier.len() == 43
    &&& after.contains_key(state)
    &&& after[state].pkce_verifier@ == verifier
    &&& after[state].next@ == next_target(next)
    &&& after[state].expires_at == expires_at
    &&& after.remove(state) == unexpired(before, now).remove(state)
    &&& reply.status == 307
    &&& reply.location == Some(
        authorization_url_text(
            settings.auth_url,
            settings.client_id,
            settings.redirect_url,
            settings.scopes,
            verifier,
            state,
        ),
    )
    &&& reply.set_cookie is None
    &&& reply.www_authenticate is None
    &&& reply.body is None
}

/// A login started at `now`: some state and verifier are pending.
pub open spec fn login_started(
    settings: AuthSettings,
    before: Map<Seq<char>, PendingLogin>,
    after: Map<Seq<char>, PendingLogin>,
    reply: ReplyView,
    now: u128,
    expires_at: int,
    next: Option<Seq<char>>,
) -> bool {
    exists|state: Seq<char>, verifier: Seq<char>|
        #[trigger] pending_login_at(settings, before, after, reply, now, expires_at, next, state, verifier)
}

impl AuthStore {
    /// No logins, sessions or cached tokens.
    pub fn new() -> (s: Self)
        ensures
            s.pending@ == Map::<Seq<char>, PendingLogin>::empty(),
            s.sessions@ == Map::<Seq<char>, Session>::empty(),
            s.bearer_cache@ == Map::<Seq<char>, BearerCacheEntry>::empty(),
    {
        AuthStore { pending: Table::new(), sessions: Table::new(), bearer_cache: Table::new() }
    }

    /// Drops the logins, sessions and cached tokens that expired by `now`.
    pub fn prune_expired(&mut self, now: u128)
        ensures
            final(self).pending@ == unexpired(old(self).pending@, now),
            final(self).sessions@ == unexpired(old(self).sessions@, now),
            final(self).bearer_cache@ == unexpired(old(self).bearer_cache@, now),
    {
        self.pending.retain_unexpired(now);
        self.sessions.retain_unexpired(now);
        self.bearer_cache.retain_unexpired(now);
    }

    /// The live session that a Cookie header names: its subject and expiry.
    pub fn session_from_cookie(&self, cookie_header: Option<&str>, cookie_name: &str, now: u128) -> (r: Option<Session>)
        ensures
            match live_session(self.sessions@, opt_str_view(cookie_header), cookie_name@, now) {
                Some(s) => r matches Some(t) && opt_view(t.subject) == opt_view(s.subject) && t.expires_at == s.expires_at,
                None => r is None,
            },
    {
        let header = match cookie_header {
            Some(h) => h,
            None => return None,
        };
        let id = match parse_cookie(header, cookie_name) {
            Some(id) => id,
            None => return None,
        };
        match self.sessions.get(id.as_str()) {
            Some(session) => {
                if session.expires_at > now {
                    Some(Session { subject: session.subject.clone(), expires_at: session.expires_at })
                } else {
                    None
                }
            },
            None => None,
        }
    }

    /// Decides an MCP request after dropping expired state.
    pub fn authorize(
        &mut self,
        now: u128,
        is_get: bool,
        cookie_header: Option<&str>,
        authorization: Option<&str>,
        cookie_name: &str,
        introspection_configured: bool,
    ) -> (r: AuthStep)
        ensures
            final(self).pending@ == unexpired(old(self).pending@, now),
            final(self).sessions@ == unexpired(old(self).sessions@, now),
            final(self).bearer_cache@ == unexpired(old(self).bearer_cache@, now),
            r@ == authorize_outcome(
                final(self).sessions@,
                final(self).bearer_cache@,
                now,
                is_get,
                opt_str_view(cookie_header),
                cookie_name@,
                opt_str_view(authorization),
                introspection_configured,
            ),
    {
        self.prune_expired(now);
        if self.session_from_cookie(cookie_header, cookie_name, now).is_some() {
            return AuthStep::Allow;
        }
        match bearer_token(authorization) {
            Some(token) => {
                if !introspection_configured {
                    return AuthStep::Deny(AuthDecision::Unauthorized);
                }
                match self.bearer_cache.get(token.as_str()) {
                    Some(entry) => {
                        if entry.expires_at > now {
                            if entry.active {
                                return AuthStep::Allow;
                            } else {
                                return AuthStep::Deny(AuthDecision::Unauthorized);
                            }
                        }
                    },
                    None => {},
                }
                AuthStep::Introspect(token)
            },
            None => {
                if is_get {
                    AuthStep::Deny(AuthDecision::RedirectToLogin)
                } else {
                    AuthStep::Deny(AuthDecision::Unauthorized)
                }
            },
        }
    }

    /// Records what introspection said of a bearer token (`None` when the
    /// endpoint could not be asked) and decides the request: an answer is
    /// cached until `now + cache_ttl_ms`; a failure is not cached.
    pub fn record_introspection(&mut self, token: String, active: Option<bool>, now: u128, cache_ttl_ms: u128) -> (r: AuthStep)
        requires
            now + cache_ttl_ms <= u128::MAX,
        ensures
            final(self).pending@ == old(self).pending@,
            final(self).sessions@ == old(self).sessions@,
            match active {
                Some(a) => {
                    &&& final(self).bearer_cache@.contains_key(token@)
                    &&& final(self).bearer_cache@[token@].active == a
                    &&& final(self).bearer_cache@[token@].expires_at == now + cache_ttl_ms
                    &&& final(self).bearer_cache@.remove(token@) == old(self).bearer_cache@.remove(token@)
                    &&& r@ == if a {
                        AuthOutcome::Allow
                    } else {
                        AuthOutcome::Deny(AuthDecision::Unauthorized)
                    }
                },
                None => {
                    &&& final(self).bearer_cache@ == old(self).bearer_cache@
                    &&& r@ == AuthOutcome::Deny(AuthDecision::Unavailable)
                },
            },
    {
        match active {
            Some(a) => {
                let ghost t = token@;
                self.bearer_cache.insert(token, BearerCacheEntry { active: a, expires_at: now + cache_ttl_ms });
                assert(self.bearer_cache@.remove(t) =~= old(self).bearer_cache@.remove(t));
                if a {
                    AuthStep::Allow
                } else {
                    AuthStep::Deny(AuthDecision::Unauthorized)
                }
            },
            None => AuthStep::Deny(AuthDecision::Unavailable),
        }
    }

    /// Starts a login: drops expired state and remembers the CSRF state
    /// with its PKCE verifier and the local path to return to, until
    /// `now + state_ttl_ms`.
    pub fn begin_login(
        &mut self,
        now: u128,
        csrf_state: String,
        pkce_verifier: String,
        next: Option<&str>,
        state_ttl_ms: u128,
    )
        requires
            now + state_ttl_ms <= u128::MAX,
        ensures
            final(self).sessions@ == unexpired(old(self).sessions@, now),
            final(self).bearer_cache@ == unexpired(old(self).bearer_cache@, now),
            final(self).pending@.contains_key(csrf_state@),
            final(self).pending@[csrf_state@].pkce_verifier@ == pkce_verifier@,
            final(self).pending@[csrf_state@].next@ == next_target(opt_str_view(next)),
            final(self).pending@[csrf_state@].expires_at == now + state_ttl_ms,
            final(self).pending@.remove(csrf_state@) == unexpired(old(self).pending@, now).remove(csrf_state@),
    {
        self.prune_expired(now);
        let ghost pruned = self.pending@;
        let next = sanitize_next(next);
        let ghost k = csrf_state@;
        self.pending.insert(csrf_state, PendingLogin { pkce_verifier, next, expires_at: now + state_ttl_ms });
        assert(self.pending@.remove(k) =~= pruned.remove(k));
    }

    /// Starts a login: drops expired state, draws a PKCE verifier, and
    /// remembers the authorization request's CSRF state with the verifier
    /// and the local path to return to, until the state lifetime passes;
    /// the browser is sent to the authorization URL.
    pub fn login(&mut self, now: u128, config: &AuthConfig, next: Option<&str>) -> (r: HttpReply)
        requires
            now + config.state_ttl_secs * 1000 <= u128::MAX,
            auth_url_error(config.auth_url@) is None,
            redirect_url_error(config.redirect_url@) is None,
        ensures
            login_started(
                config@,
                old(self).pending@,
                final(self).pending@,
                r@,
                now,
                now + config.state_ttl_secs * 1000,
                opt_str_view(next),
            ),
            final(self).sessions@ == unexpired(old(self).sessions@, now),
            final(self).bearer_cache@ == unexpired(old(self).bearer_cache@, now),
    {
        let verifier = new_pkce_verifier();
        let (url, state) = authorization_url(
            config.auth_url.as_str(),
            config.client_id.as_str(),
            config.redirect_url.as_str(),
            &config.scopes,
            verifier.as_str(),
        );
        let ttl: u128 = config.state_ttl_secs as u128 * 1000;
        let ghost s = state@;
        let ghost v = verifier@;
        self.begin_login(now, state, verifier, next, ttl);
        let r = HttpReply { status: 307, location: Some(url), set_cookie: None, www_authenticate: None, body: None };
        assert(pending_login_at(config@, old(self).pending@, self.pending@, r@, now, now + ttl, opt_str_view(next), s, v));
        r
    }

    /// Starts a login when the configuration allows it: nothing when its
    /// authorization or redirect URL does not parse, or the state would
    /// expire past the clock's range.
    pub fn start_login(&mut self, now: u128, config: &AuthConfig, next: Option<&str>) -> (r: Option<HttpReply>)
        ensures
            r is None <==> (auth_url_error(config.auth_url@) is Some || redirect_url_error(config.redirect_url@) is Some
                || now + config.state_ttl_secs * 1000 > u128::MAX),
            r is None ==> *final(self) == *old(self),
            r matches Some(reply) ==> {
                &&& login_started(
                    config@,
                    old(self).pending@,
                    final(self).pending@,
                    reply@,
                    now,
                    now + config.state_ttl_secs * 1000,
                    opt_str_view(next),
                )
                &&& final(self).sessions@ == unexpired(old(self).sessions@, now)
                &&& final(self).bearer_cache@ == unexpired(old(self).bearer_cache@, now)
            },
    {
        if check_auth_url(config.auth_url.as_str()).is_some() || check_redirect_url(config.redirect_url.as_str()).is_some() {
            return None;
        }
        let ttl: u128 = config.state_ttl_secs as u128 * 1000;
        if now > u128::MAX - ttl {
            return None;
        }
        Some(self.login(now, config, next))
    }

    /// Checks a login callback: an OAuth error gives 401; a missing code or
    /// state gives 400; the state is then used up, and an unknown or
    /// expired state gives 400; else the code is to be exchanged.
    pub fn begin_callback(&mut self, query: CallbackQuery, now: u128) -> (r: CallbackStep)
        ensures
            final(self).sessions@ == old(self).sessions@,
            final(self).bearer_cache@ == old(self).bearer_cache@,
            final(self).pending@ == callback_pending(old(self).pending@, query),
            r@ == callback_outcome(old(self).pending@, query, now),
    {
        if let Some(error) = query.error {
            let description = match query.error_description {
                Some(d) => d,
                None => String::new(),
            };
            let ghost e = error@;
            let ghost d = description@;
            let ms = vec![pair("error", JsonValue::Str(error)), pair("error_description", JsonValue::Str(description))];
            assert(members_deep(ms@) =~= seq![("error"@, Json::Str(e)), ("error_description"@, Json::Str(d))]);
            return CallbackStep::Reply(json_body_reply(401, object(ms)));
        }
        let code = match query.code {
            Some(c) => c,
            None => return CallbackStep::Reply(bad_auth_request("missing OAuth code")),
        };
        let state = match query.state {
            Some(s) => s,
            None => return CallbackStep::Reply(bad_auth_request("missing OAuth state")),
        };
        let pending = match self.pending.remove(state.as_str()) {
            Some(p) => p,
            None => return CallbackStep::Reply(bad_auth_request("invalid OAuth state")),
        };
        if pending.expires_at <= now {
            return CallbackStep::Reply(bad_auth_request("expired OAuth state"));
        }
        CallbackStep::Exchange { code, pkce_verifier: pending.pkce_verifier, next: pending.next }
    }

    /// Ends a login: stores a session for `subject` under a fresh random
    /// 48-character id, for the token's lifetime but no longer than the
    /// session lifetime, and redirects to `next` with the session cookie.
    pub fn complete_login(
        &mut self,
        subject: String,
        token_ttl_ms: Option<u128>,
        next: &str,
        now: u128,
        session_ttl_ms: u128,
        cookie_name: &str,
        cookie_secure: bool,
    ) -> (r: HttpReply)
        requires
            now + session_ttl_ms <= u128::MAX,
        ensures
            final(self).pending@ == old(self).pending@,
            final(self).bearer_cache@ == old(self).bearer_cache@,
            exists|id: Seq<char>| #[trigger] login_completed(
                old(self).sessions@,
                final(self).sessions@,
                r@,
                id,
                subject@,
                now + login_ttl(token_ttl_ms, session_ttl_ms),
                (login_ttl(token_ttl_ms, session_ttl_ms) / 1000) as nat,
                next@,
                cookie_name@,
                cookie_secure,
            ),
    {
        let session_id = random_token(48);
        let ghost subject_text = subject@;
        let ttl: u128 = match token_ttl_ms {
            Some(t) => if t < session_ttl_ms {
                t
            } else {
                session_ttl_ms
            },
            None => session_ttl_ms,
        };
        let ghost id = session_id@;
        assert(ttl == login_ttl(token_ttl_ms, session_ttl_ms));
        let cookie = session_cookie(cookie_name, session_id.as_str(), ttl / 1000, cookie_secure);
        self.sessions.insert(session_id, Session { subject: Some(subject), expires_at: now + ttl });
        assert(self.sessions@.remove(id) =~= old(self).sessions@.remove(id));
        let r = HttpReply {
            status: 307,
            location: Some(owned(next)),
            set_cookie: Some(cookie),
            www_authenticate: None,
            body: None,
        };
        assert(login_completed(
            old(self).sessions@,
            self.sessions@,
            r@,
            id,
            subject_text,
            now + ttl,
            (ttl / 1000) as nat,
            next@,
            cookie_name@,
            cookie_secure,
        ));
        r
    }

    /// Ends the session that the Cookie header names, and expires the
    /// cookie.
    pub fn logout(&mut self, cookie_header: Option<&str>, cookie_name: &str, cookie_secure: bool) -> (r: HttpReply)
        ensures
            final(self).pending@ == old(self).pending@,
            final(self).bearer_cache@ == old(self).bearer_cache@,
            final(self).sessions@ == after_logout(old(self).sessions@, opt_str_view(cookie_header), cookie_name@),
            r@ == (ReplyView {
                status: 200,
                location: None,
                set_cookie: Some(expired_cookie_text(cookie_name@, cookie_secure)),
                www_authenticate: None,
                body: Some(Json::Object(seq![("ok"@, Json::Bool(true))])),
            }),
    {
        if let Some(header) = cookie_header {
            if let Some(id) = parse_cookie(header, cookie_name) {
                let _ = self.sessions.remove(id.as_str());
            }
        }
        let ms = vec![pair("ok", JsonValue::Bool(true))];
        assert(members_deep(ms@) =~= seq![("ok"@, Json::Bool(true))]);
        HttpReply {
            status: 200,
            location: None,
            set_cookie: Some(expired_session_cookie(cookie_name, cookie_secure)),
            www_authenticate: None,
            body: Some(object(ms)),
        }
    }

    /// Who is logged in: the subject of the live session that the Cookie
    /// header names, or 401.
    pub fn me(&self, cookie_header: Option<&str>, cookie_name: &str, now: u128) -> (r: HttpReply)
        ensures
            r@ == match live_session(self.sessions@, opt_str_view(cookie_header), cookie_name@, now) {
                Some(s) => json_reply(
                    200,
                    Json::Object(
                        seq![
                            ("authenticated"@, Json::Bool(true)),
                            ("subject"@, subject_json(opt_view(s.subject))),
                        ],
                    ),
                ),
                None => json_reply(401, Json::Object(seq![("authenticated"@, Json::Bool(false))])),
            },
    {
        match self.session_from_cookie(cookie_header, cookie_name, now) {
            Some(session) => {
                let subject = match session.subject {
                    Some(t) => JsonValue::Str(t),
                    None => JsonValue::Null,
                };
                let ghost sv = subject.deep();
                let ms = vec![pair("authenticated", JsonValue::Bool(true)), pair("subject", subject)];
                assert(members_deep(ms@) =~= seq![("authenticated"@, Json::Bool(true)), ("subject"@, sv)]);
                json_body_reply(200, object(ms))
            },
            None => {
                let ms = vec![pair("authenticated", JsonValue::Bool(false))];
                assert(members_deep(ms@) =~= seq![("authenticated"@, Json::Bool(false))]);
                json_body_reply(401, object(ms))
            },
        }
    }
}

/// The 502 reply when the code cannot be exchanged for a token.
pub fn token_exchange_failed(message: &str) -> (r: HttpReply)
    ensures
        r@ == json_reply(502, error_json("Livy token exchange failed: "@ + message@)),
{
    json_body_reply(502, error_body(concat2("Livy token exchange failed: ", message)))
}

/// The 502 reply when the new token cannot be checked.
pub fn token_validation_failed(message: &str) -> (r: HttpReply)
    ensures
        r@ == json_reply(502, error_json("Livy token validation failed: "@ + message@)),
{
    json_body_reply(502, error_body(concat2("Livy token validation failed: ", message)))
}

/// The 401 reply when the new token is not active.
pub fn token_not_active() -> (r: HttpReply)
    ensures
        r@ == json_reply(401, error_json("Livy token is not active"@)),
{
    json_body_reply(401, error_body(owned("Livy token is not active")))
}

/// The subject that an introspection answer names: none for an inactive
/// token, else `sub`, `username` or `email`, in that order, else a generic
/// user.
pub open spec fn introspected_subject(
    active: bool,
    sub: Option<Seq<char>>,
    username: Option<Seq<char>>,
    email: Option<Seq<char>>,
) -> Option<Seq<char>> {
    if !active {
        None
    } else if sub is Some {
        sub
    } else if username is Some {
        username
    } else if email is Some {
        email
    } else {
        Some("livy-oauth-user"@)
    }
}

/// The subject of an introspected token: none for an inactive token; for
/// an active one its `sub` when the answer has one, whatever else it
/// holds; else its `username`; else its `email`; else the default
/// subject.
pub proof fn lemma_subject_precedence(
    active: bool,
    sub: Option<Seq<char>>,
    username: Option<Seq<char>>,
    email: Option<Seq<char>>,
)
    ensures
        !active ==> introspected_subject(active, sub, username, email) is None,
        active && sub is Some ==> introspected_subject(active, sub, username, email) == sub,
        active && sub is None && username is Some ==> introspected_subject(active, sub, username, email) == username,
        active && sub is None && username is None && email is Some ==> introspected_subject(
            active,
            sub,
            username,
            email,
        ) == email,
        active && sub is None && username is None && email is None ==> introspected_subject(
            active,
            sub,
            username,
            email,
        ) == Some("livy-oauth-user"@),
        forall|u2: Option<Seq<char>>, e2: Option<Seq<char>>|
            sub is Some ==> #[trigger] introspected_subject(active, sub, u2, e2) == introspected_subject(
                active,
                sub,
                username,
                email,
            ),
{
}

/// The subject that an introspection answer names.
pub fn introspection_subject(
    active: bool,
    sub: Option<String>,
    username: Option<String>,
    email: Option<String>,
) -> (r: Option<String>)
    ensures
        opt_view(r) == introspected_subject(active, opt_view(sub), opt_view(username), opt_view(email)),
{
    if !active {
        return None;
    }
    match sub {
        Some(s) => Some(s),
        None => match username {
            Some(u) => Some(u),
            None => match email {
                Some(e) => Some(e),
                None => Some(owned("livy-oauth-user")),
            },
        },
    }
}

/// The subject of a token when no introspection endpoint is configured.
pub fn default_subject() -> (r: String)
    ensures
        r@ == "livy-oauth-user"@,
{
    owned("livy-oauth-user")
}

// ---------------------------------------------------------------------
// Laws of the login flows.

/// A cookie name that a Cookie header gives back: not empty, without `=`,
/// `;` or whitespace.
pub open spec fn plain_cookie_name(name: Seq<char>) -> bool {
    &&& name.len() > 0
    &&& forall|i: int| 0 <= i < name.len() ==> #[trigger] name[i] != '=' && name[i] != ';' && !is_ws(name[i])
}

/// The Cookie header that a browser sends back for a session cookie.
pub open spec fn session_cookie_header(name: Seq<char>, id: Seq<char>) -> Seq<char> {
    name + "="@ + id
}

/// A cookie value that a Cookie header gives back: not empty, without
/// `;`, and without whitespace at either end.
pub open spec fn plain_cookie_value(id: Seq<char>) -> bool {
    &&& id.len() > 0
    &&& forall|i: int| 0 <= i < id.len() ==> #[trigger] id[i] != ';'
    &&& !is_ws(id[0])
    &&& !is_ws(id[id.len() - 1])
}

proof fn lemma_cookie_pair(name: Seq<char>, id: Seq<char>)
    requires
        plain_cookie_name(name),
        plain_cookie_value(id),
    ensures
        cookie_in_part(session_cookie_header(name, id), name) == Some(id),
        forall|i: int| 0 <= i < session_cookie_header(name, id).len() ==> #[trigger] session_cookie_header(name, id)[i] != ';',
{
    reveal_strlit("=");
    let h = session_cookie_header(name, id);
    let n = name.len() as int;
    assert(h.len() == n + 1 + id.len());
    assert(forall|i: int| 0 <= i < n ==> h[i] == name[i]);
    assert(h[n] == '=');
    assert(forall|i: int| n < i < h.len() ==> h[i] == id[i - n - 1]);
    assert forall|i: int| 0 <= i < h.len() implies h[i] != ';' by {
        if i < n {
            assert(name[i] != ';');
        } else if i > n {
            assert(id[i - n - 1] != ';');
        }
    }
    assert(!is_ws(h[0]));
    assert(trim_start(h) == h);
    assert(h.last() == id[id.len() - 1]);
    assert(trim_end(h) == h);
    assert(trimmed(h) == h);
    assert(forall|i: int| 0 <= i < n ==> h[i] != '=');
    lemma_index_of(h, '=', n);
    assert(h.take(n) =~= name);
    assert(h.skip(n + 1) =~= id);
}

/// The Cookie header sent back for a session gives the session id.
pub proof fn lemma_cookie_round_trip(name: Seq<char>, id: Seq<char>)
    requires
        plain_cookie_name(name),
        plain_cookie_value(id),
    ensures
        cookie_value(session_cookie_header(name, id), name) == Some(id),
{
    let h = session_cookie_header(name, id);
    lemma_cookie_pair(name, id);
    lemma_index_of(h, ';', h.len() as int);
    assert(split_on(h, ';') == seq![h]);
    assert(seq![h].drop_first() =~= Seq::<Seq<char>>::empty());
}

/// The Set-Cookie text of a session, read as a Cookie header, gives the
/// session id back: its first attribute is the session's pair.
pub proof fn lemma_set_cookie_round_trip(name: Seq<char>, id: Seq<char>, ttl_secs: nat, secure: bool)
    requires
        plain_cookie_name(name),
        plain_cookie_value(id),
    ensures
        cookie_value(session_cookie_text(name, id, ttl_secs, secure), name) == Some(id),
{
    reveal_strlit("; Path=/; Max-Age=");
    let p = session_cookie_header(name, id);
    let h = session_cookie_text(name, id, ttl_secs, secure);
    lemma_cookie_pair(name, id);
    let k = p.len() as int;
    assert(h =~= p + (h.skip(k)));
    assert(h.take(k) =~= p);
    assert(h[k] == ';');
    assert(forall|i: int| 0 <= i < k ==> h[i] == p[i]);
    lemma_index_of(h, ';', k);
    let parts = split_on(h, ';');
    assert(parts[0] == p);
}

/// Splitting at a first `;` gives the text before it, then the pieces of
/// the rest.
proof fn lemma_split_cons(a: Seq<char>, b: Seq<char>)
    requires
        forall|i: int| 0 <= i < a.len() ==> #[trigger] a[i] != ';',
    ensures
        split_on(a + seq![';'] + b, ';') == seq![a] + split_on(b, ';'),
{
    let h = a + seq![';'] + b;
    assert(forall|i: int| 0 <= i < a.len() ==> h[i] == a[i]);
    lemma_index_of(h, ';', a.len() as int);
    assert(h.take(a.len() as int) =~= a);
    assert(h.skip(a.len() as int + 1) =~= b);
}

/// The first part that names a cookie decides; otherwise the rest does.
proof fn lemma_find_cons(p: Seq<char>, rest: Seq<Seq<char>>, name: Seq<char>)
    ensures
        find_cookie(seq![p] + rest, name) == match cookie_in_part(p, name) {
            Some(v) => Some(v),
            None => find_cookie(rest, name),
        },
{
    assert((seq![p] + rest).drop_first() =~= rest);
}

/// An attribute written as a space, then `key`, then `=` and a value or
/// nothing, names no cookie but one called `key`.
proof fn lemma_attribute_part(key: Seq<char>, value: Seq<char>, with_value: bool, name: Seq<char>)
    requires
        key.len() > 0,
        !is_ws(key[0]),
        forall|i: int| 0 <= i < key.len() ==> #[trigger] key[i] != '=',
        with_value ==> value.len() > 0 && !is_ws(value[value.len() - 1]),
        !with_value ==> !is_ws(key[key.len() - 1]),
        name != key,
    ensures
        cookie_in_part(
            seq![' '] + key + if with_value {
                seq!['='] + value
            } else {
                Seq::empty()
            },
            name,
        ) is None,
{
    let body = key + if with_value {
        seq!['='] + value
    } else {
        Seq::empty()
    };
    let part = seq![' '] + body;
    let tail = if with_value {
        seq!['='] + value
    } else {
        Seq::<char>::empty()
    };
    assert(seq![' '] + key + tail =~= part);
    assert(is_ws(' '));
    assert(part[0] == ' ');
    assert(part.drop_first() =~= body);
    assert(body[0] == key[0]);
    assert(trim_start(body) == body);
    assert(trim_start(part) == body);
    assert(body.last() == if with_value {
        value[value.len() - 1]
    } else {
        key[key.len() - 1]
    });
    assert(trim_end(body) == body);
    assert(trimmed(part) == body);
    assert(forall|i: int| 0 <= i < key.len() ==> body[i] == key[i]);
    if with_value {
        assert(body[key.len() as int] == '=');
        lemma_index_of(body, '=', key.len() as int);
        assert(body.take(key.len() as int) =~= key);
        assert(cookie_in_part(part, name) is None);
    } else {
        assert(body =~= key);
        lemma_index_of(body, '=', key.len() as int);
        assert(index_of(trimmed(part), '=') is None);
    }
}

/// A cookie name that no attribute of the session cookie carries.
pub open spec fn not_an_attribute(name: Seq<char>) -> bool {
    name != "Path"@ && name != "Max-Age"@ && name != "SameSite"@ && name != "HttpOnly"@ && name != "Secure"@
}

/// The Set-Cookie text that ends a session, read as a Cookie header, gives
/// no session id for the cookie's name.
pub proof fn lemma_expired_cookie_empty(name: Seq<char>, secure: bool)
    requires
        plain_cookie_name(name),
        not_an_attribute(name),
    ensures
        cookie_value(expired_cookie_text(name, secure), name) is None,
{
    reveal_strlit("=; Path=/; Max-Age=0; HttpOnly; SameSite=Lax");
    reveal_strlit("; Secure");
    reveal_strlit("");
    reveal_strlit("Path");
    reveal_strlit("Max-Age");
    reveal_strlit("SameSite");
    reveal_strlit("HttpOnly");
    reveal_strlit("Secure");
    let path = "Path"@;
    let max_age = "Max-Age"@;
    let same_site = "SameSite"@;
    let http_only = "HttpOnly"@;
    let sec = "Secure"@;
    let first = name + seq!['='];
    let p1 = seq![' '] + path + (seq!['='] + seq!['/']);
    let p2 = seq![' '] + max_age + (seq!['='] + seq!['0']);
    let p3 = seq![' '] + http_only + Seq::<char>::empty();
    let p4 = seq![' '] + same_site + (seq!['='] + "Lax"@);
    let p5 = seq![' '] + sec + Seq::<char>::empty();
    reveal_strlit("Lax");
    let tail = if secure {
        seq![';'] + p5
    } else {
        Seq::<char>::empty()
    };
    let h = expired_cookie_text(name, secure);
    assert(h =~= first + seq![';'] + (p1 + seq![';'] + (p2 + seq![';'] + (p3 + seq![';'] + (p4 + tail)))));
    assert forall|i: int| 0 <= i < first.len() implies #[trigger] first[i] != ';' by {
        if i < name.len() {
            assert(first[i] == name[i]);
        }
    }
    assert(forall|i: int| 0 <= i < p1.len() ==> #[trigger] p1[i] != ';');
    assert(forall|i: int| 0 <= i < p2.len() ==> #[trigger] p2[i] != ';');
    assert(forall|i: int| 0 <= i < p3.len() ==> #[trigger] p3[i] != ';');
    assert(forall|i: int| 0 <= i < p4.len() ==> #[trigger] p4[i] != ';');
    assert(forall|i: int| 0 <= i < p5.len() ==> #[trigger] p5[i] != ';');
    lemma_split_cons(first, p1 + seq![';'] + (p2 + seq![';'] + (p3 + seq![';'] + (p4 + tail))));
    lemma_split_cons(p1, p2 + seq![';'] + (p3 + seq![';'] + (p4 + tail)));
    lemma_split_cons(p2, p3 + seq![';'] + (p4 + tail));
    lemma_split_cons(p3, p4 + tail);
    let last_parts = if secure {
        seq![p4, p5]
    } else {
        seq![p4]
    };
    if secure {
        assert(p4 + tail =~= p4 + seq![';'] + p5);
        lemma_split_cons(p4, p5);
        lemma_index_of(p5, ';', p5.len() as int);
        assert(split_on(p5, ';') == seq![p5]);
    } else {
        assert(p4 + tail =~= p4);
        lemma_index_of(p4, ';', p4.len() as int);
        assert(split_on(p4, ';') == seq![p4]);
    }
    assert(split_on(p4 + tail, ';') =~= last_parts);
    // The first part is the name with an empty value.
    assert(!is_ws(first[0]));
    assert(trim_start(first) == first);
    assert(trim_end(first) == first);
    assert(forall|i: int| 0 <= i < name.len() ==> first[i] == name[i]);
    lemma_index_of(first, '=', name.len() as int);
    assert(first.skip(name.len() as int + 1).len() == 0);
    assert(cookie_in_part(first, name) is None);
    lemma_attribute_part(path, seq!['/'], true, name);
    lemma_attribute_part(max_age, seq!['0'], true, name);
    lemma_attribute_part(http_only, Seq::empty(), false, name);
    lemma_attribute_part(same_site, "Lax"@, true, name);
    lemma_attribute_part(sec, Seq::empty(), false, name);
    lemma_find_cons(first, split_on(p1 + seq![';'] + (p2 + seq![';'] + (p3 + seq![';'] + (p4 + tail))), ';'), name);
    lemma_find_cons(p1, split_on(p2 + seq![';'] + (p3 + seq![';'] + (p4 + tail)), ';'), name);
    lemma_find_cons(p2, split_on(p3 + seq![';'] + (p4 + tail), ';'), name);
    lemma_find_cons(p3, split_on(p4 + tail, ';'), name);
    if secure {
        lemma_find_cons(p4, seq![p5], name);
        lemma_find_cons(p5, Seq::empty(), name);
        assert(seq![p4, p5] =~= seq![p4] + seq![p5]);
        assert(seq![p5] =~= seq![p5] + Seq::<Seq<char>>::empty());
    } else {
        lemma_find_cons(p4, Seq::empty(), name);
        assert(seq![p4] =~= seq![p4] + Seq::<Seq<char>>::empty());
    }
}

/// After a login completes, the Cookie header sent back for its session
/// is a live session of the logged-in subject until the session expires:
/// `me` answers with the subject, and MCP requests are let through.
pub proof fn lemma_login_then_authenticated(
    before: Map<Seq<char>, Session>,
    after: Map<Seq<char>, Session>,
    reply: ReplyView,
    id: Seq<char>,
    subject: Seq<char>,
    expires_at: int,
    ttl_secs: nat,
    next: Seq<char>,
    cookie_name: Seq<char>,
    cookie_secure: bool,
    now: u128,
    cache: Map<Seq<char>, BearerCacheEntry>,
    is_get: bool,
    authorization: Option<Seq<char>>,
    introspection_configured: bool,
)
    requires
        login_completed(before, after, reply, id, subject, expires_at, ttl_secs, next, cookie_name, cookie_secure),
        plain_cookie_name(cookie_name),
        now < expires_at,
    ensures
        live_session(after, Some(session_cookie_header(cookie_name, id)), cookie_name, now) matches Some(s)
            && opt_view(s.subject) == Some(subject),
        authorize_outcome(
            unexpired(after, now),
            unexpired(cache, now),
            now,
            is_get,
            Some(session_cookie_header(cookie_name, id)),
            cookie_name,
            authorization,
            introspection_configured,
        ) == AuthOutcome::Allow,
{
    lemma_cookie_round_trip(cookie_name, id);
    assert(unexpired(after, now).contains_key(id));
}

/// After a logout, the Cookie header that named the session no longer
/// names a live session: `me` answers 401.
pub proof fn lemma_logout_ends_session(
    sessions: Map<Seq<char>, Session>,
    cookie_header: Option<Seq<char>>,
    cookie_name: Seq<char>,
    now: u128,
)
    ensures
        live_session(after_logout(sessions, cookie_header, cookie_name), cookie_header, cookie_name, now) is None,
{
}

/// An OAuth state is used once: a second callback with a state that a
/// callback has used is refused as invalid.
pub proof fn lemma_state_used_once(
    pending: Map<Seq<char>, PendingLogin>,
    first: CallbackQuery,
    second: CallbackQuery,
    now: u128,
)
    requires
        first.error is None,
        first.code is Some,
        first.state is Some,
        second.error is None,
        second.code is Some,
        second.state matches Some(s) && s@ == first.state->0@,
    ensures
        callback_outcome(callback_pending(pending, first), second, now) == CallbackOutcome::Reply(
            json_reply(400, error_json("invalid OAuth state"@)),
        ),
{
}

/// After login the browser goes to a path on this server, whatever
/// `next` was asked for.
pub proof fn lemma_next_is_local(next: Option<Seq<char>>)
    ensures
        is_local_path(next_target(next)),
{
    reveal_strlit("/mcp");
    reveal_strlit("/");
    reveal_strlit("//");
    let m = "/mcp"@;
    assert(m.take(1) =~= "/"@);
    assert(m.take(2)[1] != "//"@[1]);
}

/// Dropping what expired by `now` changes no decision taken at `now`.
pub proof fn lemma_prune_keeps_decisions(
    sessions: Map<Seq<char>, Session>,
    cache: Map<Seq<char>, BearerCacheEntry>,
    now: u128,
    is_get: bool,
    cookie_header: Option<Seq<char>>,
    cookie_name: Seq<char>,
    authorization: Option<Seq<char>>,
    introspection_configured: bool,
)
    ensures
        live_session(unexpired(sessions, now), cookie_header, cookie_name, now) == live_session(
            sessions,
            cookie_header,
            cookie_name,
            now,
        ),
        authorize_outcome(
            unexpired(sessions, now),
            unexpired(cache, now),
            now,
            is_get,
            cookie_header,
            cookie_name,
            authorization,
            introspection_configured,
        ) == authorize_outcome(
            sessions,
            cache,
            now,
            is_get,
            cookie_header,
            cookie_name,
            authorization,
            introspection_configured,
        ),
{
}

/// An introspection answer decides the token's requests until it
/// expires: within the cache lifetime a request with the same bearer
/// token and no live session is let through exactly when the token was
/// active, with no new introspection.
pub proof fn lemma_cached_answer_decides(
    sessions: Map<Seq<char>, Session>,
    cache: Map<Seq<char>, BearerCacheEntry>,
    token: Seq<char>,
    active: bool,
    answered_at: u128,
    cache_ttl_ms: u128,
    now: u128,
    is_get: bool,
    cookie_header: Option<Seq<char>>,
    cookie_name: Seq<char>,
    authorization: Seq<char>,
)
    requires
        bearer_of(authorization) == Some(token),
        cache.contains_key(token),
        cache[token].active == active,
        cache[token].expires_at == answered_at + cache_ttl_ms,
        now < answered_at + cache_ttl_ms,
        live_session(sessions, cookie_header, cookie_name, now) is None,
    ensures
        authorize_outcome(
            unexpired(sessions, now),
            unexpired(cache, now),
            now,
            is_get,
            cookie_header,
            cookie_name,
            Some(authorization),
            true,
        ) == if active {
            AuthOutcome::Allow
        } else {
            AuthOutcome::Deny(AuthDecision::Unauthorized)
        },
{
    lemma_prune_keeps_decisions(sessions, cache, now, is_get, cookie_header, cookie_name, Some(authorization), true);
}

/// A session never outlives the configured session lifetime, and its
/// cookie's `Max-Age` is its lifetime in whole seconds.
pub proof fn lemma_session_lifetime_capped(
    before: Map<Seq<char>, Session>,
    after: Map<Seq<char>, Session>,
    reply: ReplyView,
    id: Seq<char>,
    subject: Seq<char>,
    now: u128,
    token_ttl_ms: Option<u128>,
    session_ttl_ms: u128,
    next: Seq<char>,
    cookie_name: Seq<char>,
    cookie_secure: bool,
)
    requires
        login_completed(
            before,
            after,
            reply,
            id,
            subject,
            now + login_ttl(token_ttl_ms, session_ttl_ms),
            (login_ttl(token_ttl_ms, session_ttl_ms) / 1000) as nat,
            next,
            cookie_name,
            cookie_secure,
        ),
    ensures
        after[id].expires_at <= now + session_ttl_ms,
        after[id].expires_at - now == login_ttl(token_ttl_ms, session_ttl_ms),
        token_ttl_ms matches Some(t) ==> after[id].expires_at <= now + t,
        reply.set_cookie == Some(
            session_cookie_text(cookie_name, id, (login_ttl(token_ttl_ms, session_ttl_ms) / 1000) as nat, cookie_secure),
        ),
{
}

} // verus!
