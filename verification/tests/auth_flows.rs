use livy_resolver::auth::{
    bad_auth_request, bearer_token, decision_reply, expired_session_cookie, introspection_subject,
    parse_cookie, sanitize_next, session_cookie, token_exchange_failed, token_not_active,
    unauthorized_response, AuthConfig, AuthDecision, AuthEnv, AuthStep, AuthStore, CallbackQuery,
    CallbackStep, HttpReply,
};
use livy_resolver::errors::FetchError;
use livy_resolver::json::JsonValue;
use serde_json::Value;

fn from_lib(v: &JsonValue) -> Value {
    match v {
        JsonValue::Null => Value::Null,
        JsonValue::Bool(b) => Value::Bool(*b),
        JsonValue::UInt(n) => Value::from(*n),
        JsonValue::Int(n) => Value::from(*n),
        JsonValue::Float(s) => serde_json::from_str(s).unwrap(),
        JsonValue::Str(s) => Value::String(s.clone()),
        JsonValue::Array(items) => Value::Array(items.iter().map(from_lib).collect()),
        JsonValue::Object(members) => {
            let mut map = serde_json::Map::new();
            for (k, v) in members {
                map.insert(k.clone(), from_lib(v));
            }
            Value::Object(map)
        }
    }
}

fn json(text: &str) -> Value {
    serde_json::from_str(text).unwrap()
}

fn body(reply: &HttpReply) -> Value {
    from_lib(reply.body.as_ref().unwrap())
}

fn query(code: Option<&str>, state: Option<&str>) -> CallbackQuery {
    CallbackQuery {
        code: code.map(|c| c.to_string()),
        state: state.map(|s| s.to_string()),
        error: None,
        error_description: None,
    }
}

fn auth_env() -> AuthEnv {
    AuthEnv {
        enabled: None,
        enabled_present: false,
        client_id: None,
        client_id_present: false,
        client_secret: None,
        auth_url: None,
        auth_url_present: false,
        token_url: None,
        redirect_url: None,
        introspection_url: None,
        scopes: None,
        cookie_name: None,
        cookie_secure: None,
        session_ttl_secs: None,
        state_ttl_secs: None,
        introspection_cache_secs: None,
    }
}

fn bad_request(r: Result<Option<AuthConfig>, FetchError>) -> String {
    match r {
        Err(FetchError::BadRequest(m)) => m,
        _ => panic!("expected a bad request"),
    }
}

#[test]
fn cookies_are_found_by_name() {
    assert_eq!(parse_cookie("a=1; livy=abc; b=2", "livy"), Some("abc".to_string()));
    assert_eq!(parse_cookie("livy=; livy=second", "livy"), Some("second".to_string()));
    assert_eq!(parse_cookie("  livy = x", "livy"), None);
    assert_eq!(parse_cookie("other=1", "livy"), None);
    assert_eq!(parse_cookie("livy=a=b", "livy"), Some("a=b".to_string()));
}

#[test]
fn bearer_tokens_and_redirect_targets() {
    assert_eq!(bearer_token(Some("Bearer abc")), Some("abc".to_string()));
    assert_eq!(bearer_token(Some("Bearer    ")), None);
    assert_eq!(bearer_token(Some("Basic abc")), None);
    assert_eq!(bearer_token(None), None);
    assert_eq!(sanitize_next(Some("/docs")), "/docs");
    assert_eq!(sanitize_next(Some("//evil.test")), "/mcp");
    assert_eq!(sanitize_next(Some("https://evil.test")), "/mcp");
    assert_eq!(sanitize_next(None), "/mcp");
}

#[test]
fn session_cookies() {
    assert_eq!(
        session_cookie("livy", "abc", 600, false),
        "livy=abc; Path=/; Max-Age=600; HttpOnly; SameSite=Lax"
    );
    assert_eq!(
        expired_session_cookie("livy", true),
        "livy=; Path=/; Max-Age=0; HttpOnly; SameSite=Lax; Secure"
    );
}

#[test]
fn set_cookie_text_reads_back_as_the_session() {
    let name = "livy_resolver_session";
    assert_eq!(parse_cookie(&session_cookie(name, "sid-42", 86400, true), name), Some("sid-42".to_string()));
    assert_eq!(parse_cookie(&session_cookie(name, "x", 0, false), name), Some("x".to_string()));
    assert_eq!(parse_cookie(&session_cookie(name, "a/b+c=d e", 60, false), name), Some("a/b+c=d e".to_string()));
    assert_eq!(parse_cookie(&expired_session_cookie(name, false), name), None);
    assert_eq!(parse_cookie(&expired_session_cookie(name, true), name), None);
    assert_eq!(
        parse_cookie("a=1; livy_resolver_session=; livy_resolver_session=x", name),
        Some("x".to_string())
    );
}

#[test]
fn login_then_me_then_logout() {
    let mut store = AuthStore::new();
    store.begin_login(1_000, "state-1".to_string(), "verifier".to_string(), Some("/mcp/tools"), 600_000);
    let step = store.begin_callback(query(Some("code-1"), Some("state-1")), 2_000);
    let next = match step {
        CallbackStep::Exchange { code, pkce_verifier, next } => {
            assert_eq!(code, "code-1");
            assert_eq!(pkce_verifier, "verifier");
            next
        }
        CallbackStep::Reply(_) => panic!("the state is valid"),
    };
    assert_eq!(next, "/mcp/tools");

    let reply = store.complete_login("user-1".to_string(), Some(3_600_000), &next, 3_000, 28_800_000, "livy", false);
    assert_eq!(reply.status, 307);
    assert_eq!(reply.location, Some("/mcp/tools".to_string()));
    let cookie = reply.set_cookie.clone().unwrap();
    let id = cookie.split(';').next().unwrap().trim_start_matches("livy=").to_string();
    assert_eq!(id.len(), 48);
    assert!(id.chars().all(|c| c.is_ascii_alphanumeric()));
    assert!(cookie.ends_with("; Path=/; Max-Age=3600; HttpOnly; SameSite=Lax"));

    let header = format!("livy={id}");
    let me = store.me(Some(&header), "livy", 4_000);
    assert_eq!(me.status, 200);
    assert_eq!(body(&me), json(r#"{"authenticated":true,"subject":"user-1"}"#));
    match store.authorize(4_000, false, Some(&header), None, "livy", false) {
        AuthStep::Allow => {}
        _ => panic!("a session lets the request through"),
    }

    let out = store.logout(Some(&header), "livy", false);
    assert_eq!(out.status, 200);
    assert_eq!(body(&out), json(r#"{"ok":true}"#));
    assert_eq!(out.set_cookie, Some("livy=; Path=/; Max-Age=0; HttpOnly; SameSite=Lax".to_string()));
    let me = store.me(Some(&header), "livy", 5_000);
    assert_eq!(me.status, 401);
    assert_eq!(body(&me), json(r#"{"authenticated":false}"#));
}

#[test]
fn oauth_state_is_used_once() {
    let mut store = AuthStore::new();
    store.begin_login(0, "s".to_string(), "v".to_string(), None, 1_000);
    assert!(matches!(store.begin_callback(query(Some("c"), Some("s")), 10), CallbackStep::Exchange { .. }));
    match store.begin_callback(query(Some("c"), Some("s")), 20) {
        CallbackStep::Reply(reply) => {
            assert_eq!(reply.status, 400);
            assert_eq!(body(&reply), json(r#"{"error":"invalid OAuth state"}"#));
        }
        _ => panic!("a used state is invalid"),
    }
}

#[test]
fn callback_errors() {
    let mut store = AuthStore::new();
    store.begin_login(0, "s".to_string(), "v".to_string(), Some("//x"), 1_000);
    let reply = match store.begin_callback(query(Some("c"), Some("s")), 1_000) {
        CallbackStep::Reply(r) => r,
        _ => panic!("the state expired"),
    };
    assert_eq!(body(&reply), json(r#"{"error":"expired OAuth state"}"#));
    let reply = match store.begin_callback(query(None, Some("s")), 0) {
        CallbackStep::Reply(r) => r,
        _ => panic!("no code"),
    };
    assert_eq!(body(&reply), json(r#"{"error":"missing OAuth code"}"#));
    let reply = match store.begin_callback(query(Some("c"), None), 0) {
        CallbackStep::Reply(r) => r,
        _ => panic!("no state"),
    };
    assert_eq!(body(&reply), json(r#"{"error":"missing OAuth state"}"#));
    let denied = CallbackQuery {
        code: None,
        state: None,
        error: Some("access_denied".to_string()),
        error_description: None,
    };
    match store.begin_callback(denied, 0) {
        CallbackStep::Reply(r) => {
            assert_eq!(r.status, 401);
            assert_eq!(body(&r), json(r#"{"error":"access_denied","error_description":""}"#));
        }
        _ => panic!("an OAuth error is reported"),
    }
}

#[test]
fn bearer_tokens_are_introspected_and_cached() {
    let mut store = AuthStore::new();
    let token = match store.authorize(0, false, None, Some("Bearer tok"), "livy", true) {
        AuthStep::Introspect(t) => t,
        _ => panic!("an unknown token is introspected"),
    };
    assert_eq!(token, "tok");
    assert!(matches!(store.record_introspection(token, Some(true), 0, 60_000), AuthStep::Allow));
    assert!(matches!(store.authorize(59_999, false, None, Some("Bearer tok"), "livy", true), AuthStep::Allow));
    assert!(matches!(
        store.authorize(60_000, false, None, Some("Bearer tok"), "livy", true),
        AuthStep::Introspect(_)
    ));
    assert!(matches!(
        store.record_introspection("bad".to_string(), None, 0, 60_000),
        AuthStep::Deny(AuthDecision::Unavailable)
    ));
    assert!(matches!(
        store.authorize(0, false, None, Some("Bearer tok"), "livy", false),
        AuthStep::Deny(AuthDecision::Unauthorized)
    ));
    assert!(matches!(store.authorize(0, true, None, None, "livy", true), AuthStep::Deny(AuthDecision::RedirectToLogin)));
    assert!(matches!(store.authorize(0, false, None, None, "livy", true), AuthStep::Deny(AuthDecision::Unauthorized)));
}

#[test]
fn decision_replies() {
    let r = unauthorized_response();
    assert_eq!(r.status, 401);
    assert_eq!(r.www_authenticate, Some("Bearer realm=\"livy-resolver-mcp\"".to_string()));
    assert_eq!(body(&r), json(r#"{"error":"Livy login required","login_url":"/auth/livy/login?next=/mcp"}"#));
    let r = decision_reply(AuthDecision::RedirectToLogin);
    assert_eq!(r.status, 307);
    assert_eq!(r.location, Some("/auth/livy/login?next=/mcp".to_string()));
    let r = decision_reply(AuthDecision::Unavailable);
    assert_eq!(r.status, 503);
    assert_eq!(body(&r), json(r#"{"error":"Livy token validation is unavailable"}"#));
    assert_eq!(body(&bad_auth_request("x")), json(r#"{"error":"x"}"#));
    let r = token_exchange_failed("boom");
    assert_eq!(r.status, 502);
    assert_eq!(body(&r), json(r#"{"error":"Livy token exchange failed: boom"}"#));
    assert_eq!(token_not_active().status, 401);
}

#[test]
fn introspected_subjects() {
    assert_eq!(introspection_subject(false, Some("a".to_string()), None, None), None);
    assert_eq!(
        introspection_subject(true, None, Some("u".to_string()), Some("e".to_string())),
        Some("u".to_string())
    );
    assert_eq!(introspection_subject(true, None, None, None), Some("livy-oauth-user".to_string()));
}

#[test]
fn oauth_configuration() {
    assert!(AuthConfig::from_values(&auth_env()).unwrap().is_none());
    let mut e = auth_env();
    e.client_id = Some("id".to_string());
    e.client_id_present = true;
    assert_eq!(bad_request(AuthConfig::from_values(&e)), "LIVY_OAUTH_CLIENT_SECRET must be set");
    e.client_secret = Some("secret".to_string());
    e.auth_url = Some("https://auth.test/authorize".to_string());
    e.token_url = Some("https://auth.test/token".to_string());
    e.redirect_url = Some("http://localhost:3001/auth/livy/callback".to_string());
    let c = AuthConfig::from_values(&e).unwrap().unwrap();
    assert_eq!(c.scopes, vec!["openid", "profile", "email"]);
    assert_eq!(c.cookie_name, "livy_resolver_session");
    assert_eq!(c.session_ttl_secs, 28800);
    assert_eq!(c.state_ttl_secs, 600);
    assert_eq!(c.introspection_cache_secs, 60);
    assert!(!c.cookie_secure);

    e.session_ttl_secs = Some("ten".to_string());
    assert_eq!(
        bad_request(AuthConfig::from_values(&e)),
        "LIVY_OAUTH_SESSION_TTL_SECS must be a number: invalid digit found in string"
    );
    e.session_ttl_secs = None;
    e.cookie_secure = Some("sometimes".to_string());
    assert_eq!(bad_request(AuthConfig::from_values(&e)), "LIVY_OAUTH_COOKIE_SECURE must be true or false");
    e.cookie_secure = Some("ON".to_string());
    assert!(AuthConfig::from_values(&e).unwrap().unwrap().cookie_secure);
    e.auth_url = Some("not a url".to_string());
    assert_eq!(
        bad_request(AuthConfig::from_values(&e)),
        "invalid LIVY_OAUTH_AUTH_URL: relative URL without a base"
    );
    let mut off = auth_env();
    off.enabled = Some("false".to_string());
    off.enabled_present = true;
    off.client_id_present = true;
    assert!(AuthConfig::from_values(&off).unwrap().is_none());
}

#[test]
fn login_redirects_to_the_authorization_url() {
    let mut e = auth_env();
    e.enabled = Some("true".to_string());
    e.enabled_present = true;
    e.client_id = Some("client-1".to_string());
    e.client_secret = Some("secret".to_string());
    e.auth_url = Some("https://auth.test/authorize".to_string());
    e.token_url = Some("https://auth.test/token".to_string());
    e.redirect_url = Some("http://localhost:3001/auth/livy/callback".to_string());
    let config = AuthConfig::from_values(&e).unwrap().unwrap();
    let mut store = AuthStore::new();
    let reply = store.start_login(0, &config, Some("/mcp")).unwrap();
    assert_eq!(reply.status, 307);
    let location = reply.location.unwrap();
    assert!(location.starts_with("https://auth.test/authorize?"));
    assert!(location.contains("client_id=client-1"));
    assert!(location.contains("code_challenge_method=S256"));
    assert!(location.contains("scope=openid+profile+email"));
    let state = location
        .split(|c| c == '?' || c == '&')
        .find_map(|part| part.strip_prefix("state="))
        .unwrap()
        .to_string();
    assert_eq!(state.len(), 22);
    match store.begin_callback(query(Some("code"), Some(&state)), 1) {
        CallbackStep::Exchange { pkce_verifier, next, .. } => {
            assert_eq!(pkce_verifier.len(), 43);
            assert_eq!(next, "/mcp");
        }
        CallbackStep::Reply(_) => panic!("the state was just issued"),
    }
    let mut broken = AuthConfig::from_values(&e).unwrap().unwrap();
    broken.auth_url = "not a url".to_string();
    assert!(store.start_login(0, &broken, None).is_none());
}

#[test]
fn sessions_never_outlive_the_session_lifetime() {
    let mut store = AuthStore::new();
    let reply = store.complete_login("u".to_string(), Some(90_000_000), "/mcp", 0, 28_800_000, "livy", true);
    let cookie = reply.set_cookie.unwrap();
    assert!(cookie.ends_with("; Path=/; Max-Age=28800; HttpOnly; SameSite=Lax; Secure"));
    let id = cookie.split(';').next().unwrap().trim_start_matches("livy=").to_string();
    let header = format!("livy={id}");
    assert_eq!(store.me(Some(&header), "livy", 28_799_999).status, 200);
    assert_eq!(store.me(Some(&header), "livy", 28_800_000).status, 401);
    let reply = store.complete_login("u".to_string(), None, "/mcp", 0, 1_500, "livy", false);
    assert!(reply.set_cookie.unwrap().contains("Max-Age=1;"));
}

#[test]
fn token_and_redirect_urls_are_checked() {
    let mut e = auth_env();
    e.enabled = Some("1".to_string());
    e.client_id = Some("id".to_string());
    e.client_secret = Some("secret".to_string());
    e.auth_url = Some("https://auth.test/authorize".to_string());
    e.token_url = Some("::".to_string());
    e.redirect_url = Some("http://localhost/cb".to_string());
    assert_eq!(
        bad_request(AuthConfig::from_values(&e)),
        "invalid LIVY_OAUTH_TOKEN_URL: relative URL without a base"
    );
    e.token_url = Some("https://auth.test/token".to_string());
    e.redirect_url = Some("http://[::1".to_string());
    assert_eq!(bad_request(AuthConfig::from_values(&e)), "invalid LIVY_OAUTH_REDIRECT_URL: invalid IPv6 address");
}
