use swiyu_issuer::bff::config::{Config, ConfigError, EnvVar, Environment};
use swiyu_issuer::bff::exchange::{check_user_token_status, refreshed_token, UserTokenError, UserTokens};
use swiyu_issuer::bff::login::{access_expiry, VerifiedUser};
use swiyu_issuer::bff::oidc::OidcEndpoints;
use swiyu_issuer::bff::pending::{still_pending, PendingLogin, PendingLogins};
use swiyu_issuer::bff::routes::auth::{
    active_accounts, callback_params, display_name, establish_session, login_error_location,
    logout_location, sanitize_return_to, CallbackQuery, LoginFailure,
};
use swiyu_issuer::bff::routes::credentials::{list_credentials_request, ListQuery};
use swiyu_issuer::bff::routes::me::me_response;
use swiyu_issuer::bff::routes::session_cookie_name;
use swiyu_issuer::bff::session::{SessionAccount, SessionData};
use swiyu_issuer::bff::token::{check_token_status, FirstPartyTokenProvider, TokenError};
use swiyu_issuer::bff::upstream::{read_json, CallError, MgmtApiClient};
use swiyu_issuer::json::Json;

fn s(v: &str) -> Json {
    Json::Str(v.to_string())
}

fn obj(members: Vec<(&str, Json)>) -> Json {
    Json::Object(members.into_iter().map(|(k, v)| (k.to_string(), v)).collect())
}

fn env(pairs: &[(&str, &str)]) -> Environment {
    Environment {
        vars: pairs
            .iter()
            .map(|(k, v)| (k.to_string(), EnvVar::Value(v.to_string())))
            .collect(),
    }
}

fn minimal_env() -> Vec<(&'static str, &'static str)> {
    vec![
        ("OIDC_ISSUER_URL", "https://kc.example/realms/swiyu"),
        ("MGMTAPI_URL", "http://mgmtapi:8080"),
        ("OIDC_CLIENT_ID", "bff"),
        ("OIDC_CLIENT_SECRET", "secret"),
        ("OIDC_REDIRECT_URI", "https://web.example/api/auth/callback"),
        ("OIDC_POST_LOGOUT_REDIRECT_URI", "https://web.example/"),
    ]
}

#[test]
fn config_reads_defaults() {
    let c = Config::from_env(&env(&minimal_env())).unwrap();
    assert_eq!(c.bff_port, 3000);
    assert_eq!(c.oidc.internal_url, "https://kc.example/realms/swiyu");
    assert_eq!(c.identifier_registry_url, "");
    assert!(!c.session.cookie_secure);
    assert_eq!(c.session.idle_timeout_secs, 1800);
    assert_eq!(c.session.absolute_timeout_secs, 36000);
    assert_eq!(c.spa_dir, None);
}

#[test]
fn config_reads_overrides() {
    let mut vars = minimal_env();
    vars.push(("BFF_PORT", "8081"));
    vars.push(("OIDC_INTERNAL_URL", "http://keycloak:8080/realms/swiyu"));
    vars.push(("SESSION_COOKIE_SECURE", " YES "));
    vars.push(("SESSION_IDLE_TIMEOUT_SECS", " 60 "));
    vars.push(("SPA_DIR", "/srv/spa"));
    let c = Config::from_env(&env(&vars)).unwrap();
    assert_eq!(c.bff_port, 8081);
    assert_eq!(c.oidc.internal_url, "http://keycloak:8080/realms/swiyu");
    assert!(c.session.cookie_secure);
    assert_eq!(c.session.idle_timeout_secs, 60);
    assert_eq!(c.spa_dir.as_deref(), Some("/srv/spa"));
}

#[test]
fn config_reports_the_first_failing_variable() {
    let err = Config::from_env(&env(&[])).unwrap_err();
    assert!(matches!(err, ConfigError::MissingVar("OIDC_ISSUER_URL")));
    let mut vars = minimal_env();
    vars.push(("BFF_PORT", "70000"));
    assert!(matches!(
        Config::from_env(&env(&vars)).unwrap_err(),
        ConfigError::InvalidPort { name: "BFF_PORT", .. }
    ));
    let mut vars = minimal_env();
    vars.push(("SESSION_COOKIE_SECURE", "maybe"));
    assert!(matches!(
        Config::from_env(&env(&vars)).unwrap_err(),
        ConfigError::InvalidBool { name: "SESSION_COOKIE_SECURE" }
    ));
    let mut vars = minimal_env();
    vars[1] = ("MGMTAPI_URL", "   ");
    assert!(matches!(
        Config::from_env(&env(&vars)).unwrap_err(),
        ConfigError::MissingVar("MGMTAPI_URL")
    ));
    let mut e = env(&minimal_env());
    e.vars.push(("SESSION_ABSOLUTE_TIMEOUT_SECS".to_string(), EnvVar::NotUnicode));
    assert!(matches!(
        Config::from_env(&e).unwrap_err(),
        ConfigError::NonUnicodeVar { name: "SESSION_ABSOLUTE_TIMEOUT_SECS" }
    ));
}

#[test]
fn endpoints_follow_the_well_known_paths() {
    let e = OidcEndpoints::build("https://kc.example/realms/r/", "http://kc:8080/realms/r");
    assert_eq!(e.issuer, "https://kc.example/realms/r");
    assert_eq!(e.authorize_endpoint, "https://kc.example/realms/r/protocol/openid-connect/auth");
    assert_eq!(e.end_session_endpoint, "https://kc.example/realms/r/protocol/openid-connect/logout");
    assert_eq!(e.token_endpoint, "http://kc:8080/realms/r/protocol/openid-connect/token");
    assert_eq!(e.jwks_uri, "http://kc:8080/realms/r/protocol/openid-connect/certs");
}

#[test]
fn return_to_must_be_a_same_origin_path() {
    assert_eq!(sanitize_return_to(Some("/issuers/1")), "/issuers/1");
    assert_eq!(sanitize_return_to(Some("//evil.example")), "/");
    assert_eq!(sanitize_return_to(Some("https://evil.example")), "/");
    assert_eq!(sanitize_return_to(Some("")), "/");
    assert_eq!(sanitize_return_to(None), "/");
    assert_eq!(sanitize_return_to(Some("/")), "/");
}

#[test]
fn login_errors_go_to_the_login_page() {
    assert_eq!(login_error_location(LoginFailure::NoAccess.code()), "/login?error=no_access");
    assert_eq!(LoginFailure::Idp.code(), "idp");
    assert_eq!(LoginFailure::State.code(), "state");
    assert_eq!(LoginFailure::Unavailable.code(), "unavailable");
}

#[test]
fn callback_needs_code_and_state_and_no_realm_error() {
    let q = |code: Option<&str>, state: Option<&str>, error: Option<&str>| CallbackQuery {
        code: code.map(str::to_string),
        state: state.map(str::to_string),
        error: error.map(str::to_string),
        error_description: None,
    };
    assert_eq!(
        callback_params(q(Some("c"), Some("s"), None)).unwrap(),
        ("c".to_string(), "s".to_string())
    );
    assert_eq!(callback_params(q(Some("c"), Some("s"), Some("access_denied"))).err(), Some(LoginFailure::Idp));
    assert_eq!(callback_params(q(Some("c"), None, None)).err(), Some(LoginFailure::State));
    assert_eq!(callback_params(q(None, Some("s"), None)).err(), Some(LoginFailure::State));
}

fn item(id: &str, state: &str, extra: Vec<(&str, Json)>) -> Json {
    let mut m = vec![("id", s(id)), ("tenant_id", s("t-1")), ("state", s(state))];
    m.extend(extra);
    obj(m)
}

#[test]
fn display_name_prefers_idp_then_provisioning_then_id() {
    assert_eq!(
        display_name(&item("a", "active", vec![("idp_first_name", s("Ada")), ("idp_last_name", s("Lovelace"))])),
        "Ada Lovelace"
    );
    assert_eq!(
        display_name(&item("a", "active", vec![("idp_first_name", s("")), ("provisioning_last_name", s("Byron"))])),
        "Byron"
    );
    assert_eq!(display_name(&item("a", "active", vec![("idp_last_name", s("L"))])), "L");
    assert_eq!(display_name(&item("acc-9", "active", vec![])), "acc-9");
    assert_eq!(display_name(&obj(vec![])), "");
}

#[test]
fn only_active_accounts_can_be_logged_into() {
    let resolved = obj(vec![(
        "items",
        Json::Array(vec![
            item("a", "active", vec![("tenant_display_name", s("Acme"))]),
            item("b", "deactivated", vec![]),
            obj(vec![("id", s("c")), ("state", s("active"))]),
            item("d", "active", vec![]),
        ]),
    )]);
    let accounts = active_accounts(&resolved);
    let ids: Vec<&str> = accounts.iter().map(|a| a.id.as_str()).collect();
    assert_eq!(ids, vec!["a", "d"]);
    assert_eq!(accounts[0].tenant_display_name.as_deref(), Some("Acme"));
    assert_eq!(accounts[1].tenant_display_name, None);
    assert_eq!(accounts[1].display_name, "d");
    assert!(active_accounts(&obj(vec![])).is_empty());
}

fn verified() -> VerifiedUser {
    VerifiedUser {
        iss: "https://idp".to_string(),
        sub: "u-1".to_string(),
        access_token: "at".to_string(),
        refresh_token: None,
        id_token: "idt".to_string(),
        access_expiry_unix: 500,
    }
}

#[test]
fn login_establishes_a_session_on_the_first_active_account() {
    let resolved = obj(vec![(
        "items",
        Json::Array(vec![item("b", "deactivated", vec![]), item("a", "active", vec![]), item("c", "active", vec![])]),
    )]);
    let data = establish_session(verified(), &resolved, 100).unwrap();
    assert_eq!(data.selected_account_id, "a");
    assert_eq!(data.accounts.len(), 2);
    assert_eq!(data.kc_refresh_token, "");
    assert_eq!(data.logged_in_at_unix, 100);
    assert_eq!(data.selected().unwrap().id, "a");
    let none = obj(vec![("items", Json::Array(vec![item("b", "deactivated", vec![])]))]);
    assert_eq!(establish_session(verified(), &none, 100).err().map(|e| e.code()), Some("no_access"));
}

fn account(id: &str) -> SessionAccount {
    SessionAccount {
        id: id.to_string(),
        tenant_id: format!("t-{id}"),
        tenant_display_name: None,
        display_name: id.to_string(),
    }
}

fn session() -> SessionData {
    SessionData {
        iss: "https://idp".to_string(),
        sub: "u-1".to_string(),
        kc_access_token: "at".to_string(),
        kc_refresh_token: "rt".to_string(),
        kc_id_token: "idt".to_string(),
        kc_access_expiry_unix: 1_000,
        logged_in_at_unix: 100,
        accounts: vec![account("a"), account("b")],
        selected_account_id: "a".to_string(),
    }
}

#[test]
fn switching_account_selects_a_linked_one_only() {
    let mut data = session();
    let picked = data.select_account("b").unwrap();
    assert_eq!(picked.id, "b");
    assert_eq!(data.selected().unwrap().id, "b");
    assert!(data.select_account("zzz").is_none());
    assert_eq!(data.selected_account_id, "b");
}

#[test]
fn session_lifetime_and_guard() {
    let data = session();
    assert!(data.is_live(100 + 35_999, 36_000));
    assert!(!data.is_live(100 + 36_000, 36_000));
    assert!(data.admits(200, 36_000));
    let mut orphan = session();
    orphan.selected_account_id = "gone".to_string();
    assert!(!orphan.admits(200, 36_000));
    assert!(data.needs_refresh(1_000));
    assert!(!data.needs_refresh(999));
}

#[test]
fn me_reports_the_selected_account() {
    let me = me_response(session()).unwrap();
    assert_eq!(me.selected_account.id, "a");
    assert_eq!(me.identity.sub, "u-1");
    assert_eq!(me.accounts.len(), 2);
    let mut orphan = session();
    orphan.selected_account_id = "gone".to_string();
    assert!(me_response(orphan).is_none());
}

#[test]
fn refresh_rotates_tokens_and_sets_expiry_with_margin() {
    let r = refreshed_token("old-rt", "new-at".to_string(), None, 300, 1_000);
    assert_eq!(r.refresh_token, "old-rt");
    assert_eq!(r.access_expiry_unix, 1_000 + 300 - 30);
    let r = refreshed_token("old-rt", "new-at".to_string(), Some("new-rt".to_string()), 0, 1_000);
    assert_eq!(r.refresh_token, "new-rt");
    assert_eq!(r.access_expiry_unix, 970);
    let mut data = session();
    data.apply_refresh(r);
    assert_eq!(data.kc_access_token, "new-at");
    assert_eq!(data.kc_refresh_token, "new-rt");
    assert_eq!(data.kc_access_expiry_unix, 970);
    assert_eq!(data.selected_account_id, "a");
}

#[test]
fn login_access_expiry() {
    assert_eq!(access_expiry(1_000, Some(300)), 1_300);
    assert_eq!(access_expiry(1_000, None), 1_000);
    assert_eq!(access_expiry(1_000, Some(u64::MAX)), 1_000);
}

#[test]
fn grant_bodies_are_form_encoded() {
    let t = UserTokens::new("http://kc/token".to_string(), "bff".to_string(), "s&c".to_string());
    assert_eq!(
        t.refresh_body("r t"),
        "grant_type=refresh_token&refresh_token=r+t&client_id=bff&client_secret=s%26c"
    );
    assert_eq!(
        t.exchange_body("at"),
        "grant_type=urn%3Aietf%3Aparams%3Aoauth%3Agrant-type%3Atoken-exchange&subject_token=at\
&subject_token_type=urn%3Aietf%3Aparams%3Aoauth%3Atoken-type%3Aaccess_token&scope=act-as-user\
&client_id=bff&client_secret=s%26c"
    );
    let p = FirstPartyTokenProvider::new("http://kc/token".to_string(), "bff".to_string(), "x".to_string());
    assert_eq!(p.request_body(), "grant_type=client_credentials&client_id=bff&client_secret=x");
}

#[test]
fn first_party_token_is_cached_until_its_margin() {
    let mut p = FirstPartyTokenProvider::new("u".to_string(), "c".to_string(), "s".to_string());
    assert_eq!(p.current(0), None);
    assert_eq!(p.store("tok".to_string(), 300, 1_000), "tok");
    assert_eq!(p.current(1_000), Some("tok".to_string()));
    assert_eq!(p.current(1_000 + 269_999), Some("tok".to_string()));
    assert_eq!(p.current(1_000 + 270_000), None);
    p.store("short".to_string(), 10, 5_000);
    assert_eq!(p.current(5_000), None);
}

#[test]
fn grant_status_is_checked() {
    assert!(check_token_status(200, b"").is_ok());
    match check_token_status(401, b"nope") {
        Err(TokenError::Status { status, body }) => {
            assert_eq!(status, 401);
            assert_eq!(body, "nope");
        }
        other => panic!("unexpected {other:?}"),
    }
    assert!(matches!(
        check_user_token_status(500, b"\xff"),
        Err(UserTokenError::Status { status: 500, ref body }) if body == "\u{fffd}"
    ));
}

#[test]
fn pending_logins_are_single_use_and_swept() {
    let mut p = PendingLogins::new();
    let login = |t: u64| PendingLogin {
        nonce: "n".to_string(),
        pkce_verifier: "v".to_string(),
        return_to: "/x".to_string(),
        created_at: t,
    };
    p.insert("s1".to_string(), login(0));
    p.insert("s2".to_string(), login(500_000));
    assert_eq!(p.take("s1").unwrap().return_to, "/x");
    assert!(p.take("s1").is_none());
    p.insert("s3".to_string(), login(0));
    p.sweep(600_000, 700_000);
    assert!(p.take("s3").is_none());
    assert!(p.take("s2").is_some());
    assert!(still_pending(10, 20, 1));
    assert!(!still_pending(20, 10, 10));
}

#[test]
fn logout_goes_through_the_end_session_endpoint() {
    assert_eq!(
        logout_location("https://web.example/", Some("https://kc.example/logout"), Some("idt")),
        "https://kc.example/logout?post_logout_redirect_uri=https%3A%2F%2Fweb.example%2F&id_token_hint=idt"
    );
    assert_eq!(
        logout_location("https://web.example/", Some("https://kc.example/logout"), None),
        "https://kc.example/logout?post_logout_redirect_uri=https%3A%2F%2Fweb.example%2F"
    );
    assert_eq!(logout_location("https://web.example/", None, Some("idt")), "https://web.example/");
    assert_eq!(logout_location("https://web.example/", Some("not a url"), None), "https://web.example/");
}

#[test]
fn cookie_name_depends_on_secure() {
    assert_eq!(session_cookie_name(true), "__Host-swiyu_session");
    assert_eq!(session_cookie_name(false), "swiyu_session");
}

#[test]
fn upstream_requests_and_answers() {
    let c = MgmtApiClient::new("http://mgmtapi:8080//");
    assert_eq!(c.base_url, "http://mgmtapi:8080");
    let r = c.resolve_linked_accounts("https://idp", "u-1");
    assert_eq!(r.url, "http://mgmtapi:8080/api/v1/linked-user-accounts");
    assert_eq!(r.query, vec![("iss".to_string(), "https://idp".to_string()), ("sub".to_string(), "u-1".to_string())]);
    let r = c.list_credential_offers("i-1", Some(25), None);
    assert_eq!(r.url, "http://mgmtapi:8080/api/v1/issuers/i-1/credential-offers");
    assert_eq!(r.query, vec![("limit".to_string(), "25".to_string())]);
    assert!(c.list_credential_offers("i-1", None, None).query.is_empty());
    let r = c.list_credential_offers("i-1", None, Some("cur"));
    assert_eq!(r.query, vec![("cursor".to_string(), "cur".to_string())]);
    assert_eq!(c.credential_offer("i-1", "o-2"), "http://mgmtapi:8080/api/v1/issuers/i-1/credential-offers/o-2");
    assert_eq!(c.credential_type_schema("ct"), "http://mgmtapi:8080/api/v1/credential-types/ct/schema");
    assert_eq!(c.rotate_keys("i-1"), "http://mgmtapi:8080/api/v1/issuers/i-1/rotate-keys");
    assert_eq!(c.operation_task("t"), "http://mgmtapi:8080/api/v1/operation-tasks/t");
    let doc = read_json(200, br#"{"items":[]}"#).unwrap();
    assert!(doc.get("items").is_some());
    assert!(matches!(read_json(200, b"oops"), Err(CallError::Transport(_))));
    match read_json(404, b"missing") {
        Err(CallError::Status { status, body }) => {
            assert_eq!(status, 404);
            assert_eq!(body, "missing");
        }
        other => panic!("unexpected {other:?}"),
    }
}

fn pairs(items: &[(&str, &str)]) -> Vec<(String, String)> {
    items.iter().map(|(k, v)| (k.to_string(), v.to_string())).collect()
}

#[test]
fn credential_listing_passes_on_only_the_present_filters() {
    let c = MgmtApiClient::new("http://mgmtapi:8080");
    let all = ListQuery {
        limit: Some(10),
        cursor: Some("c-1".to_string()),
        state: Some("suspended".to_string()),
        vct: Some("urn:vct:x".to_string()),
    };
    let r = list_credentials_request(&c, "i-1", &all);
    assert_eq!(r.url, "http://mgmtapi:8080/api/v1/issuers/i-1/credentials");
    assert_eq!(
        r.query,
        pairs(&[("limit", "10"), ("cursor", "c-1"), ("state", "suspended"), ("vct", "urn:vct:x")])
    );
    let none = ListQuery { limit: None, cursor: None, state: None, vct: None };
    assert!(list_credentials_request(&c, "i-1", &none).query.is_empty());
    let state_only = ListQuery { limit: None, cursor: None, state: Some("active".to_string()), vct: None };
    assert_eq!(list_credentials_request(&c, "i-1", &state_only).query, pairs(&[("state", "active")]));
    let r = c.list_issued_credentials("i-1", None, None, None, Some("v"));
    assert_eq!(r.query, pairs(&[("vct", "v")]));
}

#[test]
fn credential_lifecycle_and_offer_cancel_urls() {
    let c = MgmtApiClient::new("http://mgmtapi:8080/");
    assert_eq!(c.issued_credential("i-1", "c-2"), "http://mgmtapi:8080/api/v1/issuers/i-1/credentials/c-2");
    assert_eq!(
        c.suspend_issued_credential("i-1", "c-2"),
        "http://mgmtapi:8080/api/v1/issuers/i-1/credentials/c-2/suspend"
    );
    assert_eq!(
        c.unsuspend_issued_credential("i-1", "c-2"),
        "http://mgmtapi:8080/api/v1/issuers/i-1/credentials/c-2/unsuspend"
    );
    assert_eq!(
        c.revoke_issued_credential("i-1", "c-2"),
        "http://mgmtapi:8080/api/v1/issuers/i-1/credentials/c-2/revoke"
    );
    assert_eq!(
        c.cancel_credential_offer("i-1", "o-3"),
        "http://mgmtapi:8080/api/v1/issuers/i-1/credential-offers/o-3/cancel"
    );
}
