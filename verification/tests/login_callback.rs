use swiyu_issuer::api_management::error::ApiError;
use swiyu_issuer::api_management::linking::{normalise_identity, normalise_idp_names};
use swiyu_issuer::api_management::normalise::{normalise_optional, normalise_required};
use swiyu_issuer::api_management::user_accounts::normalise_provisioning;
use swiyu_issuer::bff::login::{finish_login, verified_user, IdTokenCheck, LoginError, TokenGrant, VerifiedUser};
use swiyu_issuer::bff::pending::PendingLogin;
use swiyu_issuer::bff::routes::auth::CallbackQuery;
use swiyu_issuer::bff::routes::callback::{callback_step, CallbackAction, CallbackEvent, CallbackState};
use swiyu_issuer::domain::invitation_code::InvitationCode;
use swiyu_issuer::json::Json;

fn s(v: &str) -> Json {
    Json::Str(v.to_string())
}

fn resolved(states: &[(&str, &str)]) -> Json {
    let items = states
        .iter()
        .map(|(id, state)| {
            Json::Object(vec![
                ("id".to_string(), s(id)),
                ("tenant_id".to_string(), s("t-1")),
                ("state".to_string(), s(state)),
            ])
        })
        .collect();
    Json::Object(vec![("items".to_string(), Json::Array(items))])
}

fn query(code: Option<&str>, state: Option<&str>, error: Option<&str>) -> CallbackQuery {
    CallbackQuery {
        code: code.map(str::to_string),
        state: state.map(str::to_string),
        error: error.map(str::to_string),
        error_description: None,
    }
}

fn pending() -> PendingLogin {
    PendingLogin {
        nonce: "n-1".to_string(),
        pkce_verifier: "v-1".to_string(),
        return_to: "/issuers".to_string(),
        created_at: 0,
    }
}

fn verified() -> VerifiedUser {
    VerifiedUser {
        iss: "https://idp".to_string(),
        sub: "u-1".to_string(),
        access_token: "at".to_string(),
        refresh_token: Some("rt".to_string()),
        id_token: "idt".to_string(),
        access_expiry_unix: 500,
    }
}

fn redirect_of(step: (CallbackState, CallbackAction)) -> String {
    match step {
        (CallbackState::Done, CallbackAction::Redirect { location }) => location,
        other => panic!("expected a final redirect, got {other:?}"),
    }
}

/// Runs the callback up to its login completion.
fn until_login(q: CallbackQuery) -> CallbackState {
    let (st, action) = callback_step(CallbackState::Start, CallbackEvent::Start(q));
    assert!(matches!(action, CallbackAction::TakePending { ref state } if state == "s-1"));
    let (st, action) = callback_step(st, CallbackEvent::PendingTaken(Some(pending())));
    match action {
        CallbackAction::CompleteLogin { code, pending } => {
            assert_eq!(code, "c-1");
            assert_eq!(pending.nonce, "n-1");
        }
        other => panic!("expected login completion, got {other:?}"),
    }
    st
}

#[test]
fn callback_walks_to_the_return_path() {
    let st = until_login(query(Some("c-1"), Some("s-1"), None));
    let (st, action) = callback_step(st, CallbackEvent::LoginCompleted(Ok(verified())));
    assert!(matches!(action, CallbackAction::Resolve { ref iss, ref sub } if iss == "https://idp" && sub == "u-1"));
    let (st, action) = callback_step(
        st,
        CallbackEvent::Resolved { accounts: Some(resolved(&[("b", "deactivated"), ("a", "active")])), now: 100 },
    );
    match &action {
        CallbackAction::StoreSession { data } => {
            assert_eq!(data.selected_account_id, "a");
            assert_eq!(data.kc_refresh_token, "rt");
            assert_eq!(data.logged_in_at_unix, 100);
        }
        other => panic!("expected the session to be stored, got {other:?}"),
    }
    assert_eq!(redirect_of(callback_step(st, CallbackEvent::SessionStored(true))), "/issuers");
}

#[test]
fn callback_error_paths() {
    assert_eq!(
        redirect_of(callback_step(CallbackState::Start, CallbackEvent::Start(query(Some("c"), Some("s"), Some("access_denied"))))),
        "/login?error=idp"
    );
    assert_eq!(
        redirect_of(callback_step(CallbackState::Start, CallbackEvent::Start(query(None, Some("s"), None)))),
        "/login?error=state"
    );
    let (st, _) = callback_step(CallbackState::Start, CallbackEvent::Start(query(Some("c-1"), Some("s-1"), None)));
    assert_eq!(redirect_of(callback_step(st, CallbackEvent::PendingTaken(None))), "/login?error=state");

    let st = until_login(query(Some("c-1"), Some("s-1"), None));
    assert_eq!(
        redirect_of(callback_step(st, CallbackEvent::LoginCompleted(Err(LoginError::NoIdToken)))),
        "/login?error=idp"
    );

    let st = until_login(query(Some("c-1"), Some("s-1"), None));
    let (st, _) = callback_step(st, CallbackEvent::LoginCompleted(Ok(verified())));
    assert_eq!(
        redirect_of(callback_step(st, CallbackEvent::Resolved { accounts: None, now: 1 })),
        "/login?error=unavailable"
    );

    let st = until_login(query(Some("c-1"), Some("s-1"), None));
    let (st, _) = callback_step(st, CallbackEvent::LoginCompleted(Ok(verified())));
    assert_eq!(
        redirect_of(callback_step(
            st,
            CallbackEvent::Resolved { accounts: Some(resolved(&[("b", "deactivated")])), now: 1 }
        )),
        "/login?error=no_access"
    );

    let st = until_login(query(Some("c-1"), Some("s-1"), None));
    let (st, _) = callback_step(st, CallbackEvent::LoginCompleted(Ok(verified())));
    let (st, _) = callback_step(st, CallbackEvent::Resolved { accounts: Some(resolved(&[("a", "active")])), now: 1 });
    assert_eq!(redirect_of(callback_step(st, CallbackEvent::SessionStored(false))), "/login?error=unavailable");
}

#[test]
fn callback_event_out_of_order_is_unavailable() {
    assert_eq!(
        redirect_of(callback_step(CallbackState::Start, CallbackEvent::SessionStored(true))),
        "/login?error=unavailable"
    );
    assert_eq!(
        redirect_of(callback_step(CallbackState::Done, CallbackEvent::PendingTaken(Some(pending())))),
        "/login?error=unavailable"
    );
}

fn grant(id_token: Option<&str>, expires_in: Option<u64>) -> TokenGrant {
    TokenGrant {
        access_token: "at".to_string(),
        refresh_token: None,
        id_token: id_token.map(str::to_string),
        expires_in_secs: expires_in,
    }
}

fn check() -> IdTokenCheck {
    IdTokenCheck {
        keys_json: r#"{"keys":[]}"#.to_string(),
        algs_json: r#"["RS256"]"#.to_string(),
        issuer: "https://idp".to_string(),
        client_id: "web".to_string(),
        client_secret: "secret".to_string(),
    }
}

#[test]
fn verified_user_carries_the_grant() {
    let u = verified_user(Some(("https://idp".to_string(), "u-7".to_string())), grant(None, Some(300)), "idt".to_string(), 1_000)
        .unwrap();
    assert_eq!(u.iss, "https://idp");
    assert_eq!(u.sub, "u-7");
    assert_eq!(u.access_token, "at");
    assert_eq!(u.id_token, "idt");
    assert_eq!(u.access_expiry_unix, 1_300);
    assert!(matches!(
        verified_user(None, grant(None, None), "idt".to_string(), 1),
        Err(LoginError::IdToken(_))
    ));
}

#[test]
fn login_without_an_id_token_or_with_a_bad_one_fails() {
    assert!(matches!(finish_login(grant(None, None), &check(), &pending(), 1), Err(LoginError::NoIdToken)));
    assert!(matches!(
        finish_login(grant(Some("not.a.jwt"), None), &check(), &pending(), 1),
        Err(LoginError::IdToken(_))
    ));
}

#[test]
fn required_fields_are_trimmed_and_capped() {
    assert_eq!(normalise_required("iss", "  https://idp \n", 20).unwrap(), "https://idp");
    match normalise_required("sub", "   ", 20) {
        Err(ApiError::InvalidInput { details }) => assert_eq!(details, "sub must not be empty"),
        other => panic!("unexpected: {other:?}"),
    }
    match normalise_required("sub", "abcdef", 5) {
        Err(ApiError::InvalidInput { details }) => assert_eq!(details, "sub must be at most 5 characters"),
        other => panic!("unexpected: {other:?}"),
    }
    assert_eq!(normalise_required("sub", " abcde ", 5).unwrap(), "abcde");
}

#[test]
fn optional_fields_treat_blank_as_absent() {
    assert_eq!(normalise_optional("f", None, 3).unwrap(), None);
    assert_eq!(normalise_optional("f", Some(" \t "), 3).unwrap(), None);
    assert_eq!(normalise_optional("f", Some(" ab "), 3).unwrap(), Some("ab".to_string()));
    assert!(matches!(normalise_optional("f", Some("abcd"), 3), Err(ApiError::InvalidInput { .. })));
}

#[test]
fn provisioning_and_identity_fields_are_normalised() {
    let (f, l, h) = normalise_provisioning(Some(" Ada "), None, Some("  ")).unwrap();
    assert_eq!(f.as_deref(), Some("Ada"));
    assert_eq!(l, None);
    assert_eq!(h, None);
    let long = "x".repeat(256);
    match normalise_provisioning(None, Some(&long), Some(&long)) {
        Err(ApiError::InvalidInput { details }) => {
            assert_eq!(details, "provisioning_last_name must be at most 255 characters")
        }
        other => panic!("unexpected: {other:?}"),
    }
    assert!(normalise_provisioning(Some(&"x".repeat(255)), None, None).is_ok());

    let id = normalise_identity(" https://idp ", "u-1\n").unwrap();
    assert_eq!(id.iss, "https://idp");
    assert_eq!(id.sub, "u-1");
    match normalise_identity("https://idp", "") {
        Err(ApiError::InvalidInput { details }) => assert_eq!(details, "sub must not be empty"),
        other => panic!("unexpected: {other:?}"),
    }
    assert!(normalise_identity(&"i".repeat(2_049), "u").is_err());
    let (a, b) = normalise_idp_names(Some(" Ada "), Some("")).unwrap();
    assert_eq!(a.as_deref(), Some("Ada"));
    assert_eq!(b, None);
}

#[test]
fn generated_code_never_shows_in_its_rendering() {
    for _ in 0..20 {
        let code = InvitationCode::generate().unwrap();
        let rendering = code.debug_repr();
        assert!(!rendering.contains(code.as_str()));
        assert!(rendering.contains("redacted"));
        assert!(code.as_str().len() >= 16);
        assert!(code
            .as_str()
            .chars()
            .all(|c| c.is_ascii_alphanumeric() && !matches!(c, '0' | 'O' | 'I' | 'l')));
    }
}
