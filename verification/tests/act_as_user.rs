use swiyu_issuer::api_management::auth::{
    acting_user_context, claimed_tenant, first_party_context, HeaderText, TenantClaim,
};
use swiyu_issuer::api_management::error::ApiError;
use swiyu_issuer::api_management::jwks::KeyStep;
use swiyu_issuer::api_management::token_validator::{
    signature_valid, Principal, TokenError, TokenValidator,
};
use swiyu_issuer::domain::ids::{TenantId, UserAccountId};
use swiyu_issuer::domain::user_account::{UserAccount, UserAccountState};
use swiyu_issuer::test_support::tokens::{
    mint_act_as_user_token, mint_first_party_token, test_token_validator,
};
use swiyu_issuer::test_support::user_accounts::{provisioned_account, test_identity, SAMPLE_IDP_ISS};

const NOW_SECS: i64 = 1_800_000_000;

/// Verifies a token with the test validator, as the management API's
/// extractor does.
fn authenticate(validator: &mut TokenValidator, token: &str) -> Result<Principal, TokenError> {
    let (parsed, kid) = TokenValidator::begin(token)?;
    match validator.jwks.lookup_step(&kid, 1) {
        KeyStep::Serve { .. } => {}
        _ => return Err(TokenError::Invalid),
    }
    let (jwk, _) = validator.jwks.read_kid(&kid, 1).unwrap();
    validator.verify_and_conclude(&parsed, jwk, NOW_SECS)
}

/// An active account of `tenant_id` linked to `(SAMPLE_IDP_ISS, sub)`.
fn linked_account(tenant_id: &TenantId, sub: &str) -> UserAccount {
    let mut account = provisioned_account(tenant_id, 1).unwrap();
    account.identity = Some(test_identity(sub));
    account.linked_at = Some(2);
    account
}

/// Resolves the tenant of a request that carries `token` and, optionally, an
/// `X-User-Account` header; `lookup` plays the account store.
fn resolve(
    token: &str,
    x_user_account: Option<&str>,
    lookup: impl Fn(&UserAccountId) -> Option<UserAccount>,
) -> Result<TenantId, ApiError> {
    let mut validator = test_token_validator(0);
    let principal = authenticate(&mut validator, token).map_err(|_| ApiError::Unauthorised)?;
    let header = match x_user_account {
        Some(v) => HeaderText::Text(v.to_string()),
        None => HeaderText::Absent,
    };
    match claimed_tenant(principal, &HeaderText::Absent, &header)? {
        TenantClaim::ActingAccount { account_id, identity } => {
            let found = lookup(&account_id);
            acting_user_context(&account_id, &identity, found).map(|ctx| ctx.tenant_id)
        }
        TenantClaim::Named { .. } => panic!("an exchanged token names no tenant"),
    }
}

#[test]
fn act_as_user_reaches_a_tenant_scoped_endpoint() {
    let tenant_id = TenantId::generate().unwrap();
    let account = linked_account(&tenant_id, "u1");
    let bare = account.id.bare().to_string();
    let token = mint_act_as_user_token(SAMPLE_IDP_ISS, "u1");
    let resolved = resolve(&token.as_wire(), Some(&bare), |_| {
        Some(linked_account_with_id(&tenant_id, "u1", &bare))
    });
    assert_eq!(resolved.unwrap(), tenant_id);
}

#[test]
fn act_as_user_with_account_not_linked_to_the_token_identity_is_401() {
    let tenant_id = TenantId::generate().unwrap();
    let account = linked_account(&tenant_id, "u1");
    let bare = account.id.bare().to_string();
    let token = mint_act_as_user_token(SAMPLE_IDP_ISS, "u2");
    let resolved = resolve(&token.as_wire(), Some(&bare), |_| {
        Some(linked_account_with_id(&tenant_id, "u1", &bare))
    });
    assert!(matches!(resolved, Err(ApiError::Unauthorised)));
}

#[test]
fn act_as_user_without_x_user_account_header_is_401() {
    let tenant_id = TenantId::generate().unwrap();
    let account = linked_account(&tenant_id, "u1");
    let bare = account.id.bare().to_string();
    let token = mint_act_as_user_token(SAMPLE_IDP_ISS, "u1");
    let resolved = resolve(&token.as_wire(), None, |_| {
        Some(linked_account_with_id(&tenant_id, "u1", &bare))
    });
    assert!(matches!(resolved, Err(ApiError::Unauthorised)));
}

#[test]
fn act_as_user_on_a_deactivated_account_is_401() {
    let tenant_id = TenantId::generate().unwrap();
    let account = linked_account(&tenant_id, "u1");
    let bare = account.id.bare().to_string();
    let token = mint_act_as_user_token(SAMPLE_IDP_ISS, "u1");
    let resolved = resolve(&token.as_wire(), Some(&bare), |_| {
        let mut a = linked_account_with_id(&tenant_id, "u1", &bare);
        a.state = UserAccountState::Deactivated;
        Some(a)
    });
    assert!(matches!(resolved, Err(ApiError::Unauthorised)));
}

/// A copy of the linked account of `tenant_id` whose id is `bare`.
fn linked_account_with_id(tenant_id: &TenantId, sub: &str, bare: &str) -> UserAccount {
    let mut a = linked_account(&tenant_id.duplicate(), sub);
    a.id = UserAccountId::from_bare(bare).unwrap();
    a
}

#[test]
fn exchanged_token_authenticates_as_the_acting_user() {
    let mut validator = test_token_validator(0);
    let token = mint_act_as_user_token(SAMPLE_IDP_ISS, "u1").as_wire();
    assert_eq!(
        authenticate(&mut validator, &token),
        Ok(Principal::ActingUser(test_identity("u1")))
    );
}

#[test]
fn act_as_user_with_a_malformed_x_user_account_is_401() {
    let token = mint_act_as_user_token(SAMPLE_IDP_ISS, "u1").as_wire();
    let resolved = resolve(&token, Some("not an account id"), |_| None);
    assert!(matches!(resolved, Err(ApiError::Unauthorised)));
}

#[test]
fn act_as_user_on_an_unknown_account_is_401() {
    let tenant_id = TenantId::generate().unwrap();
    let bare = linked_account(&tenant_id, "u1").id.bare().to_string();
    let token = mint_act_as_user_token(SAMPLE_IDP_ISS, "u1").as_wire();
    assert!(matches!(resolve(&token, Some(&bare), |_| None), Err(ApiError::Unauthorised)));
}

#[test]
fn act_as_user_on_an_unlinked_account_is_401() {
    let tenant_id = TenantId::generate().unwrap();
    let account = provisioned_account(&tenant_id, 1).unwrap();
    let bare = account.id.bare().to_string();
    let token = mint_act_as_user_token(SAMPLE_IDP_ISS, "u1").as_wire();
    let resolved = resolve(&token, Some(&bare), |id| {
        let mut a = provisioned_account(&tenant_id, 1).unwrap();
        a.id = id.duplicate();
        Some(a)
    });
    assert!(matches!(resolved, Err(ApiError::Unauthorised)));
}

#[test]
fn acting_user_ignores_x_tenant() {
    let other = TenantId::generate().unwrap();
    let result = claimed_tenant(
        Principal::ActingUser(test_identity("u1")),
        &HeaderText::Text(other.to_string()),
        &HeaderText::Absent,
    );
    assert!(matches!(result, Err(ApiError::Unauthorised)));
}

#[test]
fn acting_user_is_not_first_party() {
    assert!(matches!(
        first_party_context(&Principal::ActingUser(test_identity("u1"))),
        Err(ApiError::Unauthorised)
    ));
    assert!(first_party_context(&Principal::FirstParty).is_ok());
}

#[test]
fn signature_check_accepts_only_the_signing_key() {
    let mut validator = test_token_validator(0);
    let token = mint_first_party_token().as_wire();
    let (parsed, kid) = TokenValidator::begin(&token).unwrap();
    assert!(matches!(validator.jwks.lookup_step(&kid, 1), KeyStep::Serve { .. }));
    let (jwk, _) = validator.jwks.read_kid(&kid, 1).unwrap();
    let input = parsed.signing_input.as_bytes();
    assert!(signature_valid(jwk, input, &parsed.signature));
    let mut tampered = parsed.signature.clone();
    tampered[0] ^= 1;
    assert!(!signature_valid(jwk, input, &tampered));
    assert!(!signature_valid(jwk, b"other input", &parsed.signature));
    assert!(!signature_valid(jwk, input, &parsed.signature[..63]));
    let no_key = swiyu_issuer::json::Json::Object(vec![]);
    assert!(!signature_valid(&no_key, input, &parsed.signature));
}
