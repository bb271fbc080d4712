use swiyu_issuer::api_management::jwks::KeyStep;
use swiyu_issuer::api_management::token_validator::{Principal, TokenError, TokenValidator};
use swiyu_issuer::domain::ids::TenantId;
use swiyu_issuer::test_support::tokens::{
    mint_first_party_token, mint_test_token, test_token_validator, TestToken, TEST_AUD, TEST_ISS,
    TEST_KID,
};
use swiyu_issuer::test_support::user_accounts::{provisioned_account, test_identity, SAMPLE_IDP_ISS};
use swiyu_issuer::domain::user_account::UserAccountState;

const NOW_SECS: i64 = 1_800_000_000;

/// Runs a token through the test validator, checking the signature against
/// the key the validator's key set holds for the token's `kid`.
fn authenticate(validator: &mut TokenValidator, token: &str) -> Result<Principal, TokenError> {
    let (parsed, kid) = TokenValidator::begin(token)?;
    match validator.jwks.lookup_step(&kid, 1) {
        KeyStep::Serve { .. } => {}
        _ => return Err(TokenError::Invalid),
    }
    let (jwk, _) = validator.jwks.read_kid(&kid, 1).unwrap();
    validator.verify_and_conclude(&parsed, jwk, NOW_SECS)
}

#[test]
fn first_party_token_authenticates_as_first_party() {
    let mut validator = test_token_validator(0);
    assert_eq!(validator.expected_iss, TEST_ISS);
    assert_eq!(validator.expected_aud, TEST_AUD);
    let token = mint_first_party_token().as_wire();
    assert_eq!(authenticate(&mut validator, &token), Ok(Principal::FirstParty));
}

#[test]
fn tenant_token_authenticates_as_its_tenant() {
    let mut validator = test_token_validator(0);
    let tenant = TenantId::generate().unwrap();
    let token = mint_test_token(&tenant).as_wire();
    assert_eq!(authenticate(&mut validator, &token), Ok(Principal::Tenant(tenant)));
}

#[test]
fn bogus_token_does_not_authenticate() {
    let mut validator = test_token_validator(0);
    let token = TestToken::bogus().unwrap().as_wire();
    assert_eq!(authenticate(&mut validator, &token), Err(TokenError::Invalid));
}

#[test]
fn test_token_carries_the_test_header_and_claims() {
    let token = mint_first_party_token().as_wire();
    let (parsed, kid) = TokenValidator::begin(&token).unwrap();
    assert_eq!(kid, TEST_KID);
    assert_eq!(parsed.alg, "EdDSA");
    assert_eq!(parsed.payload.get_str("azp"), Some("swiyu-issuer-web-bff"));
    assert_eq!(parsed.payload.get_str("principal_type"), Some("first-party"));
    assert_eq!(parsed.payload.get("tenant_id").is_none(), true);
    assert_eq!(parsed.payload.get_i64("exp"), Some(9_999_999_999));
}

#[test]
fn sample_identity_and_account() {
    let id = test_identity("user-1");
    assert_eq!(id.iss, SAMPLE_IDP_ISS);
    assert_eq!(id.sub, "user-1");
    let tenant = TenantId::generate().unwrap();
    let account = provisioned_account(&tenant, 42).unwrap();
    assert_eq!(account.tenant_id, tenant);
    assert_eq!(account.state, UserAccountState::Active);
    assert_eq!(account.provisioning_first_name.as_deref(), Some("First"));
    assert_eq!(account.provisioning_last_name.as_deref(), Some("Last"));
    assert!(account.identity.is_none());
    assert_eq!(account.created_at, 42);
}
