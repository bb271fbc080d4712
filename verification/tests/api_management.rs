use swiyu_issuer::api_management::auth::{
    claimed_tenant, extract_bearer, first_party_context, issuer_ownership, require_x_tenant,
    tenant_context, HeaderText, TenantClaim, TenantSource,
};
use swiyu_issuer::api_management::error::ApiError;
use swiyu_issuer::api_management::invitations::{
    build_invitation_link, check_invitable, invitation_to_response, observed_state,
    pending_invitation, resolve_invitation_expires_in, revocable, revoked,
    DEFAULT_INVITATION_EXPIRES_IN_SECONDS, MAX_INVITATION_EXPIRES_IN_SECONDS,
    MICROS_PER_SECOND, MIN_INVITATION_EXPIRES_IN_SECONDS,
};
use swiyu_issuer::api_management::linking::{linkable, redeemable};
use swiyu_issuer::api_management::token_validator::Principal;
use swiyu_issuer::api_management::user_accounts::{
    apply_provisioning_update, merge_attribute, provision_account, user_account_to_response,
};
use swiyu_issuer::domain::ids::{InvitationId, TenantId, UserAccountId};
use swiyu_issuer::domain::invitation::{Invitation, InvitationState};
use swiyu_issuer::domain::invitation_code::InvitationCode;
use swiyu_issuer::domain::user_account::{UserAccountState, UserIdentity};

fn text(v: &str) -> HeaderText {
    HeaderText::Text(v.to_string())
}

#[test]
fn extract_bearer_returns_credential_verbatim() {
    assert_eq!(extract_bearer(&text("Bearer aaa.bbb.ccc")).unwrap(), "aaa.bbb.ccc");
}

#[test]
fn extract_bearer_rejects_missing_header() {
    assert!(extract_bearer(&HeaderText::Absent).is_err());
}

#[test]
fn extract_bearer_rejects_basic_scheme() {
    assert!(extract_bearer(&text("Basic dXNlcjpwYXNz")).is_err());
}

#[test]
fn extract_bearer_rejects_opaque_value() {
    assert!(matches!(extract_bearer(&HeaderText::Opaque), Err(ApiError::Unauthorised)));
    assert!(matches!(extract_bearer(&text("bearer x")), Err(ApiError::Unauthorised)));
}

#[test]
fn require_x_tenant_parses_prefixed_id() {
    let tenant_id = TenantId::generate().unwrap();
    assert_eq!(require_x_tenant(&text(&tenant_id.to_string())).unwrap(), tenant_id);
}

#[test]
fn require_x_tenant_rejects_missing_header() {
    assert!(matches!(
        require_x_tenant(&HeaderText::Absent),
        Err(ApiError::InvalidInput { .. })
    ));
}

#[test]
fn require_x_tenant_rejects_bare_id_without_prefix() {
    assert!(matches!(
        require_x_tenant(&text("9hXq2vRtL8pK7f")),
        Err(ApiError::InvalidInput { .. })
    ));
}

#[test]
fn require_x_tenant_rejects_malformed_value() {
    assert!(matches!(
        require_x_tenant(&text("not a tenant id")),
        Err(ApiError::InvalidInput { .. })
    ));
}

#[test]
fn x_tenant_header_is_inert_on_a_tenant_token() {
    let own = TenantId::generate().unwrap();
    let other = TenantId::generate().unwrap();
    match claimed_tenant(
        Principal::Tenant(own.duplicate()),
        &text(&other.to_string()),
        &HeaderText::Absent,
    ) {
        Ok(TenantClaim::Named { tenant_id, source }) => {
            assert_eq!(tenant_id, own);
            assert_eq!(source, TenantSource::Token);
        }
        other => panic!("unexpected claim: {other:?}"),
    }
    match claimed_tenant(Principal::FirstParty, &text(&other.to_string()), &HeaderText::Absent) {
        Ok(TenantClaim::Named { tenant_id, source }) => {
            assert_eq!(tenant_id, other);
            assert_eq!(source, TenantSource::Header);
        }
        other => panic!("unexpected claim: {other:?}"),
    }
    assert!(claimed_tenant(Principal::FirstParty, &HeaderText::Absent, &HeaderText::Absent).is_err());
}

#[test]
fn phantom_tenant_is_401_from_a_token_and_404_from_a_header() {
    let t = TenantId::generate().unwrap();
    assert!(matches!(
        tenant_context((t.duplicate(), TenantSource::Token), false),
        Err(ApiError::Unauthorised)
    ));
    assert!(matches!(
        tenant_context((t.duplicate(), TenantSource::Header), false),
        Err(ApiError::NotFound)
    ));
    assert_eq!(tenant_context((t.duplicate(), TenantSource::Header), true).unwrap().tenant_id, t);
}

#[test]
fn first_party_context_requires_a_first_party_token() {
    assert!(first_party_context(&Principal::FirstParty).is_ok());
    let t = TenantId::generate().unwrap();
    assert!(matches!(first_party_context(&Principal::Tenant(t)), Err(ApiError::Unauthorised)));
    assert!(issuer_ownership(true).is_ok());
    assert!(matches!(issuer_ownership(false), Err(ApiError::NotFound)));
}

#[test]
fn resolve_expires_in_defaults_when_absent() {
    let d = resolve_invitation_expires_in(None).unwrap();
    assert_eq!(d, i64::from(DEFAULT_INVITATION_EXPIRES_IN_SECONDS));
}

#[test]
fn resolve_expires_in_rejects_below_min() {
    assert!(matches!(
        resolve_invitation_expires_in(Some(MIN_INVITATION_EXPIRES_IN_SECONDS - 1)),
        Err(ApiError::InvalidInput { .. })
    ));
}

#[test]
fn resolve_expires_in_rejects_above_max() {
    assert!(matches!(
        resolve_invitation_expires_in(Some(MAX_INVITATION_EXPIRES_IN_SECONDS + 1)),
        Err(ApiError::InvalidInput { .. })
    ));
}

#[test]
fn resolve_expires_in_accepts_the_bounds() {
    assert_eq!(
        resolve_invitation_expires_in(Some(MIN_INVITATION_EXPIRES_IN_SECONDS)).unwrap(),
        3_600
    );
    assert_eq!(
        resolve_invitation_expires_in(Some(MAX_INVITATION_EXPIRES_IN_SECONDS)).unwrap(),
        2_592_000
    );
}

#[test]
fn build_link_carries_invitation_and_code() {
    let id = InvitationId::generate().unwrap();
    let code = InvitationCode::generate().unwrap();
    let link = build_invitation_link("https://web.example/", &id, &code);
    assert!(link.starts_with("https://web.example/invitations/accept?"));
    assert!(link.contains(&format!("invitation={}", id.bare())));
    assert!(link.contains(&format!("code={}", code.as_str())));
}

#[test]
fn build_link_exact_text() {
    let id = InvitationId::from_bare("9hXq2vRtL8pK7f").unwrap();
    let code = InvitationCode::from_wire("c0de");
    assert_eq!(
        build_invitation_link("https://web.example//", &id, &code),
        "https://web.example/invitations/accept?invitation=9hXq2vRtL8pK7f&code=c0de"
    );
}

fn invitation(now: i64) -> Invitation {
    pending_invitation(
        InvitationId::generate().unwrap(),
        UserAccountId::generate().unwrap(),
        TenantId::generate().unwrap(),
        now,
        3_600,
    )
}

#[test]
fn pending_invitation_expires_after_the_lifetime() {
    let inv = invitation(1_000);
    assert_eq!(inv.state, InvitationState::Pending);
    assert_eq!(inv.created_at, 1_000);
    assert_eq!(inv.expires_at, 1_000 + 3_600 * MICROS_PER_SECOND);
    assert_eq!(observed_state(&inv, inv.expires_at - 1), InvitationState::Pending);
    assert_eq!(observed_state(&inv, inv.expires_at), InvitationState::Expired);
    let response = invitation_to_response(inv, 5_000_000_000);
    assert_eq!(response.state, "expired");
}

#[test]
fn expired_invitation_stays_expired_and_cannot_be_redeemed() {
    let inv = invitation(0);
    let id = inv.id.duplicate();
    let later = inv.expires_at + 10;
    assert_eq!(observed_state(&inv, later), InvitationState::Expired);
    assert_eq!(observed_state(&inv, later + 1_000_000), InvitationState::Expired);
    assert!(matches!(redeemable(Some(inv), &id, later), Err(ApiError::Conflict { .. })));
}

#[test]
fn redeem_requires_the_named_invitation() {
    let inv = invitation(0);
    let other = InvitationId::generate().unwrap();
    assert!(matches!(redeemable(None, &other, 1), Err(ApiError::NotFound)));
    assert!(matches!(redeemable(Some(inv), &other, 1), Err(ApiError::NotFound)));
    let inv = invitation(0);
    let id = inv.id.duplicate();
    assert!(redeemable(Some(inv), &id, 1).is_ok());
}

#[test]
fn revoke_is_tenant_scoped_and_final() {
    let inv = invitation(0);
    let tenant = inv.tenant_id.duplicate();
    let stranger = TenantId::generate().unwrap();
    assert!(matches!(revocable(Some(invitation(0)), &stranger, 1), Err(ApiError::NotFound)));
    let inv = revocable(Some(inv), &tenant, 1).unwrap();
    let id = inv.id.duplicate();
    let gone = revoked(inv, 2);
    assert_eq!(gone.state, InvitationState::Revoked);
    assert_eq!(gone.revoked_at, Some(2));
    assert!(matches!(revocable(Some(gone), &tenant, 3), Err(ApiError::Conflict { .. })));
    let _ = id;
    let gone = revoked(invitation(0), 2);
    let gone_id = gone.id.duplicate();
    assert!(matches!(redeemable(Some(gone), &gone_id, 3), Err(ApiError::Conflict { .. })));
}

#[test]
fn linked_account_cannot_be_invited_or_linked_again() {
    let tenant = TenantId::generate().unwrap();
    let account = provision_account(
        UserAccountId::generate().unwrap(),
        tenant.duplicate(),
        Some("Ada".to_string()),
        None,
        None,
        7,
    );
    assert_eq!(account.state, UserAccountState::Active);
    assert!(check_invitable(&Some(account)).is_ok());
    assert!(matches!(check_invitable(&None), Err(ApiError::NotFound)));
    let mut linked = provision_account(
        UserAccountId::generate().unwrap(),
        tenant,
        None,
        None,
        None,
        7,
    );
    linked.identity = Some(UserIdentity { iss: "i".to_string(), sub: "s".to_string() });
    assert!(matches!(check_invitable(&Some(linked)), Err(ApiError::Conflict { .. })));
    assert!(matches!(linkable(None), Err(ApiError::NotFound)));
}

#[test]
fn patch_merges_provided_values_over_stored_ones() {
    assert_eq!(merge_attribute(Some("a".to_string()), Some("b".to_string())), Some("a".to_string()));
    assert_eq!(merge_attribute(None, Some("b".to_string())), Some("b".to_string()));
    assert_eq!(merge_attribute(None, None), None);
    let account = provision_account(
        UserAccountId::generate().unwrap(),
        TenantId::generate().unwrap(),
        Some("Ada".to_string()),
        Some("Byron".to_string()),
        None,
        7,
    );
    let updated = apply_provisioning_update(account, None, Some("Lovelace".to_string()), None);
    assert_eq!(updated.provisioning_first_name.as_deref(), Some("Ada"));
    assert_eq!(updated.provisioning_last_name.as_deref(), Some("Lovelace"));
    assert_eq!(updated.provisioning_home_organization, None);
    let response = user_account_to_response(updated, Some("Acme".to_string()));
    assert_eq!(response.state, "active");
    assert_eq!(response.tenant_display_name.as_deref(), Some("Acme"));
    assert!(response.identity.is_none());
}

#[test]
fn resolve_expires_in_reports_the_requested_value() {
    match resolve_invitation_expires_in(Some(5)) {
        Err(ApiError::InvalidInput { details }) => assert_eq!(
            details,
            "expires_in_seconds must be between 3600 and 2592000, got 5"
        ),
        other => panic!("unexpected {other:?}"),
    }
}

#[test]
fn invitation_link_code_hashes_to_the_stored_hash() {
    let id = InvitationId::generate().unwrap();
    let code = InvitationCode::generate().unwrap();
    let stored = swiyu_issuer::domain::invitation_code::InvitationCodeHash::from_code(&code);
    let link = build_invitation_link("https://web.example//", &id, &code);
    let (head, redeemed) = link.rsplit_once("&code=").unwrap();
    assert!(head.ends_with(&format!("?invitation={}", id.bare())));
    let rebuilt = swiyu_issuer::domain::invitation_code::InvitationCodeHash::from_code(
        &InvitationCode::from_wire(redeemed),
    );
    assert!(rebuilt.same(&stored));
    assert_eq!(rebuilt.as_str(), stored.as_str());
}
