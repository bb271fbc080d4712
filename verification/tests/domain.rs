use swiyu_issuer::domain::ids::{InvitationId, TenantId, UserAccountId};
use swiyu_issuer::domain::invitation::InvitationState;
use swiyu_issuer::domain::invitation_code::{InvitationCode, InvitationCodeHash};
use swiyu_issuer::domain::user_account::{UserAccountState, UserIdentity};
use swiyu_issuer::domain::DomainError;

#[test]
fn invitation_state_round_trips_through_str() {
    for state in [
        InvitationState::Pending,
        InvitationState::Accepted,
        InvitationState::Revoked,
        InvitationState::Expired,
    ] {
        assert_eq!(InvitationState::from_str(state.as_str()).unwrap(), state);
    }
}

#[test]
fn invitation_state_parse_rejects_unknown() {
    assert!(matches!(
        InvitationState::from_str("draft"),
        Err(DomainError::InvalidInput { .. })
    ));
}

#[test]
fn only_pending_is_non_terminal() {
    assert!(!InvitationState::Pending.is_terminal());
    for state in [
        InvitationState::Accepted,
        InvitationState::Revoked,
        InvitationState::Expired,
    ] {
        assert!(state.is_terminal());
    }
}

#[test]
fn user_account_state_round_trips_through_str() {
    for state in [UserAccountState::Active, UserAccountState::Deactivated] {
        assert_eq!(UserAccountState::from_str(state.as_str()).unwrap(), state);
    }
}

#[test]
fn user_account_state_parse_rejects_unknown() {
    assert!(matches!(
        UserAccountState::from_str("retired"),
        Err(DomainError::InvalidInput { .. })
    ));
}

#[test]
fn deactivated_is_terminal_active_is_not() {
    assert!(UserAccountState::Deactivated.is_terminal());
    assert!(!UserAccountState::Active.is_terminal());
}

#[test]
fn identity_assembles_when_both_present() {
    let identity =
        UserIdentity::from_columns(Some("iss".to_string()), Some("sub".to_string())).unwrap();
    assert_eq!(
        identity,
        Some(UserIdentity {
            iss: "iss".to_string(),
            sub: "sub".to_string()
        })
    );
}

#[test]
fn identity_is_none_when_both_absent() {
    assert_eq!(UserIdentity::from_columns(None, None).unwrap(), None);
}

#[test]
fn identity_half_populated_pair_is_an_error() {
    assert!(UserIdentity::from_columns(Some("iss".to_string()), None).is_err());
    assert!(UserIdentity::from_columns(None, Some("sub".to_string())).is_err());
}

#[test]
fn state_texts_are_the_stored_words() {
    assert_eq!(InvitationState::Pending.as_str(), "pending");
    assert_eq!(InvitationState::Accepted.as_str(), "accepted");
    assert_eq!(InvitationState::Revoked.as_str(), "revoked");
    assert_eq!(InvitationState::Expired.as_str(), "expired");
    assert_eq!(UserAccountState::Active.as_str(), "active");
    assert_eq!(UserAccountState::Deactivated.as_str(), "deactivated");
}

#[test]
fn generated_codes_are_distinct() {
    let a = InvitationCode::generate().unwrap();
    let b = InvitationCode::generate().unwrap();
    assert_ne!(a.as_str(), b.as_str());
}

#[test]
fn hash_is_deterministic() {
    let code = InvitationCode::generate().unwrap();
    assert_eq!(
        InvitationCodeHash::from_code(&code),
        InvitationCodeHash::from_code(&code)
    );
}

#[test]
fn hash_matches_for_reconstructed_code() {
    let code = InvitationCode::generate().unwrap();
    let stored = InvitationCodeHash::from_code(&code);
    let presented = InvitationCode::from_wire(code.as_str());
    assert_eq!(stored, InvitationCodeHash::from_code(&presented));
}

#[test]
fn hash_differs_for_different_codes() {
    let stored = InvitationCodeHash::from_code(&InvitationCode::generate().unwrap());
    let other = InvitationCode::generate().unwrap();
    assert_ne!(stored, InvitationCodeHash::from_code(&other));
}

#[test]
fn debug_does_not_reveal_code() {
    let code = InvitationCode::generate().unwrap();
    let rendered = code.debug_repr();
    assert!(!rendered.contains(code.as_str()));
    assert!(rendered.contains("redacted"));
}

#[test]
fn code_hash_is_base58_of_sha256() {
    // SHA-256 of "abc", base58-encoded.
    let code = InvitationCode::from_wire("abc");
    let hash = InvitationCodeHash::from_code(&code);
    let digest: [u8; 32] = [
        0xba, 0x78, 0x16, 0xbf, 0x8f, 0x01, 0xcf, 0xea, 0x41, 0x41, 0x40, 0xde, 0x5d, 0xae, 0x22,
        0x23, 0xb0, 0x03, 0x61, 0xa3, 0x96, 0x17, 0x7a, 0x9c, 0xb4, 0x10, 0xff, 0x61, 0xf2, 0x00,
        0x15, 0xad,
    ];
    assert_eq!(hash.as_str(), bs58::encode(digest).into_string());
    assert_ne!(hash.as_str(), "abc");
}

#[test]
fn stored_hash_round_trips() {
    let hash = InvitationCodeHash::from_stored("xyz");
    assert_eq!(hash.as_str(), "xyz");
    assert!(hash.same(&InvitationCodeHash::from_stored("xyz")));
    assert!(!hash.same(&InvitationCodeHash::from_stored("xyZ")));
}

#[test]
fn generated_code_is_base58_of_sixteen_bytes() {
    let code = InvitationCode::generate().unwrap();
    let bytes = bs58::decode(code.as_str()).into_vec().unwrap();
    assert_eq!(bytes.len(), 16);
}

#[test]
fn ids_round_trip_through_their_wire_form() {
    let t = TenantId::generate().unwrap();
    let wire = t.to_string();
    assert!(wire.starts_with("tenant_"));
    assert_eq!(TenantId::parse(&wire).unwrap(), t);
    assert_eq!(TenantId::from_bare(t.bare()).unwrap(), t);

    let a = UserAccountId::generate().unwrap();
    assert!(a.to_string().starts_with("account_"));
    assert_eq!(UserAccountId::parse(&a.to_string()).unwrap(), a);

    let i = InvitationId::generate().unwrap();
    assert!(i.to_string().starts_with("invite_"));
    assert_eq!(InvitationId::parse(&i.to_string()).unwrap(), i);
}

#[test]
fn ids_reject_malformed_input() {
    assert!(TenantId::parse("9hXq2vRtL8pK7f").is_err());
    assert!(TenantId::parse("account_9hXq2vRtL8pK7f").is_err());
    assert!(TenantId::parse("not a tenant id").is_err());
    assert!(TenantId::from_bare("").is_err());
    assert!(TenantId::from_bare("0OIl").is_err());
}

#[test]
fn bare_id_is_ten_bytes_base58() {
    let t = TenantId::generate().unwrap();
    let bytes = bs58::decode(t.bare()).into_vec().unwrap();
    assert_eq!(bytes.len(), 10);
}

use swiyu_issuer::domain::invitation::{Invitation, InvitationRow};
use swiyu_issuer::domain::user_account::{UserAccount, UserAccountRow};

fn account_row() -> UserAccountRow {
    UserAccountRow {
        id: UserAccountId::generate().unwrap().bare().to_string(),
        tenant_id: TenantId::generate().unwrap().bare().to_string(),
        provisioning_first_name: Some("First".to_string()),
        provisioning_last_name: None,
        provisioning_home_organization: None,
        state: "active".to_string(),
        identity_iss: Some("iss".to_string()),
        identity_sub: Some("sub".to_string()),
        idp_first_name: None,
        idp_last_name: None,
        linked_at: Some(5),
        created_at: 3,
    }
}

#[test]
fn account_row_decodes() {
    let row = account_row();
    let id = row.id.clone();
    let account = UserAccount::from_row(row).unwrap();
    assert_eq!(account.id.bare(), id);
    assert_eq!(account.state, UserAccountState::Active);
    assert_eq!(
        account.identity,
        Some(UserIdentity { iss: "iss".to_string(), sub: "sub".to_string() })
    );
    assert_eq!(account.linked_at, Some(5));
}

#[test]
fn account_row_rejects_bad_columns() {
    let mut row = account_row();
    row.identity_sub = None;
    assert!(UserAccount::from_row(row).is_err());
    let mut row = account_row();
    row.state = "retired".to_string();
    assert!(UserAccount::from_row(row).is_err());
    let mut row = account_row();
    row.tenant_id = "tenant_x".to_string();
    assert!(UserAccount::from_row(row).is_err());
}

#[test]
fn invitation_row_decodes() {
    let row = InvitationRow {
        id: InvitationId::generate().unwrap().bare().to_string(),
        user_account_id: UserAccountId::generate().unwrap().bare().to_string(),
        tenant_id: TenantId::generate().unwrap().bare().to_string(),
        state: "revoked".to_string(),
        expires_at: 10,
        created_at: 1,
        accepted_at: None,
        revoked_at: Some(4),
    };
    let inv = Invitation::from_row(row).unwrap();
    assert_eq!(inv.state, InvitationState::Revoked);
    assert_eq!(inv.revoked_at, Some(4));
    let bad = InvitationRow {
        id: "".to_string(),
        user_account_id: String::new(),
        tenant_id: String::new(),
        state: "pending".to_string(),
        expires_at: 0,
        created_at: 0,
        accepted_at: None,
        revoked_at: None,
    };
    assert!(Invitation::from_row(bad).is_err());
}
