//! Invitation logic of the tenant-scoped endpoints (create, list, revoke):
//! lifetimes, links, and the lazily-projected expiry.

use vstd::prelude::*;

use super::error::ApiError;
use crate::domain::ids::{InvitationId, TenantId, UserAccountId, wire_id};
use crate::domain::invitation::{Invitation, InvitationState};
use crate::domain::invitation_code::{code_hash_text, InvitationCode};
use crate::domain::user_account::UserAccount;
use crate::text::{concat2, concat3, decimal, decimal_text, owned, trim_end_char, trim_end_slashes};

verus! {

/// Lifetime of an invitation when the caller gives none: a week.
pub const DEFAULT_INVITATION_EXPIRES_IN_SECONDS: u32 = 604_800;
/// Shortest accepted lifetime: an hour.
pub const MIN_INVITATION_EXPIRES_IN_SECONDS: u32 = 3_600;
/// Longest accepted lifetime: thirty days.
pub const MAX_INVITATION_EXPIRES_IN_SECONDS: u32 = 2_592_000;

/// Microseconds per second.
pub const MICROS_PER_SECOND: i64 = 1_000_000;

/// The lifetime, in seconds, of a new invitation: the requested one, or the
/// default when none is requested; outside `[MIN, MAX]` it is invalid input.
pub fn resolve_invitation_expires_in(requested: Option<u32>) -> (r: Result<i64, ApiError>)
    ensures
        ({
            let seconds = match requested {
                Some(s) => s,
                None => DEFAULT_INVITATION_EXPIRES_IN_SECONDS,
            };
            match r {
                Ok(d) => MIN_INVITATION_EXPIRES_IN_SECONDS <= seconds <= MAX_INVITATION_EXPIRES_IN_SECONDS
                    && d == seconds,
                Err(e) => !(MIN_INVITATION_EXPIRES_IN_SECONDS <= seconds <= MAX_INVITATION_EXPIRES_IN_SECONDS)
                    && (e matches ApiError::InvalidInput { details } && details@
                    == "expires_in_seconds must be between 3600 and 2592000, got "@ + decimal_text(seconds as nat)),
            }
        }),
{
    let seconds = match requested {
        Some(s) => s,
        None => DEFAULT_INVITATION_EXPIRES_IN_SECONDS,
    };
    if seconds < MIN_INVITATION_EXPIRES_IN_SECONDS || seconds > MAX_INVITATION_EXPIRES_IN_SECONDS {
        let got = decimal(seconds as u64);
        return Err(ApiError::InvalidInput {
            details: concat2("expires_in_seconds must be between 3600 and 2592000, got ", got.as_str()),
        });
    }
    Ok(seconds as i64)
}

/// The path on the web front end that an invitation link points at.
pub open spec fn accept_path() -> Seq<char> {
    "/invitations/accept"@
}

/// The invitation link handed to the user:
/// `<web base without trailing slashes>/invitations/accept?invitation=<bare id>&code=<code>`.
pub open spec fn invitation_link(web_base_url: Seq<char>, bare_id: Seq<char>, code: Seq<char>) -> Seq<char> {
    trim_end_char(web_base_url, '/') + accept_path() + "?invitation="@ + bare_id + "&code="@ + code
}

/// `s` ends with `suffix`.
pub open spec fn ends_with(s: Seq<char>, suffix: Seq<char>) -> bool {
    suffix.len() <= s.len() && s.subrange(s.len() - suffix.len(), s.len() as int) == suffix
}

/// An invitation link resolves to its invitation's stored hash: the link names
/// the invitation's bare id and ends in `&code=` followed by the code, and the
/// code text a redeem request carries back from that position hashes to
/// `code_hash_text(code)`, the hash stored for the invitation
/// (`InvitationCodeHash::from_code`).
pub proof fn lemma_link_code_matches_stored_hash(
    web_base_url: Seq<char>,
    bare_id: Seq<char>,
    code: Seq<char>,
    redeemed: Seq<char>,
)
    requires
        redeemed.len() == code.len(),
        ends_with(invitation_link(web_base_url, bare_id, code), "&code="@ + redeemed),
    ensures
        ends_with(invitation_link(web_base_url, bare_id, code), "&code="@ + code),
        ends_with(
            invitation_link(web_base_url, bare_id, code).subrange(
                0,
                invitation_link(web_base_url, bare_id, code).len() - ("&code="@ + code).len(),
            ),
            "?invitation="@ + bare_id,
        ),
        code_hash_text(redeemed) == code_hash_text(code),
{
    reveal_strlit("&code=");
    reveal_strlit("?invitation=");
    let link = invitation_link(web_base_url, bare_id, code);
    let head = trim_end_char(web_base_url, '/') + accept_path() + "?invitation="@ + bare_id;
    assert(link =~= head + ("&code="@ + code));
    assert(link.subrange(link.len() - ("&code="@ + code).len(), link.len() as int) =~= "&code="@ + code);
    assert(link.subrange(0, link.len() - ("&code="@ + code).len()) =~= head);
    assert(head.subrange(head.len() - ("?invitation="@ + bare_id).len(), head.len() as int) =~= "?invitation="@
        + bare_id);
    assert(redeemed =~= code) by {
        assert forall|i: int| 0 <= i < code.len() implies redeemed[i] == code[i] by {
            assert(("&code="@ + redeemed)[i + 6] == link[link.len() - code.len() + i]);
            assert(("&code="@ + code)[i + 6] == link[link.len() - code.len() + i]);
        }
    }
}

/// Builds the invitation link for `invitation_id` carrying `code`.
pub fn build_invitation_link(web_base_url: &str, invitation_id: &InvitationId, code: &InvitationCode) -> (r: String)
    ensures
        r@ == invitation_link(web_base_url@, invitation_id@, code@),
{
    let head = concat3(trim_end_slashes(web_base_url), "/invitations/accept", "?invitation=");
    let tail = concat3(invitation_id.bare(), "&code=", code.as_str());
    let r = concat2(head.as_str(), tail.as_str());
    proof {
        assert(r@ =~= invitation_link(web_base_url@, invitation_id@, code@));
    }
    r
}

/// The state an invitation is observed in at `now`: a stored `Pending`
/// invitation at or past its expiry is `Expired`; expiry is enforced lazily,
/// without a write.
pub open spec fn observed(state: InvitationState, expires_at: i64, now: i64) -> InvitationState {
    if state == InvitationState::Pending && now >= expires_at {
        InvitationState::Expired
    } else {
        state
    }
}

/// Terminal states are final: once an invitation is observed in a state other
/// than `Pending`, it is observed in that same state at every later time. An
/// expired, accepted or revoked invitation never becomes redeemable again.
pub proof fn lemma_terminal_state_is_final(state: InvitationState, expires_at: i64, t1: i64, t2: i64)
    requires
        t1 <= t2,
        observed(state, expires_at, t1) != InvitationState::Pending,
    ensures
        observed(state, expires_at, t2) == observed(state, expires_at, t1),
{
}

/// A pending invitation is observed `Pending` exactly before its expiry.
pub proof fn lemma_pending_until_expiry(expires_at: i64, now: i64)
    ensures
        (observed(InvitationState::Pending, expires_at, now) == InvitationState::Pending) == (now < expires_at),
{
}

/// Expiry is the only change observation makes: an invitation stored in any
/// state but `Pending` (accepted, revoked or already expired) is observed in
/// that very state at every time, and a pending one is observed `Expired` from
/// its expiry on and `Pending` before it.
pub proof fn lemma_observation_only_expires_pending(state: InvitationState, expires_at: i64, now: i64)
    ensures
        state != InvitationState::Pending ==> observed(state, expires_at, now) == state,
        state == InvitationState::Pending && now >= expires_at ==> observed(state, expires_at, now)
            == InvitationState::Expired,
        state == InvitationState::Pending && now < expires_at ==> observed(state, expires_at, now)
            == InvitationState::Pending,
        observed(InvitationState::Revoked, expires_at, now) == InvitationState::Revoked,
        observed(InvitationState::Accepted, expires_at, now) == InvitationState::Accepted,
{
}

/// The state `invitation` is observed in at `now`.
pub fn observed_state(invitation: &Invitation, now: i64) -> (r: InvitationState)
    ensures
        r == observed(invitation.state, invitation.expires_at, now),
{
    if invitation.state == InvitationState::Pending && now >= invitation.expires_at {
        InvitationState::Expired
    } else {
        invitation.state
    }
}

/// An invitation as the API reports it.
#[derive(Debug)]
pub struct InvitationResponse {
    /// The bare invitation id.
    pub id: String,
    /// The observed state's text.
    pub state: String,
    pub expires_at: i64,
    pub created_at: i64,
    pub accepted_at: Option<i64>,
    pub revoked_at: Option<i64>,
}

/// What creating an invitation returns.
#[derive(Debug)]
pub struct CreateInvitationResponse {
    /// The bare invitation id.
    pub invitation_id: String,
    pub invitation_link: String,
    pub expires_at: i64,
}

/// Projects an invitation to its report at `now`, with the observed state.
pub fn invitation_to_response(invitation: Invitation, now: i64) -> (r: InvitationResponse)
    ensures
        r.id@ == invitation.id@,
        r.state@ == observed(invitation.state, invitation.expires_at, now).text(),
        r.expires_at == invitation.expires_at,
        r.created_at == invitation.created_at,
        r.accepted_at == invitation.accepted_at,
        r.revoked_at == invitation.revoked_at,
{
    let state = observed_state(&invitation, now);
    InvitationResponse {
        id: owned(invitation.id.bare()),
        state: owned(state.as_str()),
        expires_at: invitation.expires_at,
        created_at: invitation.created_at,
        accepted_at: invitation.accepted_at,
        revoked_at: invitation.revoked_at,
    }
}

/// The precondition of creating an invitation: the account exists in the
/// caller's tenant (else 404) and is not yet linked to an identity (else 409).
pub fn check_invitable(account: &Option<UserAccount>) -> (r: Result<(), ApiError>)
    ensures
        match account {
            None => r matches Err(e) && e is NotFound,
            Some(a) => if a.identity is Some { r matches Err(e) && e is Conflict } else { r is Ok },
        },
{
    match account {
        None => Err(ApiError::NotFound),
        Some(a) => {
            if a.identity.is_some() {
                Err(ApiError::Conflict { details: owned("user account is already linked to an identity") })
            } else {
                Ok(())
            }
        },
    }
}

/// A fresh pending invitation created at `now` (microseconds), expiring
/// `expires_in_seconds` later.
pub fn pending_invitation(
    id: InvitationId,
    user_account_id: UserAccountId,
    tenant_id: TenantId,
    now: i64,
    expires_in_seconds: i64,
) -> (r: Invitation)
    requires
        0 <= expires_in_seconds <= MAX_INVITATION_EXPIRES_IN_SECONDS,
        now <= i64::MAX - MAX_INVITATION_EXPIRES_IN_SECONDS * MICROS_PER_SECOND,
    ensures
        r.id@ == id@,
        r.user_account_id@ == user_account_id@,
        r.tenant_id@ == tenant_id@,
        r.state == InvitationState::Pending,
        r.created_at == now,
        r.expires_at == now + expires_in_seconds * MICROS_PER_SECOND,
        r.accepted_at is None,
        r.revoked_at is None,
{
    assert(expires_in_seconds * MICROS_PER_SECOND <= MAX_INVITATION_EXPIRES_IN_SECONDS * MICROS_PER_SECOND)
        by (nonlinear_arith)
        requires
            0 <= expires_in_seconds <= MAX_INVITATION_EXPIRES_IN_SECONDS,
    ;
    Invitation {
        id,
        user_account_id,
        tenant_id,
        state: InvitationState::Pending,
        expires_at: now + expires_in_seconds * MICROS_PER_SECOND,
        created_at: now,
        accepted_at: None,
        revoked_at: None,
    }
}

/// The invitation a revoke request may act on: one that exists in the caller's
/// tenant (a missing one and another tenant's are the same 404) and is observed
/// `Pending` at `now` (anything else is 409).
pub fn revocable(found: Option<Invitation>, tenant_id: &TenantId, now: i64) -> (r: Result<Invitation, ApiError>)
    ensures
        match found {
            None => r matches Err(e) && e is NotFound,
            Some(inv) => if inv.tenant_id@ != tenant_id@ {
                r matches Err(e) && e is NotFound
            } else if observed(inv.state, inv.expires_at, now) != InvitationState::Pending {
                r matches Err(e) && e is Conflict
            } else {
                r == Ok::<Invitation, ApiError>(inv)
            },
        },
{
    let inv = match found {
        Some(inv) => inv,
        None => return Err(ApiError::NotFound),
    };
    if !inv.tenant_id.same(tenant_id) {
        return Err(ApiError::NotFound);
    }
    let state = observed_state(&inv, now);
    if state != InvitationState::Pending {
        return Err(ApiError::Conflict {
            details: concat3("invitation is ", state.as_str(), " and cannot be revoked"),
        });
    }
    Ok(inv)
}

/// `invitation` as it stands once revoked at `now`.
pub fn revoked(invitation: Invitation, now: i64) -> (r: Invitation)
    ensures
        r.state == InvitationState::Revoked,
        r.revoked_at == Some(now),
        r.id == invitation.id,
        r.user_account_id == invitation.user_account_id,
        r.tenant_id == invitation.tenant_id,
        r.expires_at == invitation.expires_at,
        r.created_at == invitation.created_at,
        r.accepted_at == invitation.accepted_at,
{
    Invitation { state: InvitationState::Revoked, revoked_at: Some(now), ..invitation }
}

} // verus!
