//! Redeeming an invitation: the checks that decide whether the identity in the
//! request may be linked to the account the invitation was issued for.

use vstd::prelude::*;

use super::error::ApiError;
use super::invitations::{observed, observed_state};
use crate::domain::ids::InvitationId;
use crate::domain::invitation::{Invitation, InvitationState};
use super::normalise::{normalise_optional, normalise_required, normalised_optional, normalised_required};
use crate::domain::user_account::{UserAccount, UserIdentity};
use crate::text::{opt_string_view, opt_view, owned};

verus! {

/// Cap on the asserted identity fields once trimmed, in characters: `iss` is a
/// URL and `sub` an opaque subject, both possibly longer than the provisioning
/// fields.
pub const MAX_IDENTITY_FIELD_LENGTH: usize = 2_048;

/// The normalised identity `(iss, sub)` of a request, or the message of the
/// first field refused.
pub open spec fn identity_outcome(iss: Seq<char>, sub: Seq<char>) -> Result<(Seq<char>, Seq<char>), Seq<char>> {
    match normalised_required("iss"@, iss, MAX_IDENTITY_FIELD_LENGTH) {
        Err(m) => Err(m),
        Ok(i) => match normalised_required("sub"@, sub, MAX_IDENTITY_FIELD_LENGTH) {
            Err(m) => Err(m),
            Ok(s) => Ok((i, s)),
        },
    }
}

/// The identity a redeem or resolve request asserts: `iss` and `sub`, each
/// trimmed, required and capped at [`MAX_IDENTITY_FIELD_LENGTH`] characters.
pub fn normalise_identity(iss: &str, sub: &str) -> (r: Result<UserIdentity, ApiError>)
    ensures
        match identity_outcome(iss@, sub@) {
            Ok((i, s)) => r matches Ok(id) && id.iss@ == i && id.sub@ == s,
            Err(m) => r matches Err(ApiError::InvalidInput { details }) && details@ == m,
        },
{
    let iss = match normalise_required("iss", iss, MAX_IDENTITY_FIELD_LENGTH) {
        Ok(v) => v,
        Err(e) => return Err(e),
    };
    let sub = match normalise_required("sub", sub, MAX_IDENTITY_FIELD_LENGTH) {
        Ok(v) => v,
        Err(e) => return Err(e),
    };
    Ok(UserIdentity { iss, sub })
}

/// The names the identity provider asserts, or the message of the first one
/// refused.
pub open spec fn idp_names_outcome(first: Option<Seq<char>>, last: Option<Seq<char>>) -> Result<
    (Option<Seq<char>>, Option<Seq<char>>),
    Seq<char>,
> {
    match normalised_optional("idp_first_name"@, first, MAX_IDENTITY_FIELD_LENGTH) {
        Err(m) => Err(m),
        Ok(f) => match normalised_optional("idp_last_name"@, last, MAX_IDENTITY_FIELD_LENGTH) {
            Err(m) => Err(m),
            Ok(l) => Ok((f, l)),
        },
    }
}

/// The identity provider's names a redeem request carries: each trimmed, blank
/// is absent, capped at [`MAX_IDENTITY_FIELD_LENGTH`] characters.
pub fn normalise_idp_names(first: Option<&str>, last: Option<&str>) -> (r: Result<
    (Option<String>, Option<String>),
    ApiError,
>)
    ensures
        match idp_names_outcome(opt_view(first), opt_view(last)) {
            Ok((f, l)) => r matches Ok((a, b)) && opt_string_view(a) == f && opt_string_view(b) == l,
            Err(m) => r matches Err(ApiError::InvalidInput { details }) && details@ == m,
        },
{
    let a = match normalise_optional("idp_first_name", first, MAX_IDENTITY_FIELD_LENGTH) {
        Ok(a) => a,
        Err(e) => return Err(e),
    };
    let b = match normalise_optional("idp_last_name", last, MAX_IDENTITY_FIELD_LENGTH) {
        Ok(b) => b,
        Err(e) => return Err(e),
    };
    Ok((a, b))
}

/// The invitation a redeem request may act on. It was found by the hash of the
/// presented code and must be the one named in the path: a wrong code and a
/// mismatched id are the same 404, so both the id and the code must agree. It
/// must also be observed `Pending` at `now` (else 409).
pub fn redeemable(found: Option<Invitation>, invitation_id: &InvitationId, now: i64) -> (r: Result<Invitation, ApiError>)
    ensures
        match found {
            None => r matches Err(e) && e is NotFound,
            Some(inv) => if inv.id@ != invitation_id@ {
                r matches Err(e) && e is NotFound
            } else if observed(inv.state, inv.expires_at, now) != InvitationState::Pending {
                r matches Err(e) && e is Conflict
            } else {
                r == Ok::<Invitation, ApiError>(inv)
            },
        },
{
    let inv = match found {
        Some(inv) => inv,
        None => return Err(ApiError::NotFound),
    };
    if !inv.id.same(invitation_id) {
        return Err(ApiError::NotFound);
    }
    if observed_state(&inv, now) != InvitationState::Pending {
        return Err(ApiError::Conflict { details: owned("invitation is no longer pending") });
    }
    Ok(inv)
}

/// The account an invitation links to: it must exist (else 404) and not be
/// linked already (else 409).
pub fn linkable(account: Option<UserAccount>) -> (r: Result<UserAccount, ApiError>)
    ensures
        match account {
            None => r matches Err(e) && e is NotFound,
            Some(a) => if a.identity is Some { r matches Err(e) && e is Conflict } else {
                r == Ok::<UserAccount, ApiError>(a)
            },
        },
{
    match account {
        None => Err(ApiError::NotFound),
        Some(a) => {
            if a.identity.is_some() {
                Err(ApiError::Conflict { details: owned("user account is already linked to an identity") })
            } else {
                Ok(a)
            }
        },
    }
}

} // verus!
