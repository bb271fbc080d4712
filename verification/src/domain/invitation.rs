//! Invitations: the single-use grant that links a user identity to an account.

use vstd::prelude::*;

use super::DomainError;
use super::ids::{is_bare_id, InvitationId, TenantId, UserAccountId};
use crate::text::{concat2, str_eq};

verus! {

/// Lifecycle state of an invitation.
#[derive(Debug, Clone, Copy, PartialEq, Eq, Structural)]
pub enum InvitationState {
    /// Issued and awaiting redemption: the only non-terminal state, and the only
    /// one whose code hash is stored.
    Pending,
    /// Redeemed; the identity was linked. Terminal.
    Accepted,
    /// Cancelled by the tenant before redemption. Terminal.
    Revoked,
    /// Reached its expiry while still pending. Terminal.
    Expired,
}

impl InvitationState {
    /// The stored text of the state.
    pub open spec fn text(self) -> Seq<char> {
        match self {
            InvitationState::Pending => "pending"@,
            InvitationState::Accepted => "accepted"@,
            InvitationState::Revoked => "revoked"@,
            InvitationState::Expired => "expired"@,
        }
    }

    /// The state whose stored text is `s`, if any.
    pub open spec fn from_text(s: Seq<char>) -> Option<InvitationState> {
        if s == "pending"@ {
            Some(InvitationState::Pending)
        } else if s == "accepted"@ {
            Some(InvitationState::Accepted)
        } else if s == "revoked"@ {
            Some(InvitationState::Revoked)
        } else if s == "expired"@ {
            Some(InvitationState::Expired)
        } else {
            None
        }
    }

    /// The stored text of the state.
    pub fn as_str(self) -> (r: &'static str)
        ensures
            r@ == self.text(),
    {
        match self {
            InvitationState::Pending => "pending",
            InvitationState::Accepted => "accepted",
            InvitationState::Revoked => "revoked",
            InvitationState::Expired => "expired",
        }
    }

    /// Whether the state is final: every state but `Pending`.
    pub fn is_terminal(self) -> (r: bool)
        ensures
            r == !(self is Pending),
    {
        !matches!(self, InvitationState::Pending)
    }

    /// Parses the stored text of a state; any other text is invalid input.
    pub fn from_str(s: &str) -> (r: Result<Self, DomainError>)
        ensures
            match r {
                Ok(st) => InvitationState::from_text(s@) == Some(st),
                Err(DomainError::InvalidInput { .. }) => InvitationState::from_text(s@) is None,
            },
    {
        if str_eq(s, "pending") {
            Ok(InvitationState::Pending)
        } else if str_eq(s, "accepted") {
            Ok(InvitationState::Accepted)
        } else if str_eq(s, "revoked") {
            Ok(InvitationState::Revoked)
        } else if str_eq(s, "expired") {
            Ok(InvitationState::Expired)
        } else {
            Err(DomainError::InvalidInput { details: concat2("unknown invitation state: ", s) })
        }
    }
}

/// Every state parses back from its stored text.
pub proof fn lemma_invitation_state_round_trip(state: InvitationState)
    ensures
        InvitationState::from_text(state.text()) == Some(state),
{
    reveal_strlit("pending");
    reveal_strlit("accepted");
    reveal_strlit("revoked");
    reveal_strlit("expired");
    assert("pending"@[0] != "accepted"@[0]);
    assert("pending"@[0] != "revoked"@[0]);
    assert("pending"@[0] != "expired"@[0]);
    assert("accepted"@[0] != "revoked"@[0]);
    assert("accepted"@[0] != "expired"@[0]);
    assert("revoked"@[0] != "expired"@[0]);
}

/// An invitation to link a user identity to a user account. Times are
/// microseconds since the Unix epoch. The code is absent: only its hash is
/// stored, and it is never surfaced here.
#[derive(Debug)]
pub struct Invitation {
    pub id: InvitationId,
    pub user_account_id: UserAccountId,
    pub tenant_id: TenantId,
    pub state: InvitationState,
    pub expires_at: i64,
    pub created_at: i64,
    pub accepted_at: Option<i64>,
    pub revoked_at: Option<i64>,
}

/// The columns of a stored invitation, as the database returns them. Ids are
/// stored in bare form, the state as its text, times as microseconds since the
/// epoch.
#[derive(Debug)]
pub struct InvitationRow {
    pub id: String,
    pub user_account_id: String,
    pub tenant_id: String,
    pub state: String,
    pub expires_at: i64,
    pub created_at: i64,
    pub accepted_at: Option<i64>,
    pub revoked_at: Option<i64>,
}

impl Invitation {
    /// Reads a stored row: the ids and the state must decode, in that order.
    pub fn from_row(row: InvitationRow) -> (r: Result<Self, DomainError>)
        ensures
            r is Ok <==> {
                &&& is_bare_id(row.id@)
                &&& is_bare_id(row.user_account_id@)
                &&& is_bare_id(row.tenant_id@)
                &&& InvitationState::from_text(row.state@) is Some
            },
            r matches Ok(inv) ==> {
                &&& inv.id@ == row.id@
                &&& inv.user_account_id@ == row.user_account_id@
                &&& inv.tenant_id@ == row.tenant_id@
                &&& InvitationState::from_text(row.state@) == Some(inv.state)
                &&& inv.expires_at == row.expires_at
                &&& inv.created_at == row.created_at
                &&& inv.accepted_at == row.accepted_at
                &&& inv.revoked_at == row.revoked_at
            },
    {
        let id = match InvitationId::from_bare(row.id.as_str()) {
            Ok(id) => id,
            Err(e) => return Err(e),
        };
        let user_account_id = match UserAccountId::from_bare(row.user_account_id.as_str()) {
            Ok(id) => id,
            Err(e) => return Err(e),
        };
        let tenant_id = match TenantId::from_bare(row.tenant_id.as_str()) {
            Ok(t) => t,
            Err(e) => return Err(e),
        };
        let state = match InvitationState::from_str(row.state.as_str()) {
            Ok(s) => s,
            Err(e) => return Err(e),
        };
        Ok(Invitation {
            id,
            user_account_id,
            tenant_id,
            state,
            expires_at: row.expires_at,
            created_at: row.created_at,
            accepted_at: row.accepted_at,
            revoked_at: row.revoked_at,
        })
    }
}

} // verus!
