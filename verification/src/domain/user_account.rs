//! User accounts and the user identities linked to them.

use vstd::prelude::*;

use super::DomainError;
use super::ids::{is_bare_id, TenantId, UserAccountId};
use crate::text::{concat2, owned, str_eq};

verus! {

/// An identity provider's identifier for a user: the token's `iss` and `sub`.
#[derive(Debug, PartialEq, Eq)]
pub struct UserIdentity {
    /// Identifies the identity provider.
    pub iss: String,
    /// The subject (the user) at that provider.
    pub sub: String,
}

impl UserIdentity {
    /// Assembles the optional identity from its two nullable columns: both set
    /// gives the identity, both absent gives none, and a half-populated pair is
    /// an error.
    pub fn from_columns(iss: Option<String>, sub: Option<String>) -> (r: Result<Option<Self>, &'static str>)
        ensures
            match r {
                Ok(Some(id)) => iss is Some && sub is Some && id.iss == iss->0 && id.sub == sub->0,
                Ok(None) => iss is None && sub is None,
                Err(_) => (iss is Some) != (sub is Some),
            },
    {
        match (iss, sub) {
            (Some(iss), Some(sub)) => Ok(Some(UserIdentity { iss, sub })),
            (None, None) => Ok(None),
            _ => Err("user_accounts.identity_iss/identity_sub must both be set or both NULL"),
        }
    }

    /// A copy of the identity.
    pub fn duplicate(&self) -> (r: Self)
        ensures
            r == *self,
    {
        UserIdentity { iss: self.iss.clone(), sub: self.sub.clone() }
    }
}

/// Lifecycle state of a user account.
#[derive(Debug, Clone, Copy, PartialEq, Eq, Structural)]
pub enum UserAccountState {
    /// The initial state; usable by its linked user.
    Active,
    /// No longer usable by its linked user.
    Deactivated,
}

impl UserAccountState {
    /// The stored text of the state.
    pub open spec fn text(self) -> Seq<char> {
        match self {
            UserAccountState::Active => "active"@,
            UserAccountState::Deactivated => "deactivated"@,
        }
    }

    /// The state whose stored text is `s`, if any.
    pub open spec fn from_text(s: Seq<char>) -> Option<UserAccountState> {
        if s == "active"@ {
            Some(UserAccountState::Active)
        } else if s == "deactivated"@ {
            Some(UserAccountState::Deactivated)
        } else {
            None
        }
    }

    /// The stored text of the state.
    pub fn as_str(self) -> (r: &'static str)
        ensures
            r@ == self.text(),
    {
        match self {
            UserAccountState::Active => "active",
            UserAccountState::Deactivated => "deactivated",
        }
    }

    /// Whether the state is final: `Deactivated` only.
    pub fn is_terminal(self) -> (r: bool)
        ensures
            r == (self is Deactivated),
    {
        matches!(self, UserAccountState::Deactivated)
    }

    /// Parses the stored text of a state; any other text is invalid input.
    pub fn from_str(s: &str) -> (r: Result<Self, DomainError>)
        ensures
            match r {
                Ok(st) => UserAccountState::from_text(s@) == Some(st),
                Err(DomainError::InvalidInput { .. }) => UserAccountState::from_text(s@) is None,
            },
    {
        if str_eq(s, "active") {
            Ok(UserAccountState::Active)
        } else if str_eq(s, "deactivated") {
            Ok(UserAccountState::Deactivated)
        } else {
            Err(DomainError::InvalidInput { details: concat2("unknown user account state: ", s) })
        }
    }
}

/// Every state parses back from its stored text.
pub proof fn lemma_user_account_state_round_trip(state: UserAccountState)
    ensures
        UserAccountState::from_text(state.text()) == Some(state),
{
    reveal_strlit("active");
    reveal_strlit("deactivated");
    assert("active"@[0] != "deactivated"@[0]);
}

/// A provisioned user account, owned by one tenant and linked to at most one
/// user identity. Times are microseconds since the Unix epoch.
#[derive(Debug)]
pub struct UserAccount {
    pub id: UserAccountId,
    pub tenant_id: TenantId,
    /// The intended user as asserted at provisioning.
    pub provisioning_first_name: Option<String>,
    pub provisioning_last_name: Option<String>,
    pub provisioning_home_organization: Option<String>,
    pub state: UserAccountState,
    /// `Some` when linked, `None` when provisioned but unlinked.
    pub identity: Option<UserIdentity>,
    /// The names the identity provider asserts for the linked identity.
    pub idp_first_name: Option<String>,
    pub idp_last_name: Option<String>,
    pub linked_at: Option<i64>,
    pub created_at: i64,
}

/// The columns of a stored user account, as the database returns them. Ids
/// are stored in bare form, the state as its text, times as microseconds since
/// the epoch.
#[derive(Debug)]
pub struct UserAccountRow {
    pub id: String,
    pub tenant_id: String,
    pub provisioning_first_name: Option<String>,
    pub provisioning_last_name: Option<String>,
    pub provisioning_home_organization: Option<String>,
    pub state: String,
    pub identity_iss: Option<String>,
    pub identity_sub: Option<String>,
    pub idp_first_name: Option<String>,
    pub idp_last_name: Option<String>,
    pub linked_at: Option<i64>,
    pub created_at: i64,
}

impl UserAccount {
    /// Reads a stored row. The identity columns are checked first, then the
    /// ids and the state, in that order; the first that does not decode is the
    /// error.
    pub fn from_row(row: UserAccountRow) -> (r: Result<Self, DomainError>)
        ensures
            ((row.identity_iss is Some) != (row.identity_sub is Some)) ==> r is Err,
            r is Ok <==> {
                &&& (row.identity_iss is Some) == (row.identity_sub is Some)
                &&& is_bare_id(row.id@)
                &&& is_bare_id(row.tenant_id@)
                &&& UserAccountState::from_text(row.state@) is Some
            },
            r matches Ok(a) ==> {
                &&& a.id@ == row.id@
                &&& a.tenant_id@ == row.tenant_id@
                &&& a.provisioning_first_name == row.provisioning_first_name
                &&& a.provisioning_last_name == row.provisioning_last_name
                &&& a.provisioning_home_organization == row.provisioning_home_organization
                &&& UserAccountState::from_text(row.state@) == Some(a.state)
                &&& match a.identity {
                    Some(i) => row.identity_iss == Some(i.iss) && row.identity_sub == Some(i.sub),
                    None => row.identity_iss is None && row.identity_sub is None,
                }
                &&& a.idp_first_name == row.idp_first_name
                &&& a.idp_last_name == row.idp_last_name
                &&& a.linked_at == row.linked_at
                &&& a.created_at == row.created_at
            },
    {
        let identity = match UserIdentity::from_columns(row.identity_iss, row.identity_sub) {
            Ok(identity) => identity,
            Err(msg) => return Err(DomainError::InvalidInput { details: owned(msg) }),
        };
        let id = match UserAccountId::from_bare(row.id.as_str()) {
            Ok(id) => id,
            Err(e) => return Err(e),
        };
        let tenant_id = match TenantId::from_bare(row.tenant_id.as_str()) {
            Ok(t) => t,
            Err(e) => return Err(e),
        };
        let state = match UserAccountState::from_str(row.state.as_str()) {
            Ok(s) => s,
            Err(e) => return Err(e),
        };
        Ok(UserAccount {
            id,
            tenant_id,
            provisioning_first_name: row.provisioning_first_name,
            provisioning_last_name: row.provisioning_last_name,
            provisioning_home_organization: row.provisioning_home_organization,
            state,
            identity,
            idp_first_name: row.idp_first_name,
            idp_last_name: row.idp_last_name,
            linked_at: row.linked_at,
            created_at: row.created_at,
        })
    }
}

} // verus!
