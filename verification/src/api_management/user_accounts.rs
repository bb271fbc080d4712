//! User-account logic of the tenant-scoped endpoints: provisioning, the merge of
//! a partial update, and the wire projection.

use vstd::prelude::*;

use crate::domain::ids::{TenantId, UserAccountId};
use super::error::ApiError;
use super::normalise::{normalise_optional, normalised_optional};
use crate::domain::user_account::{UserAccount, UserAccountState, UserIdentity};
use crate::text::{opt_string_view, opt_view, owned};

verus! {

/// Cap on the provisioning free-text fields once trimmed, in characters.
pub const MAX_FIELD_LENGTH: usize = 255;

/// The normalised provisioning attributes (first name, last name, home
/// organisation) of a create or update request, or the message of the first
/// one refused, in that order.
pub open spec fn provisioning_outcome(
    first: Option<Seq<char>>,
    last: Option<Seq<char>>,
    home: Option<Seq<char>>,
) -> Result<(Option<Seq<char>>, Option<Seq<char>>, Option<Seq<char>>), Seq<char>> {
    match normalised_optional("provisioning_first_name"@, first, MAX_FIELD_LENGTH) {
        Err(m) => Err(m),
        Ok(f) => match normalised_optional("provisioning_last_name"@, last, MAX_FIELD_LENGTH) {
            Err(m) => Err(m),
            Ok(l) => match normalised_optional("provisioning_home_organization"@, home, MAX_FIELD_LENGTH) {
                Err(m) => Err(m),
                Ok(h) => Ok((f, l, h)),
            },
        },
    }
}

/// Normalises the provisioning attributes of a create or update request: each
/// is trimmed, blank is absent, and each is capped at [`MAX_FIELD_LENGTH`]
/// characters; the first attribute refused is the request's invalid input.
pub fn normalise_provisioning(first: Option<&str>, last: Option<&str>, home: Option<&str>) -> (r: Result<
    (Option<String>, Option<String>, Option<String>),
    ApiError,
>)
    ensures
        match provisioning_outcome(opt_view(first), opt_view(last), opt_view(home)) {
            Ok((f, l, h)) => r matches Ok((a, b, c)) && opt_string_view(a) == f && opt_string_view(b) == l
                && opt_string_view(c) == h,
            Err(m) => r matches Err(ApiError::InvalidInput { details }) && details@ == m,
        },
{
    let a = match normalise_optional("provisioning_first_name", first, MAX_FIELD_LENGTH) {
        Ok(a) => a,
        Err(e) => return Err(e),
    };
    let b = match normalise_optional("provisioning_last_name", last, MAX_FIELD_LENGTH) {
        Ok(b) => b,
        Err(e) => return Err(e),
    };
    let c = match normalise_optional("provisioning_home_organization", home, MAX_FIELD_LENGTH) {
        Ok(c) => c,
        Err(e) => return Err(e),
    };
    Ok((a, b, c))
}

/// A freshly provisioned account created at `now`: active and unlinked, with the
/// given provisioning attributes.
pub fn provision_account(
    id: UserAccountId,
    tenant_id: TenantId,
    provisioning_first_name: Option<String>,
    provisioning_last_name: Option<String>,
    provisioning_home_organization: Option<String>,
    now: i64,
) -> (r: UserAccount)
    ensures
        r.id == id,
        r.tenant_id == tenant_id,
        r.provisioning_first_name == provisioning_first_name,
        r.provisioning_last_name == provisioning_last_name,
        r.provisioning_home_organization == provisioning_home_organization,
        r.state == UserAccountState::Active,
        r.identity is None,
        r.idp_first_name is None,
        r.idp_last_name is None,
        r.linked_at is None,
        r.created_at == now,
{
    UserAccount {
        id,
        tenant_id,
        provisioning_first_name,
        provisioning_last_name,
        provisioning_home_organization,
        state: UserAccountState::Active,
        identity: None,
        idp_first_name: None,
        idp_last_name: None,
        linked_at: None,
        created_at: now,
    }
}

/// One attribute of a partial update: a provided value wins, otherwise the
/// stored one is kept.
pub fn merge_attribute(provided: Option<String>, stored: Option<String>) -> (r: Option<String>)
    ensures
        r == (if provided is Some { provided } else { stored }),
{
    match provided {
        Some(v) => Some(v),
        None => stored,
    }
}

/// `account` with its provisioning attributes updated by a partial update.
pub fn apply_provisioning_update(
    account: UserAccount,
    first: Option<String>,
    last: Option<String>,
    home: Option<String>,
) -> (r: UserAccount)
    ensures
        r.provisioning_first_name == (if first is Some { first } else { account.provisioning_first_name }),
        r.provisioning_last_name == (if last is Some { last } else { account.provisioning_last_name }),
        r.provisioning_home_organization == (if home is Some { home } else {
            account.provisioning_home_organization
        }),
        r.id == account.id,
        r.tenant_id == account.tenant_id,
        r.state == account.state,
        r.identity == account.identity,
        r.idp_first_name == account.idp_first_name,
        r.idp_last_name == account.idp_last_name,
        r.linked_at == account.linked_at,
        r.created_at == account.created_at,
{
    let UserAccount {
        id,
        tenant_id,
        provisioning_first_name,
        provisioning_last_name,
        provisioning_home_organization,
        state,
        identity,
        idp_first_name,
        idp_last_name,
        linked_at,
        created_at,
    } = account;
    UserAccount {
        id,
        tenant_id,
        provisioning_first_name: merge_attribute(first, provisioning_first_name),
        provisioning_last_name: merge_attribute(last, provisioning_last_name),
        provisioning_home_organization: merge_attribute(home, provisioning_home_organization),
        state,
        identity,
        idp_first_name,
        idp_last_name,
        linked_at,
        created_at,
    }
}

/// The identity of a linked account, as the API reports it.
#[derive(Debug)]
pub struct UserIdentityResponse {
    pub iss: String,
    pub sub: String,
}

/// A user account as the API reports it. Ids are in bare form.
#[derive(Debug)]
pub struct UserAccountResponse {
    pub id: String,
    pub tenant_id: String,
    /// The owning tenant's display name, where the endpoint supplies it.
    pub tenant_display_name: Option<String>,
    pub provisioning_first_name: Option<String>,
    pub provisioning_last_name: Option<String>,
    pub provisioning_home_organization: Option<String>,
    /// The state's text.
    pub state: String,
    pub identity: Option<UserIdentityResponse>,
    pub idp_first_name: Option<String>,
    pub idp_last_name: Option<String>,
    pub linked_at: Option<i64>,
    pub created_at: i64,
}

/// Projects an account to its report.
pub fn user_account_to_response(account: UserAccount, tenant_display_name: Option<String>) -> (r: UserAccountResponse)
    ensures
        r.id@ == account.id@,
        r.tenant_id@ == account.tenant_id@,
        r.tenant_display_name == tenant_display_name,
        r.provisioning_first_name == account.provisioning_first_name,
        r.provisioning_last_name == account.provisioning_last_name,
        r.provisioning_home_organization == account.provisioning_home_organization,
        r.state@ == account.state.text(),
        match account.identity {
            Some(i) => r.identity matches Some(ri) && ri.iss == i.iss && ri.sub == i.sub,
            None => r.identity is None,
        },
        r.idp_first_name == account.idp_first_name,
        r.idp_last_name == account.idp_last_name,
        r.linked_at == account.linked_at,
        r.created_at == account.created_at,
{
    let id = owned(account.id.bare());
    let tenant_id = owned(account.tenant_id.bare());
    let state = owned(account.state.as_str());
    let identity = match account.identity {
        Some(i) => Some(UserIdentityResponse { iss: i.iss, sub: i.sub }),
        None => None,
    };
    UserAccountResponse {
        id,
        tenant_id,
        tenant_display_name,
        provisioning_first_name: account.provisioning_first_name,
        provisioning_last_name: account.provisioning_last_name,
        provisioning_home_organization: account.provisioning_home_organization,
        state,
        identity,
        idp_first_name: account.idp_first_name,
        idp_last_name: account.idp_last_name,
        linked_at: account.linked_at,
        created_at: account.created_at,
    }
}

} // verus!
