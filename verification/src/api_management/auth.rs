//! Request authentication for the management API: reading the bearer credential
//! and deriving the request's tenant context from the validated principal.
//!
//! Validating the token, and asking whether a tenant exists, are outside work;
//! the caller performs them between these steps.

use vstd::prelude::*;

use super::error::ApiError;
use super::token_validator::{Principal, TokenError};
use crate::domain::ids::{TenantId, UserAccountId, is_bare_id, parse_wire_id, tenant_kind};
use crate::domain::user_account::{UserAccount, UserAccountState, UserIdentity};
use crate::text::{concat2, has_prefix, owned, str_eq, strip_prefix};

verus! {

/// A request header as the handler sees it.
#[derive(Debug)]
pub enum HeaderText {
    /// The header is not present.
    Absent,
    /// The header is present but its value is not visible ASCII text.
    Opaque,
    /// The header's value.
    Text(String),
}

/// The scheme prefix of a bearer credential.
pub open spec fn bearer_prefix() -> Seq<char> {
    "Bearer "@
}

/// The credential of an `Authorization: Bearer <credential>` header, returned
/// verbatim for the validator to parse. A missing header, an opaque value, or
/// another scheme is 401.
pub fn extract_bearer(header: &HeaderText) -> (r: Result<&str, ApiError>)
    ensures
        match r {
            Ok(c) => header matches HeaderText::Text(v) && has_prefix(v@, bearer_prefix())
                && c@ == v@.skip(bearer_prefix().len() as int),
            Err(e) => e is Unauthorised && !(header matches HeaderText::Text(v) && has_prefix(v@, bearer_prefix())),
        },
{
    match header {
        HeaderText::Text(v) => match strip_prefix(v.as_str(), "Bearer ") {
            Some(c) => Ok(c),
            None => Err(ApiError::Unauthorised),
        },
        _ => Err(ApiError::Unauthorised),
    }
}

/// The tenant a first-party caller names in `X-Tenant`, in wire form. Absence, an
/// opaque value, or a malformed id is 400.
pub fn require_x_tenant(header: &HeaderText) -> (r: Result<TenantId, ApiError>)
    ensures
        match r {
            Ok(t) => header matches HeaderText::Text(v) && parse_wire_id(tenant_kind(), v@) == Some(t@),
            Err(e) => e is InvalidInput && !(header matches HeaderText::Text(v)
                && parse_wire_id(tenant_kind(), v@) is Some),
        },
{
    match header {
        HeaderText::Absent => Err(ApiError::InvalidInput {
            details: owned("X-Tenant header is required for this request"),
        }),
        HeaderText::Opaque => Err(ApiError::InvalidInput { details: owned("X-Tenant header is not valid UTF-8") }),
        HeaderText::Text(v) => match TenantId::parse(v.as_str()) {
            Ok(t) => Ok(t),
            Err(_) => Err(ApiError::InvalidInput {
                details: concat2("X-Tenant header is not a valid tenant id: ", v.as_str()),
            }),
        },
    }
}

/// The request error a failed token validation stands for: an invalid token is
/// 401, a key-set outage 503.
pub fn auth_error(e: TokenError) -> (r: ApiError)
    ensures
        match e {
            TokenError::Invalid => r is Unauthorised,
            TokenError::KeysUnavailable => r is ServiceUnavailable,
        },
{
    match e {
        TokenError::Invalid => ApiError::Unauthorised,
        TokenError::KeysUnavailable => ApiError::ServiceUnavailable,
    }
}

/// A request authenticated as operating within one tenant.
#[derive(Debug)]
pub struct TenantContext {
    pub tenant_id: TenantId,
}

/// A request authenticated as the first-party back end, bound to no tenant.
#[derive(Debug)]
pub struct FirstPartyContext;

/// Where a request's tenant came from.
#[derive(Debug, PartialEq, Eq, Structural)]
pub enum TenantSource {
    /// The `tenant_id` claim of a tenant token.
    Token,
    /// The `X-Tenant` header of a first-party request.
    Header,
}

/// What a request claims as its tenant, before it is checked.
#[derive(Debug)]
pub enum TenantClaim {
    /// A tenant named by the token or by `X-Tenant`; whether it exists is
    /// still to be checked ([`tenant_context`]).
    Named { tenant_id: TenantId, source: TenantSource },
    /// An account to act as, named by `X-User-Account`; it must be linked to
    /// `identity` and active, and its tenant is the request's
    /// ([`acting_user_context`]).
    ActingAccount { account_id: UserAccountId, identity: UserIdentity },
}

/// The tenant a request claims:
/// - a tenant token's own tenant (the headers are then not consulted, so a stray
///   or forged header is inert);
/// - for a plain first-party token, the tenant its `X-Tenant` header names in
///   wire form (absent or malformed is 400);
/// - for a first-party token acting as a user, the account its
///   `X-User-Account` header names in bare form, to be checked against the
///   token's identity (absent or malformed is 401; `X-Tenant` is not consulted).
pub fn claimed_tenant(principal: Principal, x_tenant: &HeaderText, x_user_account: &HeaderText) -> (r: Result<
    TenantClaim,
    ApiError,
>)
    ensures
        match principal {
            Principal::Tenant(t) => r matches Ok(TenantClaim::Named { tenant_id, source }) && tenant_id@ == t@
                && source == TenantSource::Token,
            Principal::FirstParty => match r {
                Ok(c) => c matches TenantClaim::Named { tenant_id, source } && source == TenantSource::Header && (
                x_tenant matches HeaderText::Text(v) && parse_wire_id(tenant_kind(), v@) == Some(tenant_id@)),
                Err(e) => e is InvalidInput && !(x_tenant matches HeaderText::Text(v) && parse_wire_id(
                    tenant_kind(),
                    v@,
                ) is Some),
            },
            Principal::ActingUser(i) => match r {
                Ok(c) => c matches TenantClaim::ActingAccount { account_id, identity } && identity == i && (
                x_user_account matches HeaderText::Text(v) && is_bare_id(v@) && account_id@ == v@),
                Err(e) => e is Unauthorised && !(x_user_account matches HeaderText::Text(v) && is_bare_id(v@)),
            },
        },
{
    match principal {
        Principal::Tenant(t) => Ok(TenantClaim::Named { tenant_id: t, source: TenantSource::Token }),
        Principal::FirstParty => match require_x_tenant(x_tenant) {
            Ok(t) => Ok(TenantClaim::Named { tenant_id: t, source: TenantSource::Header }),
            Err(e) => Err(e),
        },
        Principal::ActingUser(identity) => match x_user_account {
            HeaderText::Text(v) => match UserAccountId::from_bare(v.as_str()) {
                Ok(account_id) => Ok(TenantClaim::ActingAccount { account_id, identity }),
                Err(_) => Err(ApiError::Unauthorised),
            },
            _ => Err(ApiError::Unauthorised),
        },
    }
}

/// The tenant context of a request acting as a user, from the account that a
/// lookup by the named id and the token's identity found: the account must be
/// the named one, linked to that identity and active; its tenant is then the
/// request's. A missing, unlinked, otherwise linked or deactivated account is
/// 401 alike.
pub fn acting_user_context(account_id: &UserAccountId, identity: &UserIdentity, found: Option<UserAccount>) -> (r: Result<
    TenantContext,
    ApiError,
>)
    ensures
        match found {
            Some(a) => if a.id@ == account_id@ && a.state == UserAccountState::Active && (a.identity matches Some(
                li,
            ) && li.iss@ == identity.iss@ && li.sub@ == identity.sub@) {
                r matches Ok(ctx) && ctx.tenant_id@ == a.tenant_id@
            } else {
                r matches Err(e) && e is Unauthorised
            },
            None => r matches Err(e) && e is Unauthorised,
        },
{
    let a = match found {
        Some(a) => a,
        None => return Err(ApiError::Unauthorised),
    };
    if !a.id.same(account_id) || a.state != UserAccountState::Active {
        return Err(ApiError::Unauthorised);
    }
    let linked = match &a.identity {
        Some(li) => str_eq(li.iss.as_str(), identity.iss.as_str()) && str_eq(li.sub.as_str(), identity.sub.as_str()),
        None => false,
    };
    if !linked {
        return Err(ApiError::Unauthorised);
    }
    Ok(TenantContext { tenant_id: a.tenant_id })
}

/// The tenant context once the claimed tenant's existence is known. A phantom
/// tenant named by a token is an invalid principal (401); one named by a
/// first-party header is a missing resource (404).
pub fn tenant_context(claimed: (TenantId, TenantSource), exists: bool) -> (r: Result<TenantContext, ApiError>)
    ensures
        match r {
            Ok(ctx) => exists && ctx.tenant_id@ == claimed.0@,
            Err(e) => !exists && (if claimed.1 == TenantSource::Token { e is Unauthorised } else { e is NotFound }),
        },
{
    let (tenant_id, source) = claimed;
    if exists {
        Ok(TenantContext { tenant_id })
    } else {
        match source {
            TenantSource::Token => Err(ApiError::Unauthorised),
            TenantSource::Header => Err(ApiError::NotFound),
        }
    }
}

/// The first-party context: only a plain first-party token qualifies; a tenant
/// token, or a first-party token acting as a user, is 401.
pub fn first_party_context(principal: &Principal) -> (r: Result<FirstPartyContext, ApiError>)
    ensures
        r is Ok <==> principal is FirstParty,
        r matches Err(e) ==> e is Unauthorised,
{
    match principal {
        Principal::FirstParty => Ok(FirstPartyContext),
        Principal::Tenant(_) => Err(ApiError::Unauthorised),
        Principal::ActingUser(_) => Err(ApiError::Unauthorised),
    }
}

/// The verdict of the issuer-ownership check: an issuer that does not exist and
/// one owned by another tenant are the same 404, so other tenants' issuers
/// cannot be probed.
pub fn issuer_ownership(owned_by_tenant: bool) -> (r: Result<(), ApiError>)
    ensures
        r is Ok <==> owned_by_tenant,
        r matches Err(e) ==> e is NotFound,
{
    if owned_by_tenant {
        Ok(())
    } else {
        Err(ApiError::NotFound)
    }
}

} // verus!
