//! Sample identities and user accounts.

use vstd::prelude::*;

use crate::domain::ids::{TenantId, UserAccountId};
use crate::domain::user_account::{UserAccount, UserAccountState, UserIdentity};
use crate::text::owned;

verus! {

/// The identity provider of the sample identities.
pub const SAMPLE_IDP_ISS: &'static str = "https://idp.example.invalid/realms/sample";

/// A sample identity at [`SAMPLE_IDP_ISS`] with the subject `sub`.
pub fn test_identity(sub: &str) -> (r: UserIdentity)
    ensures
        r.iss@ == SAMPLE_IDP_ISS@,
        r.sub@ == sub@,
{
    UserIdentity { iss: owned(SAMPLE_IDP_ISS), sub: owned(sub) }
}

/// An active, unlinked account of `tenant_id` with the sample provisioning
/// names `First` and `Last`, created at `created_at` (microseconds since the
/// epoch). `None` when no fresh account id can be drawn.
pub fn provisioned_account(tenant_id: &TenantId, created_at: i64) -> (r: Option<UserAccount>)
    ensures
        r matches Some(a) ==> {
            &&& a.tenant_id@ == tenant_id@
            &&& a.provisioning_first_name matches Some(f) && f@ == "First"@
            &&& a.provisioning_last_name matches Some(l) && l@ == "Last"@
            &&& a.provisioning_home_organization is None
            &&& a.state == UserAccountState::Active
            &&& a.identity is None
            &&& a.idp_first_name is None
            &&& a.idp_last_name is None
            &&& a.linked_at is None
            &&& a.created_at == created_at
        },
{
    let id = match UserAccountId::generate() {
        Some(id) => id,
        None => return None,
    };
    Some(UserAccount {
        id,
        tenant_id: tenant_id.duplicate(),
        provisioning_first_name: Some(owned("First")),
        provisioning_last_name: Some(owned("Last")),
        provisioning_home_organization: None,
        state: UserAccountState::Active,
        identity: None,
        idp_first_name: None,
        idp_last_name: None,
        linked_at: None,
        created_at,
    })
}

} // verus!
