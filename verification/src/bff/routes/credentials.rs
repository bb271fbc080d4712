//! The issued-credential routes: each forwards to the management API, with the
//! listing's filters passed on as query parameters.

use vstd::prelude::*;

use crate::bff::upstream::{credentials_query, MgmtApiClient, UpstreamRequest};
use crate::text::{opt_string_view, pairs_view};

verus! {

/// The query string of a credential listing: page size, page cursor, and the
/// state and credential-type filters, each optional.
#[derive(Debug)]
pub struct ListQuery {
    pub limit: Option<u32>,
    pub cursor: Option<String>,
    pub state: Option<String>,
    pub vct: Option<String>,
}

fn as_opt_str(t: &Option<String>) -> (r: Option<&str>)
    ensures
        match r {
            Some(v) => opt_string_view(*t) == Some(v@),
            None => t is None,
        },
{
    match t {
        Some(v) => Some(v.as_str()),
        None => None,
    }
}

/// The upstream request of a credential listing of `issuer_id`: the listing
/// URL, with only the query parameters that are present.
pub fn list_credentials_request(client: &MgmtApiClient, issuer_id: &str, query: &ListQuery) -> (r: UpstreamRequest)
    ensures
        r.url@ == client.base_url@ + "/api/v1/issuers/"@ + issuer_id@ + "/credentials"@,
        pairs_view(r.query@) == credentials_query(
            query.limit,
            opt_string_view(query.cursor),
            opt_string_view(query.state),
            opt_string_view(query.vct),
        ),
{
    let cursor = as_opt_str(&query.cursor);
    let state = as_opt_str(&query.state);
    let vct = as_opt_str(&query.vct);
    client.list_issued_credentials(issuer_id, query.limit, cursor, state, vct)
}

} // verus!
