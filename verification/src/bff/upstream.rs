//! The requests the back end sends to the management API, and how it reads
//! their answers.

use vstd::prelude::*;

use crate::bff::token::{is_success_status, status_is_success, TokenError};
use crate::encoding::{utf8_lossy, utf8_lossy_text};
use crate::json::{json_decode, parse_json, Json};
use crate::text::{concat2, concat3, decimal, decimal_text, opt_view, owned, pair, pairs_view, trim_end_char, trim_end_slashes};

verus! {

/// Why a management-API call failed.
#[derive(Debug)]
pub enum CallError {
    /// The request did not complete, or its answer was not JSON; the message.
    Transport(String),
    /// No first-party token could be minted for the call.
    Token(TokenError),
    /// The management API answered with a status other than success.
    Status { status: u16, body: String },
}

/// The message of an answer that claims success but is not a JSON document.
pub open spec fn undecodable_body_message() -> Seq<char> {
    "error decoding response body"@
}

/// Reads an answer of the management API: a success is the JSON document of
/// the body (an undecodable one is a transport failure); any other status is an
/// error carrying the status and the body's text.
pub fn read_json(status: u16, body: &[u8]) -> (r: Result<Json, CallError>)
    ensures
        is_success_status(status) ==> match json_decode(body@) {
            Some(doc) => r == Ok::<Json, CallError>(doc),
            None => (r matches Err(CallError::Transport(m)) && m@ == undecodable_body_message()),
        },
        !is_success_status(status) ==> (r matches Err(CallError::Status { status: s, body: b }) && s == status
            && b@ == utf8_lossy(body@)),
{
    if status_is_success(status) {
        match parse_json(body) {
            Some(doc) => Ok(doc),
            None => Err(CallError::Transport(owned("error decoding response body"))),
        }
    } else {
        Err(CallError::Status { status, body: utf8_lossy_text(body) })
    }
}

/// A request to the management API: its URL and the query parameters to
/// append, in order.
#[derive(Debug)]
pub struct UpstreamRequest {
    pub url: String,
    pub query: Vec<(String, String)>,
}

/// The query of a credential-offer listing: only the parameters that are
/// present, since the management API rejects an empty `limit=`.
pub open spec fn offers_query(limit: Option<u32>, cursor: Option<Seq<char>>) -> Seq<(Seq<char>, Seq<char>)> {
    let with_limit: Seq<(Seq<char>, Seq<char>)> = match limit {
        Some(l) => seq![("limit"@, decimal_text(l as nat))],
        None => seq![],
    };
    match cursor {
        Some(c) => with_limit.push(("cursor"@, c)),
        None => with_limit,
    }
}

/// The query of an issued-credential listing: the offer-listing parameters,
/// then `state` and `vct`, each only when present.
pub open spec fn credentials_query(
    limit: Option<u32>,
    cursor: Option<Seq<char>>,
    state: Option<Seq<char>>,
    vct: Option<Seq<char>>,
) -> Seq<(Seq<char>, Seq<char>)> {
    let q = offers_query(limit, cursor);
    let q = match state {
        Some(v) => q.push(("state"@, v)),
        None => q,
    };
    match vct {
        Some(v) => q.push(("vct"@, v)),
        None => q,
    }
}

/// HTTP client of the management API: where it lives. Every call is
/// authenticated with a first-party token.
#[derive(Debug)]
pub struct MgmtApiClient {
    /// The base URL, without trailing slashes.
    pub base_url: String,
}

impl MgmtApiClient {
    /// A client for the management API at `base_url`.
    pub fn new(base_url: &str) -> (r: Self)
        ensures
            r.base_url@ == trim_end_char(base_url@, '/'),
    {
        MgmtApiClient { base_url: owned(trim_end_slashes(base_url)) }
    }

    /// The URL of `path` on the management API.
    pub fn url(&self, path: &str) -> (r: String)
        ensures
            r@ == self.base_url@ + path@,
    {
        concat2(self.base_url.as_str(), path)
    }

    /// The URL of `prefix`, then `id`, then `suffix` on the management API.
    pub fn url_with_id(&self, prefix: &str, id: &str, suffix: &str) -> (r: String)
        ensures
            r@ == self.base_url@ + prefix@ + id@ + suffix@,
    {
        let head = concat3(self.base_url.as_str(), prefix, id);
        concat2(head.as_str(), suffix)
    }

    /// Resolves a federated identity to the accounts it is linked to, across
    /// tenants; the identity travels as the query parameters `iss` and `sub`.
    pub fn resolve_linked_accounts(&self, iss: &str, sub: &str) -> (r: UpstreamRequest)
        ensures
            r.url@ == self.base_url@ + "/api/v1/linked-user-accounts"@,
            pairs_view(r.query@) == seq![("iss"@, iss@), ("sub"@, sub@)],
    {
        let mut query: Vec<(String, String)> = Vec::new();
        query.push(pair("iss", iss));
        query.push(pair("sub", sub));
        proof {
            assert(pairs_view(query@) =~= seq![("iss"@, iss@), ("sub"@, sub@)]);
        }
        UpstreamRequest { url: self.url("/api/v1/linked-user-accounts"), query }
    }

    /// Lists the credential offers of an issuer, a page at a time.
    pub fn list_credential_offers(&self, issuer_id: &str, limit: Option<u32>, cursor: Option<&str>) -> (r: UpstreamRequest)
        ensures
            r.url@ == self.base_url@ + "/api/v1/issuers/"@ + issuer_id@ + "/credential-offers"@,
            pairs_view(r.query@) == offers_query(
                limit,
                match cursor {
                    Some(c) => Some(c@),
                    None => None,
                },
            ),
    {
        let mut query: Vec<(String, String)> = Vec::new();
        match limit {
            Some(l) => {
                let text = decimal(l as u64);
                query.push((owned("limit"), text));
            },
            None => {},
        }
        let ghost after_limit = query@;
        match cursor {
            Some(c) => {
                query.push(pair("cursor", c));
            },
            None => {},
        }
        proof {
            let cv = match cursor {
                Some(c) => Some(c@),
                None => None,
            };
            assert(pairs_view(after_limit) =~= offers_query(limit, None));
            assert(pairs_view(query@) =~= offers_query(limit, cv));
        }
        UpstreamRequest { url: self.url_with_id("/api/v1/issuers/", issuer_id, "/credential-offers"), query }
    }
}

impl MgmtApiClient {
    /// Lists the credentials issued by an issuer, a page at a time, filtered
    /// by state and credential type when those are given.
    pub fn list_issued_credentials(
        &self,
        issuer_id: &str,
        limit: Option<u32>,
        cursor: Option<&str>,
        state: Option<&str>,
        vct: Option<&str>,
    ) -> (r: UpstreamRequest)
        ensures
            r.url@ == self.base_url@ + "/api/v1/issuers/"@ + issuer_id@ + "/credentials"@,
            pairs_view(r.query@) == credentials_query(limit, opt_view(cursor), opt_view(state), opt_view(vct)),
    {
        let offers = self.list_credential_offers(issuer_id, limit, cursor);
        let mut query = offers.query;
        let ghost base = query@;
        match state {
            Some(v) => {
                query.push(pair("state", v));
            },
            None => {},
        }
        let ghost after_state = query@;
        match vct {
            Some(v) => {
                query.push(pair("vct", v));
            },
            None => {},
        }
        proof {
            let q0 = offers_query(limit, opt_view(cursor));
            assert(pairs_view(base) == q0);
            let q1 = match opt_view(state) {
                Some(v) => q0.push(("state"@, v)),
                None => q0,
            };
            assert(pairs_view(after_state) =~= q1);
            assert(pairs_view(query@) =~= credentials_query(limit, opt_view(cursor), opt_view(state), opt_view(vct)));
        }
        UpstreamRequest { url: self.url_with_id("/api/v1/issuers/", issuer_id, "/credentials"), query }
    }

    /// One credential issued by an issuer.
    pub fn issued_credential(&self, issuer_id: &str, credential_id: &str) -> (r: String)
        ensures
            r@ == self.base_url@ + "/api/v1/issuers/"@ + issuer_id@ + "/credentials/"@ + credential_id@,
    {
        let head = self.url_with_id("/api/v1/issuers/", issuer_id, "/credentials/");
        concat2(head.as_str(), credential_id)
    }

    /// Suspends an issued credential (`POST`, no body).
    pub fn suspend_issued_credential(&self, issuer_id: &str, credential_id: &str) -> (r: String)
        ensures
            r@ == self.base_url@ + "/api/v1/issuers/"@ + issuer_id@ + "/credentials/"@ + credential_id@
                + "/suspend"@,
    {
        let head = self.issued_credential(issuer_id, credential_id);
        concat2(head.as_str(), "/suspend")
    }

    /// Resumes a suspended credential (`POST`, no body); the management API
    /// calls this `unsuspend`.
    pub fn unsuspend_issued_credential(&self, issuer_id: &str, credential_id: &str) -> (r: String)
        ensures
            r@ == self.base_url@ + "/api/v1/issuers/"@ + issuer_id@ + "/credentials/"@ + credential_id@
                + "/unsuspend"@,
    {
        let head = self.issued_credential(issuer_id, credential_id);
        concat2(head.as_str(), "/unsuspend")
    }

    /// Revokes an issued credential for good (`POST`, no body).
    pub fn revoke_issued_credential(&self, issuer_id: &str, credential_id: &str) -> (r: String)
        ensures
            r@ == self.base_url@ + "/api/v1/issuers/"@ + issuer_id@ + "/credentials/"@ + credential_id@
                + "/revoke"@,
    {
        let head = self.issued_credential(issuer_id, credential_id);
        concat2(head.as_str(), "/revoke")
    }

    /// Cancels a pending credential offer (`POST`).
    pub fn cancel_credential_offer(&self, issuer_id: &str, offer_id: &str) -> (r: String)
        ensures
            r@ == self.base_url@ + "/api/v1/issuers/"@ + issuer_id@ + "/credential-offers/"@ + offer_id@
                + "/cancel"@,
    {
        let head = self.credential_offer(issuer_id, offer_id);
        concat2(head.as_str(), "/cancel")
    }
}

impl MgmtApiClient {
    /// The issuers collection: listed with `GET`, created with `POST`.
    pub fn issuers(&self) -> (r: String)
        ensures
            r@ == self.base_url@ + "/api/v1/issuers"@,
    {
        self.url("/api/v1/issuers")
    }

    /// One issuer.
    pub fn issuer(&self, issuer_id: &str) -> (r: String)
        ensures
            r@ == self.base_url@ + "/api/v1/issuers/"@ + issuer_id@ + ""@,
    {
        self.url_with_id("/api/v1/issuers/", issuer_id, "")
    }

    /// Deactivates an issuer (`POST`).
    pub fn deactivate_issuer(&self, issuer_id: &str) -> (r: String)
        ensures
            r@ == self.base_url@ + "/api/v1/issuers/"@ + issuer_id@ + "/deactivate"@,
    {
        self.url_with_id("/api/v1/issuers/", issuer_id, "/deactivate")
    }

    /// Rotates an issuer's keys (`POST`).
    pub fn rotate_keys(&self, issuer_id: &str) -> (r: String)
        ensures
            r@ == self.base_url@ + "/api/v1/issuers/"@ + issuer_id@ + "/rotate-keys"@,
    {
        self.url_with_id("/api/v1/issuers/", issuer_id, "/rotate-keys")
    }

    /// One operation task.
    pub fn operation_task(&self, task_id: &str) -> (r: String)
        ensures
            r@ == self.base_url@ + "/api/v1/operation-tasks/"@ + task_id@ + ""@,
    {
        self.url_with_id("/api/v1/operation-tasks/", task_id, "")
    }

    /// The credential offers of an issuer, where one is created (`POST`).
    pub fn credential_offers(&self, issuer_id: &str) -> (r: String)
        ensures
            r@ == self.base_url@ + "/api/v1/issuers/"@ + issuer_id@ + "/credential-offers"@,
    {
        self.url_with_id("/api/v1/issuers/", issuer_id, "/credential-offers")
    }

    /// One credential offer of an issuer.
    pub fn credential_offer(&self, issuer_id: &str, offer_id: &str) -> (r: String)
        ensures
            r@ == self.base_url@ + "/api/v1/issuers/"@ + issuer_id@ + "/credential-offers/"@ + offer_id@,
    {
        let head = self.url_with_id("/api/v1/issuers/", issuer_id, "/credential-offers/");
        concat2(head.as_str(), offer_id)
    }

    /// The credential types of an issuer.
    pub fn credential_types(&self, issuer_id: &str) -> (r: String)
        ensures
            r@ == self.base_url@ + "/api/v1/issuers/"@ + issuer_id@ + "/credential-types"@,
    {
        self.url_with_id("/api/v1/issuers/", issuer_id, "/credential-types")
    }

    /// The JSON schema of a credential type.
    pub fn credential_type_schema(&self, credential_type_id: &str) -> (r: String)
        ensures
            r@ == self.base_url@ + "/api/v1/credential-types/"@ + credential_type_id@ + "/schema"@,
    {
        self.url_with_id("/api/v1/credential-types/", credential_type_id, "/schema")
    }
}

} // verus!
