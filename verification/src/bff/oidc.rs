//! The realm endpoints, built by Keycloak's well-known paths from two bases: the
//! public issuer (browser-facing URLs and the verified `iss`) and the internal
//! base (the back end's own token and key-set calls).

use vstd::prelude::*;

use crate::text::{concat2, owned, trim_end_char, trim_end_slashes};

verus! {

/// The realm endpoints the back end needs.
#[derive(Debug)]
pub struct OidcEndpoints {
    /// Public issuer; the `iss` verified on the id token.
    pub issuer: String,
    /// Browser-facing authorization endpoint.
    pub authorize_endpoint: String,
    /// Browser-facing logout endpoint.
    pub end_session_endpoint: String,
    /// Back-channel token endpoint.
    pub token_endpoint: String,
    /// Back-channel key-set endpoint.
    pub jwks_uri: String,
}

impl OidcEndpoints {
    /// Builds the endpoints: browser-facing URLs from `issuer_url`, back-channel
    /// URLs from `internal_url`, each without trailing slashes.
    pub fn build(issuer_url: &str, internal_url: &str) -> (r: Self)
        ensures
            r.issuer@ == trim_end_char(issuer_url@, '/'),
            r.authorize_endpoint@ == trim_end_char(issuer_url@, '/') + "/protocol/openid-connect/auth"@,
            r.end_session_endpoint@ == trim_end_char(issuer_url@, '/') + "/protocol/openid-connect/logout"@,
            r.token_endpoint@ == trim_end_char(internal_url@, '/') + "/protocol/openid-connect/token"@,
            r.jwks_uri@ == trim_end_char(internal_url@, '/') + "/protocol/openid-connect/certs"@,
    {
        let issuer = trim_end_slashes(issuer_url);
        let internal = trim_end_slashes(internal_url);
        OidcEndpoints {
            authorize_endpoint: concat2(issuer, "/protocol/openid-connect/auth"),
            end_session_endpoint: concat2(issuer, "/protocol/openid-connect/logout"),
            token_endpoint: concat2(internal, "/protocol/openid-connect/token"),
            jwks_uri: concat2(internal, "/protocol/openid-connect/certs"),
            issuer: owned(issuer),
        }
    }
}

} // verus!
