//! Per-user token grants against the realm: refreshing the logged-in user's
//! access token, and exchanging it (RFC 8693) for a management-API token that
//! acts as the user.

use vstd::prelude::*;

use crate::bff::token::{is_success_status, status_is_success};
use crate::encoding::{form_body, form_urlencoded, utf8_lossy, utf8_lossy_text};
use crate::text::{pair, pairs_view};

verus! {

/// Subtracted from a refreshed token's `expires_in`, in seconds, so that it is
/// renewed before the realm considers it expired.
pub const SAFETY_MARGIN_SECS: i64 = 30;

/// The RFC 8693 token-exchange grant type.
pub const TOKEN_EXCHANGE_GRANT: &'static str = "urn:ietf:params:oauth:grant-type:token-exchange";

/// The token type of the subject token.
pub const ACCESS_TOKEN_TYPE: &'static str = "urn:ietf:params:oauth:token-type:access_token";

/// The client scope that carries the brokered identity into the exchanged
/// token's `user_identity` claim.
pub const ACT_AS_USER_SCOPE: &'static str = "act-as-user";

/// Why a per-user grant failed.
#[derive(Debug)]
pub enum UserTokenError {
    /// The request did not complete; the transport's message.
    Transport(String),
    /// The token endpoint answered with a status other than success.
    Status { status: u16, body: String },
}

/// Reads the status of a per-user grant's answer: a success lets the token
/// response be decoded; any other status fails with the status and the body's
/// text.
pub fn check_user_token_status(status: u16, body: &[u8]) -> (r: Result<(), UserTokenError>)
    ensures
        is_success_status(status) ==> r is Ok,
        !is_success_status(status) ==> (r matches Err(UserTokenError::Status { status: s, body: b }) && s == status
            && b@ == utf8_lossy(body@)),
{
    if status_is_success(status) {
        Ok(())
    } else {
        Err(UserTokenError::Status { status, body: utf8_lossy_text(body) })
    }
}

/// A refreshed user access token and the refresh token to use next.
#[derive(Debug)]
pub struct RefreshedUserToken {
    pub access_token: String,
    pub refresh_token: String,
    pub access_expiry_unix: i64,
}

/// The `refresh_token` grant request.
pub open spec fn refresh_form(refresh_token: Seq<char>, client_id: Seq<char>, client_secret: Seq<char>) -> Seq<
    (Seq<char>, Seq<char>),
> {
    seq![
        ("grant_type"@, "refresh_token"@),
        ("refresh_token"@, refresh_token),
        ("client_id"@, client_id),
        ("client_secret"@, client_secret),
    ]
}

/// The RFC 8693 exchange request: the user's access token as the subject,
/// asking for the act-as-user scope.
pub open spec fn exchange_form(subject_token: Seq<char>, client_id: Seq<char>, client_secret: Seq<char>) -> Seq<
    (Seq<char>, Seq<char>),
> {
    seq![
        ("grant_type"@, TOKEN_EXCHANGE_GRANT@),
        ("subject_token"@, subject_token),
        ("subject_token_type"@, ACCESS_TOKEN_TYPE@),
        ("scope"@, ACT_AS_USER_SCOPE@),
        ("client_id"@, client_id),
        ("client_secret"@, client_secret),
    ]
}

/// The expiry of a refreshed token granted at `now` for `expires_in` seconds:
/// `now` plus the lifetime, read as an `i64`, less the safety margin.
pub open spec fn refreshed_expiry(now: i64, expires_in: u64) -> int {
    now + ((expires_in as i64) - SAFETY_MARGIN_SECS)
}

/// Client for the per-user grants: the `refresh_token` grant and the RFC 8693
/// token exchange, both against the realm's token endpoint.
pub struct UserTokens {
    pub token_endpoint: String,
    pub client_id: String,
    pub client_secret: String,
}

impl UserTokens {
    pub fn new(token_endpoint: String, client_id: String, client_secret: String) -> (r: Self)
        ensures
            r.token_endpoint == token_endpoint,
            r.client_id == client_id,
            r.client_secret == client_secret,
    {
        UserTokens { token_endpoint, client_id, client_secret }
    }

    /// The form body of the `refresh_token` grant for `refresh_token`.
    pub fn refresh_body(&self, refresh_token: &str) -> (r: String)
        ensures
            r@ == form_urlencoded(refresh_form(refresh_token@, self.client_id@, self.client_secret@)),
    {
        let mut pairs: Vec<(String, String)> = Vec::new();
        pairs.push(pair("grant_type", "refresh_token"));
        pairs.push(pair("refresh_token", refresh_token));
        pairs.push(pair("client_id", self.client_id.as_str()));
        pairs.push(pair("client_secret", self.client_secret.as_str()));
        proof {
            assert(pairs_view(pairs@) =~= refresh_form(refresh_token@, self.client_id@, self.client_secret@));
        }
        form_body(&pairs)
    }

    /// The form body of the exchange of `subject_access_token` for a
    /// management-API token.
    pub fn exchange_body(&self, subject_access_token: &str) -> (r: String)
        ensures
            r@ == form_urlencoded(exchange_form(subject_access_token@, self.client_id@, self.client_secret@)),
    {
        let mut pairs: Vec<(String, String)> = Vec::new();
        pairs.push(pair("grant_type", TOKEN_EXCHANGE_GRANT));
        pairs.push(pair("subject_token", subject_access_token));
        pairs.push(pair("subject_token_type", ACCESS_TOKEN_TYPE));
        pairs.push(pair("scope", ACT_AS_USER_SCOPE));
        pairs.push(pair("client_id", self.client_id.as_str()));
        pairs.push(pair("client_secret", self.client_secret.as_str()));
        proof {
            assert(pairs_view(pairs@) =~= exchange_form(
                subject_access_token@,
                self.client_id@,
                self.client_secret@,
            ));
        }
        form_body(&pairs)
    }
}

/// The outcome of a successful refresh granted at `now`: the new access token,
/// the rotated refresh token (the presented one when the realm does not rotate),
/// and the expiry of [`refreshed_expiry`].
pub fn refreshed_token(
    presented_refresh_token: &str,
    access_token: String,
    rotated_refresh_token: Option<String>,
    expires_in: u64,
    now: i64,
) -> (r: RefreshedUserToken)
    requires
        i64::MIN <= (expires_in as i64) - SAFETY_MARGIN_SECS,
        i64::MIN <= refreshed_expiry(now, expires_in) <= i64::MAX,
    ensures
        r.access_token == access_token,
        r.refresh_token@ == match rotated_refresh_token {
            Some(t) => t@,
            None => presented_refresh_token@,
        },
        r.access_expiry_unix == refreshed_expiry(now, expires_in),
{
    #[verifier::truncate]
    let lifetime: i64 = expires_in as i64;
    let refresh_token = match rotated_refresh_token {
        Some(t) => t,
        None => presented_refresh_token.to_owned(),
    };
    RefreshedUserToken { access_expiry_unix: now + (lifetime - SAFETY_MARGIN_SECS), refresh_token, access_token }
}

} // verus!
