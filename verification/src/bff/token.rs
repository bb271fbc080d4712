//! The back end's own first-party `client_credentials` access token: the grant
//! request, and the cache that hands out the token until shortly before it
//! expires. The clock is a monotonic one, in milliseconds.

use vstd::prelude::*;

use crate::encoding::{form_body, form_urlencoded, utf8_lossy, utf8_lossy_text};
use crate::text::{pair, pairs_view};

verus! {

/// Subtracted from the token's `expires_in`, in seconds, so that a token is
/// renewed before the realm considers it expired.
pub const SAFETY_MARGIN_SECS: u64 = 30;

/// Why a token grant failed.
#[derive(Debug)]
pub enum TokenError {
    /// The request did not complete; the transport's message.
    Transport(String),
    /// The token endpoint answered with a status other than success.
    Status { status: u16, body: String },
}

/// An HTTP status in the success class (`200..=299`).
pub open spec fn is_success_status(status: u16) -> bool {
    200 <= status <= 299
}

/// Decides [`is_success_status`].
pub fn status_is_success(status: u16) -> (r: bool)
    ensures
        r == is_success_status(status),
{
    200 <= status && status <= 299
}

/// Reads the status of a grant's answer: a success lets the token response be
/// decoded; any other status fails with the status and the body's text.
pub fn check_token_status(status: u16, body: &[u8]) -> (r: Result<(), TokenError>)
    ensures
        is_success_status(status) ==> r is Ok,
        !is_success_status(status) ==> (r matches Err(TokenError::Status { status: s, body: b }) && s == status
            && b@ == utf8_lossy(body@)),
{
    if status_is_success(status) {
        Ok(())
    } else {
        Err(TokenError::Status { status, body: utf8_lossy_text(body) })
    }
}

/// A minted token and the instant, in milliseconds, from which it is no longer
/// handed out.
#[derive(Debug)]
pub struct CachedToken {
    pub token: String,
    pub expires_at: u64,
}

/// How long, in milliseconds, a token granted for `expires_in` seconds is
/// handed out: its lifetime less the safety margin, and never less than zero.
pub open spec fn cache_lifetime_ms(expires_in: u64) -> int {
    (if expires_in >= SAFETY_MARGIN_SECS { expires_in - SAFETY_MARGIN_SECS } else { 0 }) * 1000
}

/// The token the cache hands out at `now`: the cached one while `now` is before
/// its expiry, else none.
pub open spec fn token_at(cached: Option<CachedToken>, now: u64) -> Option<String> {
    match cached {
        Some(entry) => if now < entry.expires_at {
            Some(entry.token)
        } else {
            None
        },
        None => None,
    }
}

/// The grant request for the first-party token: `client_credentials`, with the
/// client's credentials in the form body (`client_secret_post`).
pub open spec fn client_credentials_form(client_id: Seq<char>, client_secret: Seq<char>) -> Seq<(Seq<char>, Seq<char>)> {
    seq![("grant_type"@, "client_credentials"@), ("client_id"@, client_id), ("client_secret"@, client_secret)]
}

/// The form body of a `client_credentials` grant for the given client.
pub fn client_credentials_body(client_id: &str, client_secret: &str) -> (r: String)
    ensures
        r@ == form_urlencoded(client_credentials_form(client_id@, client_secret@)),
{
    let mut pairs: Vec<(String, String)> = Vec::new();
    pairs.push(pair("grant_type", "client_credentials"));
    pairs.push(pair("client_id", client_id));
    pairs.push(pair("client_secret", client_secret));
    proof {
        assert(pairs_view(pairs@) =~= client_credentials_form(client_id@, client_secret@));
    }
    form_body(&pairs)
}

/// Mints and caches the back end's first-party access token. One instance per
/// process: the back end authenticates as a single confidential client.
pub struct FirstPartyTokenProvider {
    pub token_endpoint: String,
    pub client_id: String,
    pub client_secret: String,
    /// The token handed out until its expiry, once one was minted.
    pub cached: Option<CachedToken>,
}

impl FirstPartyTokenProvider {
    /// A provider with nothing cached.
    pub fn new(token_endpoint: String, client_id: String, client_secret: String) -> (r: Self)
        ensures
            r.token_endpoint == token_endpoint,
            r.client_id == client_id,
            r.client_secret == client_secret,
            r.cached is None,
    {
        FirstPartyTokenProvider { token_endpoint, client_id, client_secret, cached: None }
    }

    /// The cached token, if it is still valid at `now`; `None` means a token has
    /// to be minted.
    pub fn current(&self, now: u64) -> (r: Option<String>)
        ensures
            r == token_at(self.cached, now),
    {
        match &self.cached {
            Some(entry) => {
                if now < entry.expires_at {
                    Some(entry.token.clone())
                } else {
                    None
                }
            },
            None => None,
        }
    }

    /// The form body of the grant request.
    pub fn request_body(&self) -> (r: String)
        ensures
            r@ == form_urlencoded(client_credentials_form(self.client_id@, self.client_secret@)),
    {
        client_credentials_body(self.client_id.as_str(), self.client_secret.as_str())
    }

    /// Caches a freshly minted token, granted at `now` for `expires_in` seconds,
    /// and returns it. It is handed out until its lifetime less the safety margin
    /// has passed.
    pub fn store(&mut self, access_token: String, expires_in: u64, now: u64) -> (r: String)
        requires
            now + cache_lifetime_ms(expires_in) <= u64::MAX,
        ensures
            r == access_token,
            final(self).cached == Some(
                CachedToken { token: access_token, expires_at: (now + cache_lifetime_ms(expires_in)) as u64 },
            ),
            final(self).token_endpoint == old(self).token_endpoint,
            final(self).client_id == old(self).client_id,
            final(self).client_secret == old(self).client_secret,
    {
        let lifetime_secs: u64 = if expires_in >= SAFETY_MARGIN_SECS { expires_in - SAFETY_MARGIN_SECS } else { 0 };
        let lifetime_ms: u64 = lifetime_secs * 1000;
        let token = access_token.clone();
        self.cached = Some(CachedToken { token: access_token, expires_at: now + lifetime_ms });
        token
    }
}

/// The cache never hands out a token at or after the instant it was set to stop:
/// whatever it returns at `now` is the cached token, and `now` is before its
/// expiry.
pub proof fn lemma_cache_never_hands_out_expired(cached: Option<CachedToken>, now: u64)
    ensures
        token_at(cached, now) matches Some(t) ==> (cached matches Some(entry) && entry.token == t && now
            < entry.expires_at),
{
}

/// A token stored at `now` for `expires_in` seconds is handed out, unchanged,
/// at every instant before its lifetime less the safety margin has passed, and
/// at none after.
pub proof fn lemma_stored_token_served_until_margin(token: String, expires_in: u64, now: u64, later: u64)
    requires
        now + cache_lifetime_ms(expires_in) <= u64::MAX,
        now <= later,
    ensures
        token_at(
            Some(CachedToken { token, expires_at: (now + cache_lifetime_ms(expires_in)) as u64 }),
            later,
        ) == (if later < now + cache_lifetime_ms(expires_in) {
            Some(token)
        } else {
            None::<String>
        }),
{
}

} // verus!
