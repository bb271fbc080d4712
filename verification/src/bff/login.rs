//! What the OIDC authorization-code login hands between its steps, and the
//! expiry it computes for the user's access token.

use openidconnect::{ClientId, ClientSecret, IssuerUrl, Nonce};
use vstd::prelude::*;

use crate::bff::pending::PendingLogin;
use crate::text::owned;

verus! {

/// Why the login client could not be set up.
#[derive(Debug)]
pub enum LoginClientError {
    /// The issuer or redirect URL in the configuration is not valid.
    Config(String),
    /// The HTTP client for the provider could not be built.
    HttpClient(String),
    /// Provider discovery failed.
    Discover(String),
}

/// Why completing a login failed.
#[derive(Debug)]
pub enum LoginError {
    /// The authorization-code exchange failed.
    Exchange(String),
    /// The token response carried no `id_token`.
    NoIdToken,
    /// The `id_token` did not verify.
    IdToken(String),
}

/// What beginning a login produced: the URL the browser is sent to, the CSRF
/// `state` under which the pending login is kept, and the pending secrets.
pub struct BeginLogin {
    pub authorize_url: String,
    pub state: String,
    pub pending: PendingLogin,
}

/// The established result of a completed login.
#[derive(Debug)]
pub struct VerifiedUser {
    pub iss: String,
    pub sub: String,
    pub access_token: String,
    pub refresh_token: Option<String>,
    /// The compact `id_token`, kept as the hint for single sign-out.
    pub id_token: String,
    pub access_expiry_unix: i64,
}

/// The expiry of a freshly granted access token: `now` plus the granted
/// lifetime, or `now` itself when the response states none or one that does not
/// fit an `i64`.
pub open spec fn access_expiry_at(now: i64, expires_in_secs: Option<u64>) -> int {
    match expires_in_secs {
        Some(secs) => if secs <= i64::MAX { now + secs } else { now as int },
        None => now as int,
    }
}

/// Computes [`access_expiry_at`]; the sum must fit an `i64`.
pub fn access_expiry(now: i64, expires_in_secs: Option<u64>) -> (r: i64)
    requires
        i64::MIN <= access_expiry_at(now, expires_in_secs) <= i64::MAX,
    ensures
        r == access_expiry_at(now, expires_in_secs),
{
    match expires_in_secs {
        Some(secs) => {
            if secs <= 0x7fff_ffff_ffff_ffffu64 {
                now + (secs as i64)
            } else {
                now
            }
        },
        None => now,
    }
}

/// Verifies a compact ID token with `openidconnect`: parses it as a
/// `CoreIdToken`, the key set from `keys_json` and the allowed signing
/// algorithms from `algs_json`, and calls `IdToken::claims` with a
/// confidential-client `CoreIdTokenVerifier` for `issuer`, `client_id` and
/// `client_secret`, and the nonce `nonce`. The crate checks the signature
/// against the keys, the algorithm, that `iss` is exactly `issuer`, that `aud`
/// holds the client id, the expiry against the clock and the nonce. The result
/// is the token's `(iss, sub)`, or `None` when any step fails. The contract
/// states only the issuer match: whether the token is still valid depends on
/// the clock, so what comes back is not a function of the arguments.
#[verifier::external_body]
pub(crate) fn verify_id_token(
    id_token: &str,
    keys_json: &str,
    algs_json: &str,
    issuer: &str,
    client_id: &str,
    client_secret: &str,
    nonce: &str,
) -> (r: Option<(String, String)>)
    ensures
        r matches Some(v) ==> v.0@ == issuer@,
{
    let token = id_token.parse::<openidconnect::core::CoreIdToken>().ok()?;
    let keys = serde_json::from_str(keys_json).ok()?;
    let algs: Vec<_> = serde_json::from_str(algs_json).ok()?;
    let issuer = IssuerUrl::new(issuer.to_string()).ok()?;
    let id = ClientId::new(client_id.to_string());
    let secret = ClientSecret::new(client_secret.to_string());
    let verifier = openidconnect::core::CoreIdTokenVerifier::new_confidential_client(id, secret, issuer, keys)
        .set_allowed_algs(algs);
    let claims = token.claims(&verifier, &Nonce::new(nonce.to_string())).ok()?;
    Some((claims.issuer().as_str().to_string(), claims.subject().as_str().to_string()))
}

/// What the token endpoint granted for an authorization code.
#[derive(Debug)]
pub struct TokenGrant {
    pub access_token: String,
    pub refresh_token: Option<String>,
    /// The compact `id_token`, when the response carried one.
    pub id_token: Option<String>,
    /// The granted lifetime of the access token, in seconds.
    pub expires_in_secs: Option<u64>,
}

/// What an `id_token` is checked against: the realm's key set and allowed
/// signing algorithms (each as its JSON text), the realm's issuer, and the
/// client's credentials.
#[derive(Debug)]
pub struct IdTokenCheck {
    pub keys_json: String,
    pub algs_json: String,
    pub issuer: String,
    pub client_id: String,
    pub client_secret: String,
}

/// The user a login established, from the outcome of the `id_token` check
/// (`identity` is its verified `(iss, sub)`, `None` when it did not verify),
/// the grant and the token itself, at `now` (seconds).
pub fn verified_user(identity: Option<(String, String)>, grant: TokenGrant, id_token: String, now: i64) -> (r: Result<
    VerifiedUser,
    LoginError,
>)
    requires
        i64::MIN <= access_expiry_at(now, grant.expires_in_secs) <= i64::MAX,
    ensures
        match identity {
            None => r matches Err(LoginError::IdToken(_)),
            Some((iss, sub)) => r matches Ok(u) && u.iss == iss && u.sub == sub && u.access_token
                == grant.access_token && u.refresh_token == grant.refresh_token && u.id_token == id_token
                && u.access_expiry_unix == access_expiry_at(now, grant.expires_in_secs),
        },
{
    match identity {
        None => Err(LoginError::IdToken(owned("id_token did not verify"))),
        Some((iss, sub)) => {
            let access_expiry_unix = access_expiry(now, grant.expires_in_secs);
            Ok(VerifiedUser {
                iss,
                sub,
                access_token: grant.access_token,
                refresh_token: grant.refresh_token,
                id_token,
                access_expiry_unix,
            })
        },
    }
}

/// Completes a login once the code is exchanged: the grant must carry an
/// `id_token` (else [`LoginError::NoIdToken`]), which is verified against
/// `check` and the pending login's nonce; the verified user then carries the
/// realm's issuer, the token's subject, the grant's tokens and the access
/// token's expiry.
pub fn finish_login(grant: TokenGrant, check: &IdTokenCheck, pending: &PendingLogin, now: i64) -> (r: Result<
    VerifiedUser,
    LoginError,
>)
    requires
        i64::MIN <= access_expiry_at(now, grant.expires_in_secs) <= i64::MAX,
    ensures
        grant.id_token is None ==> r matches Err(LoginError::NoIdToken),
        r matches Ok(u) ==> {
            &&& u.iss@ == check.issuer@
            &&& grant.id_token == Some(u.id_token)
            &&& u.access_token == grant.access_token
            &&& u.refresh_token == grant.refresh_token
            &&& u.access_expiry_unix == access_expiry_at(now, grant.expires_in_secs)
        },
        r matches Err(e) ==> (e is NoIdToken <==> grant.id_token is None) && (e is NoIdToken || e is IdToken),
{
    let TokenGrant { access_token, refresh_token, id_token, expires_in_secs } = grant;
    let id_token = match id_token {
        Some(t) => t,
        None => return Err(LoginError::NoIdToken),
    };
    let identity = verify_id_token(
        id_token.as_str(),
        check.keys_json.as_str(),
        check.algs_json.as_str(),
        check.issuer.as_str(),
        check.client_id.as_str(),
        check.client_secret.as_str(),
        pending.nonce.as_str(),
    );
    verified_user(identity, TokenGrant { access_token, refresh_token, id_token: None, expires_in_secs }, id_token, now)
}

} // verus!
