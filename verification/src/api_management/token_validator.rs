//! Validation of the bearer JWTs the management API accepts: structure, header,
//! and claims, and the classification of the caller into a [`Principal`].
//!
//! Fetching the realm's keys is outside work; the caller performs it between
//! [`TokenValidator::begin`] and [`TokenValidator::verify_and_conclude`],
//! driving the key cache in [`super::jwks`].

use vstd::prelude::*;
use vstd::utf8::encode_utf8;

use crate::domain::ids::{TenantId, parse_wire_id, tenant_kind};
use crate::domain::user_account::UserIdentity;
use crate::encoding::{b64url_decode, base64url_decode, ed25519_verifies, ed25519_verify};
use super::jwks::{JwksCache, JwksError, index_keys, kid_entries, entries_view};
use crate::json::{Json, json_decode, parse_json};
use crate::text::{chars_of, concat2, concat3, owned, str_eq, trim_end_char, trim_end_slashes};

verus! {

/// Why validation failed, at the granularity the caller needs to pick a status.
#[derive(Debug, PartialEq, Eq, Structural)]
pub enum TokenError {
    /// The token is the caller's fault (bad structure, signature or claims,
    /// unknown key id). Maps to 401.
    Invalid,
    /// No keys are held to validate against (cold start with the key server
    /// unreachable). Maps to 503.
    KeysUnavailable,
}

/// The kind of caller a validated token represents.
#[derive(Debug, PartialEq, Eq)]
pub enum Principal {
    /// A caller bound to one tenant, named by its `tenant_id` claim.
    Tenant(TenantId),
    /// The trusted first-party back end acting administratively: any
    /// first-party token that is not a complete exchanged one (in practice a
    /// plain client-credentials token); carries no tenant.
    FirstParty,
    /// The first-party back end acting as a logged-in user: an exchanged
    /// first-party token carrying `act` and the user's signed `user_identity`.
    /// The account acted as is named per request and checked against this
    /// identity.
    ActingUser(UserIdentity),
}

/// A principal read as: `Some(bare tenant id)` for a tenant, `None` for the
/// first party.
pub open spec fn principal_view(p: Principal) -> Option<Seq<char>> {
    match p {
        Principal::Tenant(t) => Some(t@),
        Principal::FirstParty => None,
        Principal::ActingUser(_) => None,
    }
}

/// The user identity a principal acts for, as `(iss, sub)`: only an acting
/// user has one.
pub open spec fn principal_identity(p: Principal) -> Option<(Seq<char>, Seq<char>)> {
    match p {
        Principal::ActingUser(i) => Some((i.iss@, i.sub@)),
        _ => None,
    }
}

/// The only accepted signature algorithm.
pub open spec fn expected_alg() -> Seq<char> {
    "EdDSA"@
}

/// Default clock-skew leeway for `exp` and `nbf`, in seconds.
pub const DEFAULT_LEEWAY_SECS: i64 = 60;

// ---------------------------------------------------------------------------
// Splitting a compact JWT.

/// `k` is the position of the first `c` in `s`.
pub open spec fn is_first(s: Seq<char>, k: int, c: char) -> bool {
    0 <= k < s.len() && s[k] == c && forall|j: int| 0 <= j < k ==> s[j] != c
}

/// `s` contains `c`.
pub open spec fn has_char(s: Seq<char>, c: char) -> bool {
    exists|j: int| 0 <= j < s.len() && s[j] == c
}

/// The position of the first `c` in `s`, if any.
pub open spec fn first_index(s: Seq<char>, c: char) -> Option<int> {
    if has_char(s, c) {
        Some(choose|k: int| is_first(s, k, c))
    } else {
        None
    }
}

/// The three dot-separated segments of `s`, when `s` holds exactly two dots
/// (as `split('.')` yielding exactly three pieces).
pub open spec fn split3(s: Seq<char>) -> Option<(Seq<char>, Seq<char>, Seq<char>)> {
    match first_index(s, '.') {
        None => None,
        Some(d1) => {
            let rest = s.skip(d1 + 1);
            match first_index(rest, '.') {
                None => None,
                Some(d2) => {
                    let tail = rest.skip(d2 + 1);
                    if has_char(tail, '.') {
                        None
                    } else {
                        Some((s.take(d1), rest.take(d2), tail))
                    }
                },
            }
        },
    }
}

proof fn lemma_first_index(s: Seq<char>, k: int, c: char)
    requires
        is_first(s, k, c),
    ensures
        first_index(s, c) == Some(k),
{
    assert(has_char(s, c));
    let k2 = choose|k: int| is_first(s, k, c);
    assert(is_first(s, k2, c));
    if k2 < k {
        assert(s[k2] != c);
    }
    if k < k2 {
        assert(s[k] != c);
    }
}

/// Position of the first `c` in `cs` at or after `from`.
fn find_from(cs: &Vec<char>, c: char, from: usize) -> (r: Option<usize>)
    requires
        from <= cs@.len(),
    ensures
        match r {
            Some(k) => from <= k && is_first(cs@.skip(from as int), k - from, c),
            None => !has_char(cs@.skip(from as int), c),
        },
{
    let mut i = from;
    while i < cs.len()
        invariant
            from <= i <= cs@.len(),
            forall|j: int| from <= j < i ==> cs@[j] != c,
        decreases cs@.len() - i,
    {
        if cs[i] == c {
            assert forall|j: int| 0 <= j < i - from implies cs@.skip(from as int)[j] != c by {
                assert(cs@.skip(from as int)[j] == cs@[from + j]);
            }
            return Some(i);
        }
        i = i + 1;
    }
    assert forall|j: int| 0 <= j < cs@.skip(from as int).len() implies cs@.skip(from as int)[j] != c by {
        assert(cs@.skip(from as int)[j] == cs@[from + j]);
    }
    None
}

/// A JWT broken into what signature verification and the claim checks need.
#[derive(Debug)]
pub struct ParsedJwt {
    /// The header's `alg`.
    pub alg: String,
    /// The header's `kid`, when it is a string.
    pub kid: Option<String>,
    /// The decoded payload document.
    pub payload: Json,
    /// `header.payload` in their encoded form: the text the signature covers.
    pub signing_input: String,
    /// The decoded signature.
    pub signature: Vec<u8>,
}

/// An optional string read as its text.
pub open spec fn opt_text(o: Option<String>) -> Option<Seq<char>> {
    match o {
        Some(s) => Some(s@),
        None => None,
    }
}

/// What a well-formed compact JWT `token` holds: `(alg, kid, payload,
/// signing_input, signature)`; `None` when the token has not exactly three
/// dot-separated segments, a segment is not unpadded URL-safe base64, the header
/// or payload is not a JSON document, or the header has no string `alg`.
pub open spec fn jwt_parts(token: Seq<char>) -> Option<(Seq<char>, Option<Seq<char>>, Json, Seq<char>, Seq<u8>)> {
    match split3(token) {
        None => None,
        Some((h, p, s)) => {
            match (base64url_decode(h), base64url_decode(p), base64url_decode(s)) {
                (Some(hb), Some(pb), Some(sb)) => {
                    match (json_decode(hb), json_decode(pb)) {
                        (Some(header), Some(payload)) => {
                            match header.str_field("alg"@) {
                                Some(alg) => Some((alg, header.str_field("kid"@), payload, h + seq!['.'] + p, sb)),
                                None => None,
                            }
                        },
                        _ => None,
                    }
                },
                _ => None,
            }
        },
    }
}

/// Breaks a compact JWT into its parts; `Err(())` exactly when [`jwt_parts`]
/// finds it malformed.
pub fn parse_jwt(token: &str) -> (r: Result<ParsedJwt, ()>)
    ensures
        match r {
            Ok(p) => jwt_parts(token@) == Some((p.alg@, opt_text(p.kid), p.payload, p.signing_input@, p.signature@)),
            Err(()) => jwt_parts(token@) is None,
        },
{
    let cs = chars_of(token);
    let n = cs.len();
    let d1 = match find_from(&cs, '.', 0) {
        Some(k) => k,
        None => {
            proof { assert(cs@.skip(0) =~= token@); }
            return Err(());
        },
    };
    proof {
        assert(cs@.skip(0) =~= token@);
        lemma_first_index(token@, d1 as int, '.');
    }
    let d2 = match find_from(&cs, '.', d1 + 1) {
        Some(k) => k,
        None => {
            return Err(());
        },
    };
    let ghost rest = token@.skip(d1 + 1);
    proof {
        lemma_first_index(rest, d2 - (d1 + 1), '.');
        assert(rest.skip(d2 - (d1 + 1) + 1) =~= token@.skip(d2 + 1));
        assert(rest.take(d2 - (d1 + 1)) =~= token@.subrange(d1 + 1, d2 as int));
    }
    if find_from(&cs, '.', d2 + 1).is_some() {
        return Err(());
    }
    let header_b64 = token.substring_char(0, d1);
    let payload_b64 = token.substring_char(d1 + 1, d2);
    let signature_b64 = token.substring_char(d2 + 1, n);
    proof {
        assert(header_b64@ =~= token@.take(d1 as int));
        assert(signature_b64@ =~= token@.skip(d2 + 1));
    }
    let header_bytes = match b64url_decode(header_b64) {
        Some(b) => b,
        None => return Err(()),
    };
    let payload_bytes = match b64url_decode(payload_b64) {
        Some(b) => b,
        None => return Err(()),
    };
    let signature = match b64url_decode(signature_b64) {
        Some(b) => b,
        None => return Err(()),
    };
    let header = match parse_json(header_bytes.as_slice()) {
        Some(h) => h,
        None => return Err(()),
    };
    let payload = match parse_json(payload_bytes.as_slice()) {
        Some(p) => p,
        None => return Err(()),
    };
    let alg = match header.get_str("alg") {
        Some(a) => a.to_owned(),
        None => return Err(()),
    };
    let kid = match header.get_str("kid") {
        Some(k) => Some(k.to_owned()),
        None => None,
    };
    let signing_input = concat3(header_b64, ".", payload_b64);
    proof {
        reveal_strlit(".");
        assert(signing_input@ =~= header_b64@ + seq!['.'] + payload_b64@);
    }
    Ok(ParsedJwt { alg, kid, payload, signing_input, signature })
}

// ---------------------------------------------------------------------------
// Claims.

/// `aud` (a string or an array of strings, RFC 7519) names `expected`.
pub open spec fn aud_names(aud: Option<Json>, expected: Seq<char>) -> bool {
    match aud {
        Some(Json::Str(s)) => s@ == expected,
        Some(Json::Array(items)) => exists|i: int| 0 <= i < items@.len() && (#[trigger] items@[i]).text() == Some(expected),
        _ => false,
    }
}

/// Whether `aud` names `expected`.
pub fn aud_contains(aud: Option<&Json>, expected: &str) -> (r: bool)
    ensures
        r == aud_names(crate::json::deref_opt(aud), expected@),
{
    match aud {
        Some(Json::Str(s)) => str_eq(s.as_str(), expected),
        Some(Json::Array(items)) => {
            let mut i: usize = 0;
            while i < items.len()
                invariant
                    i <= items@.len(),
                    aud_names(crate::json::deref_opt(aud), expected@) == (exists|j: int|
                        0 <= j < items@.len() && (#[trigger] items@[j]).text() == Some(expected@)),
                    forall|j: int| 0 <= j < i ==> (#[trigger] items@[j]).text() != Some(expected@),
                decreases items@.len() - i,
            {
                match items[i].as_str() {
                    Some(t) => {
                        if str_eq(t, expected) {
                            return true;
                        }
                    },
                    None => {},
                }
                i = i + 1;
            }
            false
        },
        _ => false,
    }
}

/// The user identity `(iss, sub)` an exchanged first-party token acts for: the
/// token has an `act` object and a `user_identity` object whose `iss` and `sub`
/// are strings.
pub open spec fn acting_identity(payload: Json) -> Option<(Seq<char>, Seq<char>)> {
    match (payload.field("act"@), payload.field("user_identity"@)) {
        (Some(Json::Object(_)), Some(ui)) => match (ui.str_field("iss"@), ui.str_field("sub"@)) {
            (Some(iss), Some(sub)) => Some((iss, sub)),
            _ => None,
        },
        _ => None,
    }
}

/// The outcome of the claim checks on `payload` at time `now` (seconds):
/// `None` when the token is rejected; otherwise the principal it names,
/// `Some(Some(bare tenant id))` for a tenant and `Some(None)` for the first party
/// (acting as a user when it has the complete exchanged shape, see
/// [`acting_identity`]).
///
/// A token is accepted when `iss` is the expected issuer, `aud` names the
/// expected audience, `exp` is an integer with `now <= exp + leeway`, `nbf` (if
/// an integer) satisfies `nbf <= now + leeway`, and `principal_type` is either
/// `tenant` with a `tenant_id` in wire form, or `first-party` (whatever the
/// token's shape).
pub open spec fn claims_outcome(
    payload: Json,
    expected_iss: Seq<char>,
    expected_aud: Seq<char>,
    now: i64,
    leeway: i64,
) -> Option<Option<Seq<char>>> {
    if payload.str_field("iss"@) != Some(expected_iss) {
        None
    } else if !aud_names(payload.field("aud"@), expected_aud) {
        None
    } else if payload.int_field("exp"@) is None {
        None
    } else if now > payload.int_field("exp"@)->0 + leeway {
        None
    } else if payload.int_field("nbf"@) is Some && now + leeway < payload.int_field("nbf"@)->0 {
        None
    } else if payload.str_field("principal_type"@) == Some("tenant"@) {
        match payload.str_field("tenant_id"@) {
            Some(t) => match parse_wire_id(tenant_kind(), t) {
                Some(bare) => Some(Some(bare)),
                None => None,
            },
            None => None,
        }
    } else if payload.str_field("principal_type"@) == Some("first-party"@) {
        Some(None)
    } else {
        None
    }
}

/// An accepted token carries the expected issuer, names the expected audience,
/// has not expired beyond the leeway, is not used before its `nbf` less the
/// leeway, and is either a tenant token whose `tenant_id` is the tenant's wire
/// id or a first-party token.
pub proof fn lemma_accepted_token_claims(
    payload: Json,
    expected_iss: Seq<char>,
    expected_aud: Seq<char>,
    now: i64,
    leeway: i64,
)
    requires
        claims_outcome(payload, expected_iss, expected_aud, now, leeway) is Some,
    ensures
        payload.str_field("iss"@) == Some(expected_iss),
        aud_names(payload.field("aud"@), expected_aud),
        payload.int_field("exp"@) matches Some(exp) && now <= exp + leeway,
        payload.int_field("nbf"@) matches Some(nbf) ==> nbf <= now + leeway,
        match claims_outcome(payload, expected_iss, expected_aud, now, leeway)->0 {
            Some(bare) => {
                &&& payload.str_field("principal_type"@) == Some("tenant"@)
                &&& payload.str_field("tenant_id"@) matches Some(t) && parse_wire_id(tenant_kind(), t) == Some(bare)
            },
            None => payload.str_field("principal_type"@) == Some("first-party"@),
        },
{
    reveal_strlit("tenant");
    reveal_strlit("first-party");
}

/// A token is accepted exactly when all its claim checks hold: the expected
/// issuer, the audience named, `exp` within the leeway, `nbf` (if any) within
/// the leeway, and a `principal_type` that is `tenant` with a wire-form
/// `tenant_id`, or `first-party`.
pub proof fn lemma_claims_accepted_iff(
    payload: Json,
    expected_iss: Seq<char>,
    expected_aud: Seq<char>,
    now: i64,
    leeway: i64,
)
    ensures
        (claims_outcome(payload, expected_iss, expected_aud, now, leeway) is Some) <==> {
            &&& payload.str_field("iss"@) == Some(expected_iss)
            &&& aud_names(payload.field("aud"@), expected_aud)
            &&& payload.int_field("exp"@) matches Some(exp) && now <= exp + leeway
            &&& (payload.int_field("nbf"@) matches Some(nbf) ==> nbf <= now + leeway)
            &&& {
                ||| (payload.str_field("principal_type"@) == Some("tenant"@) && (payload.str_field("tenant_id"@) matches Some(
                    t,
                ) && parse_wire_id(tenant_kind(), t) is Some))
                ||| payload.str_field("principal_type"@) == Some("first-party"@)
            }
        },
{
    reveal_strlit("tenant");
    reveal_strlit("first-party");
    assert("tenant"@[0] != "first-party"@[0]);
}

/// The caller is classified by `principal_type` and never by `azp`: two payloads
/// that agree on every member but `azp` have the same outcome.
pub proof fn lemma_classification_ignores_azp(
    p: Json,
    q: Json,
    expected_iss: Seq<char>,
    expected_aud: Seq<char>,
    now: i64,
    leeway: i64,
)
    requires
        forall|k: Seq<char>| k != "azp"@ ==> #[trigger] p.field(k) == q.field(k),
    ensures
        claims_outcome(p, expected_iss, expected_aud, now, leeway) == claims_outcome(
            q,
            expected_iss,
            expected_aud,
            now,
            leeway,
        ),
{
    reveal_strlit("azp");
    reveal_strlit("iss");
    reveal_strlit("aud");
    reveal_strlit("exp");
    reveal_strlit("nbf");
    reveal_strlit("principal_type");
    reveal_strlit("tenant_id");
    reveal_strlit("act");
    reveal_strlit("user_identity");
    assert("act"@[1] != "azp"@[1]);
    assert("user_identity"@[0] != "azp"@[0]);
    assert(p.field("act"@) == q.field("act"@));
    assert(p.field("user_identity"@) == q.field("user_identity"@));
    assert("iss"@[0] != "azp"@[0]);
    assert("aud"@[1] != "azp"@[1]);
    assert("exp"@[0] != "azp"@[0]);
    assert("nbf"@[0] != "azp"@[0]);
    assert("principal_type"@[0] != "azp"@[0]);
    assert("tenant_id"@[0] != "azp"@[0]);
    assert(p.field("iss"@) == q.field("iss"@));
    assert(p.field("aud"@) == q.field("aud"@));
    assert(p.field("exp"@) == q.field("exp"@));
    assert(p.field("nbf"@) == q.field("nbf"@));
    assert(p.field("principal_type"@) == q.field("principal_type"@));
    assert(p.field("tenant_id"@) == q.field("tenant_id"@));
}

/// A validation result read as [`claims_outcome`] reads it.
pub open spec fn outcome_of(r: Result<Principal, TokenError>) -> Option<Option<Seq<char>>> {
    match r {
        Ok(p) => Some(principal_view(p)),
        Err(_) => None,
    }
}

/// Checks `iss`, `aud`, `exp`, `nbf` and `principal_type` and classifies the
/// caller. Any failure is [`TokenError::Invalid`].
pub fn validate_claims(
    payload: &Json,
    expected_iss: &str,
    expected_aud: &str,
    now_ts: i64,
    leeway: i64,
) -> (r: Result<Principal, TokenError>)
    ensures
        outcome_of(r) == claims_outcome(*payload, expected_iss@, expected_aud@, now_ts, leeway),
        r matches Ok(p) ==> principal_identity(p) == (if principal_view(p) is None {
            acting_identity(*payload)
        } else {
            None
        }),
        r matches Err(e) ==> e == TokenError::Invalid,
{
    let iss = match payload.get_str("iss") {
        Some(i) => i,
        None => return Err(TokenError::Invalid),
    };
    if !str_eq(iss, expected_iss) {
        return Err(TokenError::Invalid);
    }
    if !aud_contains(payload.get("aud"), expected_aud) {
        return Err(TokenError::Invalid);
    }
    let exp = match payload.get_i64("exp") {
        Some(e) => e,
        None => return Err(TokenError::Invalid),
    };
    if (now_ts as i128) > (exp as i128) + (leeway as i128) {
        return Err(TokenError::Invalid);
    }
    match payload.get_i64("nbf") {
        Some(nbf) => {
            if (now_ts as i128) + (leeway as i128) < (nbf as i128) {
                return Err(TokenError::Invalid);
            }
        },
        None => {},
    }
    let principal_type = match payload.get_str("principal_type") {
        Some(p) => p,
        None => return Err(TokenError::Invalid),
    };
    if str_eq(principal_type, "tenant") {
        let tenant_id = match payload.get_str("tenant_id") {
            Some(t) => t,
            None => return Err(TokenError::Invalid),
        };
        match TenantId::parse(tenant_id) {
            Ok(t) => Ok(Principal::Tenant(t)),
            Err(_) => Err(TokenError::Invalid),
        }
    } else if str_eq(principal_type, "first-party") {
        first_party_principal(payload)
    } else {
        Err(TokenError::Invalid)
    }
}

/// Classifies an accepted first-party token by its shape: the complete
/// exchanged shape acts for its `user_identity`; any other shape is the
/// administrative first party.
fn first_party_principal(payload: &Json) -> (r: Result<Principal, TokenError>)
    ensures
        match acting_identity(*payload) {
            Some(id) => r matches Ok(p) && p is ActingUser && principal_identity(p) == Some(id),
            None => r == Ok::<Principal, TokenError>(Principal::FirstParty),
        },
{
    match (payload.get("act"), payload.get("user_identity")) {
        (Some(Json::Object(_)), Some(ui)) => match (ui.get_str("iss"), ui.get_str("sub")) {
            (Some(iss), Some(sub)) => Ok(Principal::ActingUser(UserIdentity { iss: owned(iss), sub: owned(sub) })),
            _ => Ok(Principal::FirstParty),
        },
        _ => Ok(Principal::FirstParty),
    }
}

// ---------------------------------------------------------------------------
// The validator.

/// Default freshness horizon of the cached key set: ten minutes.
pub const DEFAULT_JWKS_TTL_MS: u64 = 600_000;
/// Default minimum spacing between key-set fetches: thirty seconds.
pub const DEFAULT_JWKS_COOLDOWN_MS: u64 = 30_000;

/// The path of the key set below the realm issuer.
pub open spec fn certs_path() -> Seq<char> {
    "/protocol/openid-connect/certs"@
}

/// Validates bearer JWTs from the expected realm and audience.
pub struct TokenValidator {
    /// The issuer tokens must carry (`iss`).
    pub expected_iss: String,
    /// The audience tokens must name (`aud`).
    pub expected_aud: String,
    /// Clock-skew leeway for `exp` and `nbf`, in seconds.
    pub leeway_secs: i64,
    /// The realm key set.
    pub jwks: JwksCache,
}

impl TokenValidator {
    /// A validator for tokens of `issuer_url` addressed to `audience`, fetching
    /// keys from `jwks_url`, with the default leeway, TTL and cooldown.
    pub fn new(issuer_url: &str, jwks_url: &str, audience: &str) -> (r: Self)
        ensures
            r.expected_iss@ == issuer_url@,
            r.expected_aud@ == audience@,
            r.leeway_secs == DEFAULT_LEEWAY_SECS,
            r.jwks.jwks_url@ == jwks_url@,
            r.jwks.keys@.len() == 0,
            r.jwks.fetched_at is None,
            r.jwks.last_attempt is None,
            r.jwks.ttl_ms == DEFAULT_JWKS_TTL_MS,
            r.jwks.cooldown_ms == DEFAULT_JWKS_COOLDOWN_MS,
    {
        TokenValidator {
            expected_iss: issuer_url.to_owned(),
            expected_aud: audience.to_owned(),
            leeway_secs: DEFAULT_LEEWAY_SECS,
            jwks: JwksCache::new(jwks_url.to_owned(), DEFAULT_JWKS_TTL_MS, DEFAULT_JWKS_COOLDOWN_MS),
        }
    }

    /// A validator backed by a fixed key list (keys without a string `kid` are
    /// dropped), fetched at `now_ms` and never refreshed.
    pub fn with_static_jwks(issuer_url: &str, audience: &str, jwks_keys: Vec<Json>, now_ms: u64) -> (r: Self)
        ensures
            r.expected_iss@ == issuer_url@,
            r.expected_aud@ == audience@,
            r.leeway_secs == DEFAULT_LEEWAY_SECS,
            entries_view(r.jwks.keys@) == kid_entries(jwks_keys@),
            r.jwks.fetched_at == Some(now_ms),
            r.jwks.last_attempt is None,
    {
        let keys = index_keys(jwks_keys);
        TokenValidator {
            expected_iss: issuer_url.to_owned(),
            expected_aud: audience.to_owned(),
            leeway_secs: DEFAULT_LEEWAY_SECS,
            jwks: JwksCache::with_static_keys(keys, now_ms),
        }
    }

    /// The key-set URL of a realm issuer, by the OIDC convention.
    pub fn jwks_url_for_issuer(issuer_url: &str) -> (r: String)
        ensures
            r@ == trim_end_char(issuer_url@, '/') + certs_path(),
    {
        concat2(trim_end_slashes(issuer_url), "/protocol/openid-connect/certs")
    }

    /// First step of validation, before any key is looked up: the token must be
    /// a well-formed JWT whose header pins `alg` to `EdDSA` (closing algorithm
    /// confusion) and names a `kid`. Returns the parsed token and its `kid`.
    pub fn begin(token: &str) -> (r: Result<(ParsedJwt, String), TokenError>)
        ensures
            match r {
                Ok((p, kid)) => {
                    &&& jwt_parts(token@) == Some((p.alg@, opt_text(p.kid), p.payload, p.signing_input@, p.signature@))
                    &&& p.alg@ == expected_alg()
                    &&& opt_text(p.kid) == Some(kid@)
                },
                Err(e) => {
                    &&& e == TokenError::Invalid
                    &&& match jwt_parts(token@) {
                        None => true,
                        Some((alg, kid, _, _, _)) => alg != expected_alg() || kid is None,
                    }
                },
            },
    {
        let parsed = match parse_jwt(token) {
            Ok(p) => p,
            Err(()) => return Err(TokenError::Invalid),
        };
        if !str_eq(parsed.alg.as_str(), "EdDSA") {
            return Err(TokenError::Invalid);
        }
        let kid = match &parsed.kid {
            Some(k) => k.clone(),
            None => return Err(TokenError::Invalid),
        };
        Ok((parsed, kid))
    }

    /// Last step of validation, once the signature over `parsed.signing_input`
    /// was checked: a bad signature is invalid; otherwise the claims decide at
    /// `now_ts` (seconds).
    pub fn conclude(&self, parsed: &ParsedJwt, signature_valid: bool, now_ts: i64) -> (r: Result<Principal, TokenError>)
        ensures
            outcome_of(r) == (if signature_valid {
                claims_outcome(parsed.payload, self.expected_iss@, self.expected_aud@, now_ts, self.leeway_secs)
            } else {
                None
            }),
            r matches Ok(p) ==> principal_identity(p) == (if principal_view(p) is None {
                acting_identity(parsed.payload)
            } else {
                None
            }),
            r matches Err(e) ==> e == TokenError::Invalid,
    {
        if !signature_valid {
            return Err(TokenError::Invalid);
        }
        validate_claims(&parsed.payload, self.expected_iss.as_str(), self.expected_aud.as_str(), now_ts, self.leeway_secs)
    }
}

impl TokenValidator {
    /// Last step of validation with the key the cache produced: the signature
    /// is checked against the JWK ([`jwk_accepts`]); a bad one is invalid,
    /// otherwise the claims decide at `now_ts` (seconds).
    pub fn verify_and_conclude(&self, parsed: &ParsedJwt, jwk: &Json, now_ts: i64) -> (r: Result<Principal, TokenError>)
        ensures
            outcome_of(r) == (if jwk_accepts(*jwk, encode_utf8(parsed.signing_input@), parsed.signature@) {
                claims_outcome(parsed.payload, self.expected_iss@, self.expected_aud@, now_ts, self.leeway_secs)
            } else {
                None
            }),
            r matches Ok(p) ==> principal_identity(p) == (if principal_view(p) is None {
                acting_identity(parsed.payload)
            } else {
                None
            }),
            r matches Err(e) ==> e == TokenError::Invalid,
    {
        let valid = signature_valid(jwk, parsed.signing_input.as_str().as_bytes(), parsed.signature.as_slice());
        self.conclude(parsed, valid, now_ts)
    }
}

/// A JWK accepts `signature` over `input`: it is an Ed25519 key (`kty` OKP,
/// `crv` Ed25519) whose `x` is the base64url text of 32 bytes, the signature
/// has 64 bytes, and `ed25519_dalek` verifies it under that key. The algorithm
/// is pinned to EdDSA, so a key of any other type is refused.
pub open spec fn jwk_accepts(jwk: Json, input: Seq<u8>, signature: Seq<u8>) -> bool {
    &&& jwk.str_field("kty"@) == Some("OKP"@)
    &&& jwk.str_field("crv"@) == Some("Ed25519"@)
    &&& match jwk.str_field("x"@) {
        Some(x) => match base64url_decode(x) {
            Some(key) => key.len() == 32 && signature.len() == 64 && ed25519_verifies(key, input, signature),
            None => false,
        },
        None => false,
    }
}

/// Decides [`jwk_accepts`].
pub fn signature_valid(jwk: &Json, input: &[u8], signature: &[u8]) -> (r: bool)
    ensures
        r == jwk_accepts(*jwk, input@, signature@),
{
    let kty_ok = match jwk.get_str("kty") {
        Some(k) => str_eq(k, "OKP"),
        None => false,
    };
    let crv_ok = match jwk.get_str("crv") {
        Some(c) => str_eq(c, "Ed25519"),
        None => false,
    };
    if !kty_ok || !crv_ok {
        return false;
    }
    let x = match jwk.get_str("x") {
        Some(x) => x,
        None => return false,
    };
    let key = match b64url_decode(x) {
        Some(k) => k,
        None => return false,
    };
    if key.len() != 32 || signature.len() != 64 {
        return false;
    }
    ed25519_verify(key.as_slice(), input, signature)
}

/// The validation error a failed key lookup stands for: a cold start without
/// keys is transient, an unknown key id is the token's fault.
pub fn lookup_error(e: JwksError) -> (r: TokenError)
    ensures
        r == (match e {
            JwksError::Unavailable => TokenError::KeysUnavailable,
            JwksError::UnknownKid => TokenError::Invalid,
        }),
{
    match e {
        JwksError::Unavailable => TokenError::KeysUnavailable,
        JwksError::UnknownKid => TokenError::Invalid,
    }
}

/// The tenant-only reading of a validation result: a first-party token is
/// rejected as invalid where only a tenant context is meaningful.
pub fn tenant_of(r: Result<Principal, TokenError>) -> (t: Result<TenantId, TokenError>)
    ensures
        match r {
            Ok(Principal::Tenant(id)) => t matches Ok(x) && x@ == id@,
            Ok(Principal::FirstParty) => t == Err::<TenantId, TokenError>(TokenError::Invalid),
            Ok(Principal::ActingUser(_)) => t == Err::<TenantId, TokenError>(TokenError::Invalid),
            Err(e) => t == Err::<TenantId, TokenError>(e),
        },
{
    match r {
        Ok(Principal::Tenant(id)) => Ok(id),
        Ok(Principal::FirstParty) => Err(TokenError::Invalid),
        Ok(Principal::ActingUser(_)) => Err(TokenError::Invalid),
        Err(e) => Err(e),
    }
}

} // verus!
