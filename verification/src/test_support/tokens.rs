//! Test bearer credentials for the management API: EdDSA-signed JWTs made with
//! a fixed test key, and a [`TokenValidator`] that trusts that key, so that
//! tests need no realm and no HTTP round-trip.

use vstd::prelude::*;
use vstd::utf8::encode_utf8;

use crate::api_management::jwks::{entries_view, kid_entries};
use crate::api_management::token_validator::{acting_identity, TokenValidator};
use crate::domain::ids::{tenant_kind, wire_id, TenantId};
use crate::encoding::{b64url_encode, base64url_encode, ed25519_public_key, ed25519_sign, ed25519_signature, ed25519_verifying_key};
use crate::json::{json_encode, lemma_lookup_at, to_json_bytes, Json};
use crate::text::{concat3, owned};

verus! {

/// Issuer the test validator expects and test tokens carry.
pub const TEST_ISS: &'static str = "https://test-keycloak.invalid/realms/swiyu-issuer";

/// Audience the test validator expects and test tokens carry.
pub const TEST_AUD: &'static str = "swiyu-issuer-mgmtapi";

/// Key id of the test key.
pub const TEST_KID: &'static str = "test-key";

/// Issue time the test tokens carry.
pub const TEST_IAT: i64 = 1_700_000_000;

/// Expiry the test tokens carry, far in the future.
pub const TEST_EXP: i64 = 9_999_999_999;

/// The 32 bytes, each `byte`, of a fixed Ed25519 secret key.
pub open spec fn fixed_secret(byte: u8) -> Seq<u8> {
    Seq::new(32, |i: int| byte)
}

/// The secret of the test key, which the test validator trusts.
pub open spec fn test_secret() -> Seq<u8> {
    fixed_secret(42)
}

/// The secret of a key nobody trusts.
pub open spec fn impostor_secret() -> Seq<u8> {
    fixed_secret(7)
}

/// A fixed secret key of 32 bytes, each `byte`.
fn secret_of(byte: u8) -> (r: Vec<u8>)
    ensures
        r@ == fixed_secret(byte),
{
    let r = vec![byte; 32];
    proof {
        assert(r@ =~= fixed_secret(byte));
    }
    r
}

/// The compact JWS of `header` and `payload` signed with `secret`: both
/// base64url-encoded and joined by a dot, then a dot and the base64url-encoded
/// Ed25519 signature of that signing input.
pub open spec fn compact_jws(secret: Seq<u8>, header: Seq<u8>, payload: Seq<u8>) -> Seq<char> {
    let input = base64url_encode(header) + "."@ + base64url_encode(payload);
    input + "."@ + base64url_encode(ed25519_signature(secret, encode_utf8(input)))
}

/// An object with exactly `n` members.
pub open spec fn has_members(doc: Json, n: nat) -> bool {
    doc matches Json::Object(members) && members@.len() == n
}

/// The JOSE header of a test token: `alg` EdDSA, `typ` JWT, `kid` the test key.
pub open spec fn is_test_header(h: Json) -> bool {
    &&& has_members(h, 3)
    &&& h.str_field("alg"@) == Some("EdDSA"@)
    &&& h.str_field("typ"@) == Some("JWT"@)
    &&& h.str_field("kid"@) == Some(TEST_KID@)
}

/// The claims of a first-party test token: the test issuer and audience, the
/// back end as authorized party, the test issue and expiry times, and the
/// first-party principal type; no tenant.
pub open spec fn is_first_party_claims(c: Json) -> bool {
    &&& has_members(c, 6)
    &&& c.str_field("iss"@) == Some(TEST_ISS@)
    &&& c.str_field("aud"@) == Some(TEST_AUD@)
    &&& c.str_field("azp"@) == Some("swiyu-issuer-web-bff"@)
    &&& c.int_field("iat"@) == Some(TEST_IAT)
    &&& c.int_field("exp"@) == Some(TEST_EXP)
    &&& c.str_field("principal_type"@) == Some("first-party"@)
}

/// The claims of a tenant test token for the tenant whose wire id is `tenant`.
pub open spec fn is_tenant_claims(c: Json, tenant: Seq<char>) -> bool {
    &&& has_members(c, 7)
    &&& c.str_field("iss"@) == Some(TEST_ISS@)
    &&& c.str_field("aud"@) == Some(TEST_AUD@)
    &&& c.str_field("azp"@) == Some("test-ba"@)
    &&& c.int_field("iat"@) == Some(TEST_IAT)
    &&& c.int_field("exp"@) == Some(TEST_EXP)
    &&& c.str_field("principal_type"@) == Some("tenant"@)
    &&& c.str_field("tenant_id"@) == Some(tenant)
}

/// The claims of an exchanged test token acting for the user `(iss, sub)`:
/// the test issuer and audience, the back end as authorized party and actor,
/// the test issue and expiry times, the first-party principal type, and the
/// user's identity.
pub open spec fn is_act_as_user_claims(c: Json, iss: Seq<char>, sub: Seq<char>) -> bool {
    &&& has_members(c, 8)
    &&& c.str_field("iss"@) == Some(TEST_ISS@)
    &&& c.str_field("aud"@) == Some(TEST_AUD@)
    &&& c.str_field("azp"@) == Some("swiyu-issuer-web-bff"@)
    &&& c.int_field("iat"@) == Some(TEST_IAT)
    &&& c.int_field("exp"@) == Some(TEST_EXP)
    &&& c.str_field("principal_type"@) == Some("first-party"@)
    &&& c.field("act"@) matches Some(act) && act.str_field("sub"@) == Some("swiyu-issuer-web-bff"@)
    &&& acting_identity(c) == Some((iss, sub))
}

/// An exchanged test token acting for the user `(iss, sub)`, signed with
/// `secret`.
pub open spec fn is_act_as_user_token(token: Seq<char>, secret: Seq<u8>, iss: Seq<char>, sub: Seq<char>) -> bool {
    exists|h: Json, c: Json|
        #[trigger] is_test_header(h) && #[trigger] is_act_as_user_claims(c, iss, sub) && token == compact_jws(
            secret,
            json_encode(h),
            json_encode(c),
        )
}

/// A first-party test token signed with `secret`.
pub open spec fn is_first_party_token(token: Seq<char>, secret: Seq<u8>) -> bool {
    exists|h: Json, c: Json|
        #[trigger] is_test_header(h) && #[trigger] is_first_party_claims(c) && token == compact_jws(
            secret,
            json_encode(h),
            json_encode(c),
        )
}

/// A tenant test token for the tenant whose wire id is `tenant`, signed with
/// `secret`.
pub open spec fn is_tenant_token(token: Seq<char>, secret: Seq<u8>, tenant: Seq<char>) -> bool {
    exists|h: Json, c: Json|
        #[trigger] is_test_header(h) && #[trigger] is_tenant_claims(c, tenant) && token == compact_jws(
            secret,
            json_encode(h),
            json_encode(c),
        )
}

/// A tenant test token for some tenant, signed with `secret`.
pub open spec fn is_any_tenant_token(token: Seq<char>, secret: Seq<u8>) -> bool {
    exists|h: Json, c: Json, tenant: Seq<char>|
        #[trigger] is_test_header(h) && #[trigger] is_tenant_claims(c, tenant) && token == compact_jws(
            secret,
            json_encode(h),
            json_encode(c),
        )
}

/// The member `key` with string value `value`.
fn str_member(key: &str, value: &str) -> (r: (String, Json))
    ensures
        r.0@ == key@,
        r.1 matches Json::Str(s) && s@ == value@,
{
    (owned(key), Json::Str(owned(value)))
}

/// The member `key` with integer value `value`.
fn int_member(key: &str, value: i64) -> (r: (String, Json))
    ensures
        r.0@ == key@,
        r.1 == Json::Int(value),
{
    (owned(key), Json::Int(value))
}

/// The JOSE header of a test token.
fn test_header() -> (r: Json)
    ensures
        is_test_header(r),
{
    let mut m: Vec<(String, Json)> = Vec::new();
    m.push(str_member("alg", "EdDSA"));
    m.push(str_member("typ", "JWT"));
    m.push(str_member("kid", TEST_KID));
    proof {
        reveal_strlit("alg");
        reveal_strlit("typ");
        reveal_strlit("kid");
        assert("alg"@[0] == 'a' && "alg"@[1] == 'l');
        assert("typ"@[0] == 't' && "typ"@[1] == 'y');
        assert("kid"@[0] == 'k' && "kid"@[1] == 'i');
        lemma_lookup_at(m@, 0, "alg"@);
        lemma_lookup_at(m@, 1, "typ"@);
        lemma_lookup_at(m@, 2, "kid"@);
    }
    Json::Object(m)
}

/// The claims of a first-party test token.
fn first_party_claims() -> (r: Json)
    ensures
        is_first_party_claims(r),
{
    let mut m: Vec<(String, Json)> = Vec::new();
    m.push(str_member("iss", TEST_ISS));
    m.push(str_member("aud", TEST_AUD));
    m.push(str_member("azp", "swiyu-issuer-web-bff"));
    m.push(int_member("iat", TEST_IAT));
    m.push(int_member("exp", TEST_EXP));
    m.push(str_member("principal_type", "first-party"));
    proof {
        reveal_strlit("iss");
        reveal_strlit("aud");
        reveal_strlit("azp");
        reveal_strlit("iat");
        reveal_strlit("exp");
        reveal_strlit("principal_type");
        assert("iss"@[0] == 'i' && "iss"@[1] == 's');
        assert("aud"@[0] == 'a' && "aud"@[1] == 'u');
        assert("azp"@[0] == 'a' && "azp"@[1] == 'z');
        assert("iat"@[0] == 'i' && "iat"@[1] == 'a');
        assert("exp"@[0] == 'e' && "exp"@[1] == 'x');
        assert("principal_type"@[0] == 'p' && "principal_type"@[1] == 'r');
        lemma_lookup_at(m@, 0, "iss"@);
        lemma_lookup_at(m@, 1, "aud"@);
        lemma_lookup_at(m@, 2, "azp"@);
        lemma_lookup_at(m@, 3, "iat"@);
        lemma_lookup_at(m@, 4, "exp"@);
        lemma_lookup_at(m@, 5, "principal_type"@);
    }
    Json::Object(m)
}

/// The claims of a tenant test token for `tenant_id`.
fn tenant_claims(tenant_id: &TenantId) -> (r: Json)
    ensures
        is_tenant_claims(r, wire_id(tenant_kind(), tenant_id@)),
{
    let tenant = tenant_id.to_string();
    let mut m: Vec<(String, Json)> = Vec::new();
    m.push(str_member("iss", TEST_ISS));
    m.push(str_member("aud", TEST_AUD));
    m.push(str_member("azp", "test-ba"));
    m.push(int_member("iat", TEST_IAT));
    m.push(int_member("exp", TEST_EXP));
    m.push(str_member("principal_type", "tenant"));
    m.push(str_member("tenant_id", tenant.as_str()));
    proof {
        reveal_strlit("iss");
        reveal_strlit("aud");
        reveal_strlit("azp");
        reveal_strlit("iat");
        reveal_strlit("exp");
        reveal_strlit("principal_type");
        reveal_strlit("tenant_id");
        assert("iss"@[0] == 'i' && "iss"@[1] == 's');
        assert("aud"@[0] == 'a' && "aud"@[1] == 'u');
        assert("azp"@[0] == 'a' && "azp"@[1] == 'z');
        assert("iat"@[0] == 'i' && "iat"@[1] == 'a');
        assert("exp"@[0] == 'e' && "exp"@[1] == 'x');
        assert("principal_type"@[0] == 'p' && "principal_type"@[1] == 'r');
        assert("tenant_id"@[0] == 't' && "tenant_id"@[1] == 'e');
        lemma_lookup_at(m@, 0, "iss"@);
        lemma_lookup_at(m@, 1, "aud"@);
        lemma_lookup_at(m@, 2, "azp"@);
        lemma_lookup_at(m@, 3, "iat"@);
        lemma_lookup_at(m@, 4, "exp"@);
        lemma_lookup_at(m@, 5, "principal_type"@);
        lemma_lookup_at(m@, 6, "tenant_id"@);
    }
    Json::Object(m)
}

/// The claims of an exchanged test token acting for the user `(iss, sub)`.
fn act_as_user_claims(iss: &str, sub: &str) -> (r: Json)
    ensures
        is_act_as_user_claims(r, iss@, sub@),
{
    let mut act: Vec<(String, Json)> = Vec::new();
    act.push(str_member("sub", "swiyu-issuer-web-bff"));
    let mut identity: Vec<(String, Json)> = Vec::new();
    identity.push(str_member("iss", iss));
    identity.push(str_member("sub", sub));
    proof {
        reveal_strlit("iss");
        reveal_strlit("sub");
        assert("iss"@[0] == 'i');
        assert("sub"@[0] == 's');
        lemma_lookup_at(act@, 0, "sub"@);
        lemma_lookup_at(identity@, 0, "iss"@);
        lemma_lookup_at(identity@, 1, "sub"@);
    }
    let act = Json::Object(act);
    let identity = Json::Object(identity);
    let ghost act_v = act;
    let ghost identity_v = identity;
    let mut m: Vec<(String, Json)> = Vec::new();
    m.push(str_member("iss", TEST_ISS));
    m.push(str_member("aud", TEST_AUD));
    m.push(str_member("azp", "swiyu-issuer-web-bff"));
    m.push(int_member("iat", TEST_IAT));
    m.push(int_member("exp", TEST_EXP));
    m.push(str_member("principal_type", "first-party"));
    m.push((owned("act"), act));
    m.push((owned("user_identity"), identity));
    proof {
        reveal_strlit("iss");
        reveal_strlit("aud");
        reveal_strlit("azp");
        reveal_strlit("iat");
        reveal_strlit("exp");
        reveal_strlit("principal_type");
        reveal_strlit("act");
        reveal_strlit("user_identity");
        assert("iss"@[0] == 'i' && "iss"@[1] == 's');
        assert("aud"@[0] == 'a' && "aud"@[1] == 'u');
        assert("azp"@[0] == 'a' && "azp"@[1] == 'z');
        assert("iat"@[0] == 'i' && "iat"@[1] == 'a');
        assert("exp"@[0] == 'e' && "exp"@[1] == 'x');
        assert("principal_type"@[0] == 'p' && "principal_type"@[1] == 'r');
        assert("act"@[0] == 'a' && "act"@[1] == 'c');
        assert("user_identity"@[0] == 'u' && "user_identity"@[1] == 's');
        lemma_lookup_at(m@, 0, "iss"@);
        lemma_lookup_at(m@, 1, "aud"@);
        lemma_lookup_at(m@, 2, "azp"@);
        lemma_lookup_at(m@, 3, "iat"@);
        lemma_lookup_at(m@, 4, "exp"@);
        lemma_lookup_at(m@, 5, "principal_type"@);
        lemma_lookup_at(m@, 6, "act"@);
        lemma_lookup_at(m@, 7, "user_identity"@);
        assert(m@[6].1 == act_v);
        assert(m@[7].1 == identity_v);
    }
    Json::Object(m)
}

/// Signs `header` and `claims` with the 32-byte `secret` into a compact JWS.
fn sign_with(secret: &[u8], header: &Json, claims: &Json) -> (r: String)
    requires
        secret@.len() == 32,
    ensures
        r@ == compact_jws(secret@, json_encode(*header), json_encode(*claims)),
{
    let header_b64 = b64url_encode(to_json_bytes(header).as_slice());
    let payload_b64 = b64url_encode(to_json_bytes(claims).as_slice());
    let signing_input = concat3(header_b64.as_str(), ".", payload_b64.as_str());
    let signature = ed25519_sign(secret, signing_input.as_str().as_bytes());
    let r = concat3(signing_input.as_str(), ".", b64url_encode(signature.as_slice()).as_str());
    proof {
        assert(r@ == compact_jws(secret@, json_encode(*header), json_encode(*claims)));
    }
    r
}

/// A bearer credential for tests; [`TestToken::as_wire`] yields the JWT.
pub struct TestToken(String);

impl View for TestToken {
    type V = Seq<char>;

    /// The JWT text.
    closed spec fn view(&self) -> Seq<char> {
        self.0@
    }
}

impl TestToken {
    /// The JWT text, as the management routes receive it.
    pub fn as_wire(&self) -> (r: String)
        ensures
            r@ == self@,
    {
        self.0.clone()
    }

    /// A credential that must not authenticate: a well-formed tenant JWT signed
    /// by a key the test validator does not trust. `None` when no fresh tenant
    /// id can be drawn.
    pub fn bogus() -> (r: Option<Self>)
        ensures
            r matches Some(t) ==> is_any_tenant_token(t@, impostor_secret()),
    {
        let tenant_id = match TenantId::generate() {
            Some(t) => t,
            None => return None,
        };
        let impostor = secret_of(7);
        let claims = tenant_claims(&tenant_id);
        let header = test_header();
        let token = sign_with(impostor.as_slice(), &header, &claims);
        let t = TestToken(token);
        proof {
            assert(is_test_header(header) && is_tenant_claims(claims, wire_id(tenant_kind(), tenant_id@)));
        }
        Some(t)
    }
}

/// A [`TokenValidator`] that trusts the test key, for wiring into tests: the
/// test issuer and audience, and a key set holding the test key's JWK, loaded
/// at `now_ms`.
pub fn test_token_validator(now_ms: u64) -> (r: TokenValidator)
    ensures
        r.expected_iss@ == TEST_ISS@,
        r.expected_aud@ == TEST_AUD@,
        r.jwks.fetched_at == Some(now_ms),
        exists|jwk: Json|
            {
                &&& has_members(jwk, 4)
                &&& jwk.str_field("kty"@) == Some("OKP"@)
                &&& jwk.str_field("crv"@) == Some("Ed25519"@)
                &&& jwk.str_field("kid"@) == Some(TEST_KID@)
                &&& jwk.str_field("x"@) == Some(base64url_encode(ed25519_public_key(test_secret())))
                &&& entries_view(r.jwks.keys@) == kid_entries(seq![jwk])
            },
{
    let secret = secret_of(42);
    let public = ed25519_verifying_key(secret.as_slice());
    let x = b64url_encode(public.as_slice());
    let mut m: Vec<(String, Json)> = Vec::new();
    m.push(str_member("kty", "OKP"));
    m.push(str_member("crv", "Ed25519"));
    m.push(str_member("kid", TEST_KID));
    m.push(str_member("x", x.as_str()));
    proof {
        reveal_strlit("kty");
        reveal_strlit("crv");
        reveal_strlit("kid");
        reveal_strlit("x");
        assert("kty"@[0] == 'k' && "kty"@[1] == 't');
        assert("crv"@[0] == 'c' && "crv"@[1] == 'r');
        assert("kid"@[0] == 'k' && "kid"@[1] == 'i');
        assert("x"@[0] == 'x');
        lemma_lookup_at(m@, 0, "kty"@);
        lemma_lookup_at(m@, 1, "crv"@);
        lemma_lookup_at(m@, 2, "kid"@);
        lemma_lookup_at(m@, 3, "x"@);
    }
    let jwk = Json::Object(m);
    let ghost jwk_copy = jwk;
    let keys = vec![jwk];
    proof {
        assert(keys@ =~= seq![jwk_copy]);
    }
    let r = TokenValidator::with_static_jwks(TEST_ISS, TEST_AUD, keys, now_ms);
    proof {
        assert(has_members(jwk_copy, 4));
        assert(entries_view(r.jwks.keys@) == kid_entries(seq![jwk_copy]));
    }
    r
}

/// A valid tenant-principal JWT for `tenant_id`, accepted by the validator of
/// [`test_token_validator`].
pub fn mint_test_token(tenant_id: &TenantId) -> (r: TestToken)
    ensures
        is_tenant_token(r@, test_secret(), wire_id(tenant_kind(), tenant_id@)),
{
    let secret = secret_of(42);
    let claims = tenant_claims(tenant_id);
    let header = test_header();
    let token = sign_with(secret.as_slice(), &header, &claims);
    TestToken(token)
}

/// A valid first-party-principal JWT (the web back end), accepted by the
/// validator of [`test_token_validator`]. It carries no tenant.
pub fn mint_first_party_token() -> (r: TestToken)
    ensures
        is_first_party_token(r@, test_secret()),
{
    let secret = secret_of(42);
    let claims = first_party_claims();
    let header = test_header();
    let token = sign_with(secret.as_slice(), &header, &claims);
    TestToken(token)
}

/// A valid exchanged first-party JWT acting for the user `(iss, sub)`,
/// accepted by the validator of [`test_token_validator`] as that acting user.
pub fn mint_act_as_user_token(iss: &str, sub: &str) -> (r: TestToken)
    ensures
        is_act_as_user_token(r@, test_secret(), iss@, sub@),
{
    let secret = secret_of(42);
    let claims = act_as_user_claims(iss, sub);
    let header = test_header();
    let token = sign_with(secret.as_slice(), &header, &claims);
    TestToken(token)
}

} // verus!
