//! Provisioning of the hardcoded `tenant_id` claim mapper on a realm client: the
//! mapper documents, and the decision between updating an existing mapper and
//! creating one. The Admin API calls are made by the caller.

use vstd::prelude::*;

use crate::bff::token::{client_credentials_body, client_credentials_form};
use crate::encoding::form_urlencoded;
use crate::json::{lemma_lookup_at, lookup, Json};
use crate::text::{concat2, concat3, owned, str_eq, trim_end_char, trim_end_slashes};

verus! {

/// Whether the mapper was newly created or an existing one updated.
#[derive(Debug, Clone, Copy, PartialEq, Eq, Structural)]
pub enum MapperOutcome {
    Created,
    Updated,
}

impl MapperOutcome {
    /// The past-tense verb for the outcome.
    pub fn verb(self) -> (r: &'static str)
        ensures
            r@ == (match self {
                MapperOutcome::Created => "created"@,
                MapperOutcome::Updated => "updated"@,
            }),
    {
        match self {
            MapperOutcome::Created => "created",
            MapperOutcome::Updated => "updated",
        }
    }
}

/// `e` is the member `key` with string value `text`.
pub open spec fn member_is(e: (String, Json), key: Seq<char>, text: Seq<char>) -> bool {
    e.0@ == key && e.1.text() == Some(text)
}

/// A string member.
fn member(key: &str, value: &str) -> (r: (String, Json))
    ensures
        member_is(r, key@, value@),
{
    (owned(key), Json::Str(owned(value)))
}

/// The `config` block of a hardcoded `tenant_id` claim mapper emitting
/// `tenant_id_value` into access tokens.
pub fn mapper_config(tenant_id_value: &str) -> (r: Json)
    ensures
        r matches Json::Object(m) && m@.len() == 6
            && member_is(m@[0], "claim.name"@, "tenant_id"@)
            && member_is(m@[1], "claim.value"@, tenant_id_value@)
            && member_is(m@[2], "jsonType.label"@, "String"@)
            && member_is(m@[3], "access.token.claim"@, "true"@)
            && member_is(m@[4], "id.token.claim"@, "false"@)
            && member_is(m@[5], "introspection.token.claim"@, "true"@),
{
    let mut m: Vec<(String, Json)> = Vec::new();
    m.push(member("claim.name", "tenant_id"));
    m.push(member("claim.value", tenant_id_value));
    m.push(member("jsonType.label", "String"));
    m.push(member("access.token.claim", "true"));
    m.push(member("id.token.claim", "false"));
    m.push(member("introspection.token.claim", "true"));
    Json::Object(m)
}

/// `doc` is the config block [`mapper_config`] builds for `tenant_id_value`.
pub open spec fn is_mapper_config(doc: Json, tenant_id_value: Seq<char>) -> bool {
    doc matches Json::Object(m) && m@.len() == 6
        && member_is(m@[0], "claim.name"@, "tenant_id"@)
        && member_is(m@[1], "claim.value"@, tenant_id_value)
        && member_is(m@[2], "jsonType.label"@, "String"@)
        && member_is(m@[3], "access.token.claim"@, "true"@)
        && member_is(m@[4], "id.token.claim"@, "false"@)
        && member_is(m@[5], "introspection.token.claim"@, "true"@)
}

/// `doc` is the mapper representation [`mapper_representation`] builds.
pub open spec fn is_mapper_representation(doc: Json, tenant_id_value: Seq<char>) -> bool {
    doc matches Json::Object(m) && m@.len() == 4
        && member_is(m@[0], "name"@, "tenant_id"@)
        && member_is(m@[1], "protocol"@, "openid-connect"@)
        && member_is(m@[2], "protocolMapper"@, "oidc-hardcoded-claim-mapper"@)
        && m@[3].0@ == "config"@ && is_mapper_config(m@[3].1, tenant_id_value)
}

/// The full mapper representation to create: a hardcoded-claim mapper named
/// `tenant_id` with the [`mapper_config`] block.
pub fn mapper_representation(tenant_id_value: &str) -> (r: Json)
    ensures
        is_mapper_representation(r, tenant_id_value@),
{
    let mut m: Vec<(String, Json)> = Vec::new();
    m.push(member("name", "tenant_id"));
    m.push(member("protocol", "openid-connect"));
    m.push(member("protocolMapper", "oidc-hardcoded-claim-mapper"));
    m.push((owned("config"), mapper_config(tenant_id_value)));
    Json::Object(m)
}

/// `i` is the position of the first mapper named `tenant_id` in `mappers`.
pub open spec fn is_first_tenant_id_mapper(mappers: Seq<Json>, i: int) -> bool {
    &&& 0 <= i < mappers.len()
    &&& mappers[i].str_field("name"@) == Some("tenant_id"@)
    &&& forall|j: int| 0 <= j < i ==> (#[trigger] mappers[j]).str_field("name"@) != Some("tenant_id"@)
}

/// Position of the first mapper named `tenant_id`.
pub fn find_tenant_id_mapper(mappers: &Vec<Json>) -> (r: Option<usize>)
    ensures
        match r {
            Some(i) => i < mappers@.len() && mappers@[i as int].str_field("name"@) == Some("tenant_id"@)
                && forall|j: int| 0 <= j < i ==> (#[trigger] mappers@[j]).str_field("name"@) != Some("tenant_id"@),
            None => forall|j: int| 0 <= j < mappers@.len() ==> (#[trigger] mappers@[j]).str_field("name"@) != Some(
                "tenant_id"@,
            ),
        },
{
    let mut i: usize = 0;
    while i < mappers.len()
        invariant
            i <= mappers@.len(),
            forall|j: int| 0 <= j < i ==> (#[trigger] mappers@[j]).str_field("name"@) != Some("tenant_id"@),
        decreases mappers@.len() - i,
    {
        match mappers[i].get_str("name") {
            Some(n) => {
                if str_eq(n, "tenant_id") {
                    return Some(i);
                }
            },
            None => {},
        }
        i = i + 1;
    }
    None
}

/// What to send to the Admin API.
#[derive(Debug)]
pub enum MapperSync {
    /// Replace the existing mapper `mapper_id` with `body`.
    Update { mapper_id: String, body: Json },
    /// Create the mapper `body`.
    Create { body: Json },
}

/// Decides the sync of the `tenant_id` mapper from the client's current
/// mappers: the first `tenant_id` mapper keeps its server-assigned id and gets
/// the desired config (so a changed tenant id is corrected on a re-run); if it
/// has no string id that is an error; without one, a new mapper is created.
pub fn plan_mapper_sync(mappers: Vec<Json>, tenant_id_value: &str) -> (r: Result<MapperSync, String>)
    ensures
        match r {
            Ok(MapperSync::Create { body }) => is_mapper_representation(body, tenant_id_value@)
                && forall|j: int| 0 <= j < mappers@.len()
                ==> (#[trigger] mappers@[j]).str_field("name"@) != Some("tenant_id"@),
            Ok(MapperSync::Update { mapper_id, body }) => exists|i: int| #[trigger] is_first_tenant_id_mapper(mappers@, i)
                && mappers@[i].str_field("id"@) == Some(mapper_id@)
                && (body.field("config"@) matches Some(c) && is_mapper_config(c, tenant_id_value@))
                && forall|k: Seq<char>| k != "config"@ ==> #[trigger] body.field(k) == mappers@[i].field(k),
            Err(_) => exists|i: int| #[trigger] is_first_tenant_id_mapper(mappers@, i)
                && mappers@[i].str_field("id"@) is None,
        },
{
    let mut mappers = mappers;
    let ghost all = mappers@;
    match find_tenant_id_mapper(&mappers) {
        None => {
            let body = mapper_representation(tenant_id_value);
            Ok(MapperSync::Create { body })
        },
        Some(i) => {
            let existing = mappers.remove(i);
            assert(existing == all[i as int]);
            assert(is_first_tenant_id_mapper(all, i as int));
            let mapper_id = match existing.get_str("id") {
                Some(id) => owned(id),
                None => return Err(owned("existing tenant_id mapper has no id")),
            };
            let body = with_member(existing, "config", mapper_config(tenant_id_value));
            Ok(MapperSync::Update { mapper_id, body })
        },
    }
}

/// `doc` with its member `key` set to `value` (as `doc[key] = value` on an
/// object): replaced when present, appended otherwise. A non-object becomes an
/// object holding just that member.
pub fn with_member(doc: Json, key: &str, value: Json) -> (r: Json)
    ensures
        r.field(key@) == Some(value),
        r is Object,
        doc matches Json::Object(dm) ==> forall|k: Seq<char>| k != key@ ==> #[trigger] r.field(k) == lookup(dm@, k),
        !(doc is Object) ==> forall|k: Seq<char>| k != key@ ==> #[trigger] r.field(k) is None,
        forall|k: Seq<char>| k != key@ ==> #[trigger] r.field(k) == doc.field(k),
{
    let ghost d = doc;
    let mut members = match doc {
        Json::Object(m) => m,
        _ => Vec::new(),
    };
    let mut i: usize = 0;
    let ghost orig = members@;
    assert(d matches Json::Object(dm) ==> dm@ == orig);
    assert(!(d is Object) ==> orig.len() == 0);
    while i < members.len()
        invariant
            i <= members@.len(),
            members@ == orig,
            d == doc,
            d matches Json::Object(dm) ==> dm@ == orig,
            !(d is Object) ==> orig.len() == 0,
            forall|j: int| 0 <= j < i ==> (#[trigger] members@[j]).0@ != key@,
        decreases members@.len() - i,
    {
        if str_eq(members[i].0.as_str(), key) {
            let entry = (owned(key), value);
            members.set(i, entry);
            proof {
                lemma_lookup_at(members@, i as int, key@);
                assert forall|k: Seq<char>| k != key@ implies lookup(members@, k) == lookup(orig, k) by {
                    lemma_lookup_update_other(orig, i as int, entry, k);
                }
            }
            return Json::Object(members);
        }
        i = i + 1;
    }
    let entry = (owned(key), value);
    members.push(entry);
    proof {
        lemma_lookup_at(members@, orig.len() as int, key@);
        assert forall|k: Seq<char>| k != key@ implies lookup(members@, k) == lookup(orig, k) by {
            lemma_lookup_push_other(orig, entry, k);
        }
    }
    let r = Json::Object(members);
    proof {
        if !(d is Object) {
            assert forall|k: Seq<char>| k != key@ implies #[trigger] r.field(k) is None by {
                assert(lookup(orig, k) is None);
            }
        }
    }
    r
}

/// Replacing member `i` by one with another key leaves lookups of `k` unchanged.
proof fn lemma_lookup_update_other(members: Seq<(String, Json)>, i: int, e: (String, Json), k: Seq<char>)
    requires
        0 <= i < members.len(),
        members[i].0@ != k,
        e.0@ != k,
    ensures
        lookup(members.update(i, e), k) == lookup(members, k),
    decreases members.len(),
{
    if i > 0 {
        lemma_lookup_update_other(members.drop_first(), i - 1, e, k);
        assert(members.update(i, e).drop_first() =~= members.drop_first().update(i - 1, e));
    } else {
        assert(members.update(i, e).drop_first() =~= members.drop_first());
    }
}

/// Appending a member with another key leaves lookups of `k` unchanged.
proof fn lemma_lookup_push_other(members: Seq<(String, Json)>, e: (String, Json), k: Seq<char>)
    requires
        e.0@ != k,
    ensures
        lookup(members.push(e), k) == lookup(members, k),
    decreases members.len(),
{
    if members.len() > 0 {
        lemma_lookup_push_other(members.drop_first(), e, k);
        assert(members.push(e).drop_first() =~= members.drop_first().push(e));
    } else {
        assert(members.push(e).drop_first() =~= members);
    }
}

/// The first client's server-assigned id, from a client search result.
pub fn first_client_uuid(clients: &Vec<Json>) -> (r: Option<String>)
    ensures
        match r {
            Some(id) => clients@.len() > 0 && clients@[0].str_field("id"@) == Some(id@),
            None => clients@.len() == 0 || clients@[0].str_field("id"@) is None,
        },
{
    if clients.len() == 0 {
        return None;
    }
    match clients[0].get_str("id") {
        Some(id) => Some(owned(id)),
        None => None,
    }
}

/// The mapper collection URL of a client:
/// `<base>/admin/realms/<realm>/clients/<client uuid>/protocol-mappers/models`.
pub fn models_url(base: &str, realm: &str, client_uuid: &str) -> (r: String)
    ensures
        r@ == base@ + "/admin/realms/"@ + realm@ + "/clients/"@ + client_uuid@ + "/protocol-mappers/models"@,
{
    let a = concat3(base, "/admin/realms/", realm);
    let b = concat3("/clients/", client_uuid, "/protocol-mappers/models");
    let r = concat2(a.as_str(), b.as_str());
    proof {
        assert(r@ =~= base@ + "/admin/realms/"@ + realm@ + "/clients/"@ + client_uuid@ + "/protocol-mappers/models"@);
    }
    r
}

/// The realm token endpoint below a Keycloak base URL (trailing slashes of the
/// base dropped).
pub fn admin_token_url(keycloak_url: &str, realm: &str) -> (r: String)
    ensures
        r@ == trim_end_char(keycloak_url@, '/') + "/realms/"@ + realm@ + "/protocol/openid-connect/token"@,
{
    let a = concat3(trim_end_slashes(keycloak_url), "/realms/", realm);
    let r = concat2(a.as_str(), "/protocol/openid-connect/token");
    proof {
        assert(r@ =~= trim_end_char(keycloak_url@, '/') + "/realms/"@ + realm@ + "/protocol/openid-connect/token"@);
    }
    r
}

/// The client search of a realm: `<base>/admin/realms/<realm>/clients`, queried
/// with `clientId`.
pub fn clients_url(base: &str, realm: &str) -> (r: String)
    ensures
        r@ == base@ + "/admin/realms/"@ + realm@ + "/clients"@,
{
    let a = concat3(base, "/admin/realms/", realm);
    concat2(a.as_str(), "/clients")
}

/// The form body of the provisioning client's `client_credentials` grant.
pub fn admin_token_body(client_id: &str, client_secret: &str) -> (r: String)
    ensures
        r@ == form_urlencoded(client_credentials_form(client_id@, client_secret@)),
{
    client_credentials_body(client_id, client_secret)
}

} // verus!
