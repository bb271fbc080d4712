use swiyu_issuer::api_management::jwks::{index_keys, keys_from_jwks_body, JwksCache, JwksError, KeyStep};
use swiyu_issuer::cli::keycloak::{
    admin_token_body, admin_token_url, clients_url, first_client_uuid, mapper_config,
    mapper_representation, models_url, plan_mapper_sync, with_member, MapperOutcome, MapperSync,
};
use swiyu_issuer::json::Json;
use swiyu_issuer::persistence::{fetch_limit, finish_page, require_affected, PersistenceError};

fn s(v: &str) -> Json {
    Json::Str(v.to_string())
}

fn obj(members: Vec<(&str, Json)>) -> Json {
    Json::Object(members.into_iter().map(|(k, v)| (k.to_string(), v)).collect())
}

#[test]
fn mapper_config_carries_prefixed_tenant_id() {
    let cfg = mapper_config("tenant_9hXq2vRtL8pK7f");
    assert_eq!(cfg.get_str("claim.name"), Some("tenant_id"));
    assert_eq!(cfg.get_str("claim.value"), Some("tenant_9hXq2vRtL8pK7f"));
    assert_eq!(cfg.get_str("jsonType.label"), Some("String"));
    assert_eq!(cfg.get_str("access.token.claim"), Some("true"));
}

#[test]
fn mapper_representation_is_a_hardcoded_claim_mapper() {
    let rep = mapper_representation("tenant_abc");
    assert_eq!(rep.get_str("name"), Some("tenant_id"));
    assert_eq!(rep.get_str("protocolMapper"), Some("oidc-hardcoded-claim-mapper"));
    assert_eq!(rep.get_str("protocol"), Some("openid-connect"));
    assert_eq!(rep.get("config").unwrap().get_str("claim.value"), Some("tenant_abc"));
}

#[test]
fn sync_updates_an_existing_mapper_keeping_its_id() {
    let existing = obj(vec![
        ("id", s("m-1")),
        ("name", s("tenant_id")),
        ("protocol", s("openid-connect")),
        ("config", obj(vec![("claim.value", s("tenant_old"))])),
    ]);
    let other = obj(vec![("id", s("m-0")), ("name", s("principal_type"))]);
    match plan_mapper_sync(vec![other, existing], "tenant_new").unwrap() {
        MapperSync::Update { mapper_id, body } => {
            assert_eq!(mapper_id, "m-1");
            assert_eq!(body.get_str("id"), Some("m-1"));
            assert_eq!(body.get_str("protocol"), Some("openid-connect"));
            assert_eq!(body.get("config").unwrap().get_str("claim.value"), Some("tenant_new"));
        }
        MapperSync::Create { .. } => panic!("expected an update"),
    }
}

#[test]
fn sync_creates_a_missing_mapper() {
    let other = obj(vec![("id", s("m-0")), ("name", s("principal_type"))]);
    match plan_mapper_sync(vec![other], "tenant_x").unwrap() {
        MapperSync::Create { body } => {
            assert_eq!(body.get_str("name"), Some("tenant_id"));
            assert_eq!(body.get("config").unwrap().get_str("claim.value"), Some("tenant_x"));
        }
        MapperSync::Update { .. } => panic!("expected a create"),
    }
}

#[test]
fn sync_refuses_a_mapper_without_id() {
    let broken = obj(vec![("name", s("tenant_id"))]);
    assert!(plan_mapper_sync(vec![broken], "tenant_x").is_err());
}

#[test]
fn mapper_outcome_verbs() {
    assert_eq!(MapperOutcome::Created.verb(), "created");
    assert_eq!(MapperOutcome::Updated.verb(), "updated");
}

#[test]
fn with_member_replaces_or_appends() {
    let doc = obj(vec![("a", Json::Int(1)), ("b", Json::Int(2))]);
    let doc = with_member(doc, "a", Json::Int(9));
    assert_eq!(doc.get_i64("a"), Some(9));
    assert_eq!(doc.get_i64("b"), Some(2));
    let doc = with_member(doc, "c", Json::Int(3));
    assert_eq!(doc.get_i64("c"), Some(3));
}

#[test]
fn admin_urls_and_body() {
    assert_eq!(
        admin_token_url("http://keycloak:8080/", "swiyu"),
        "http://keycloak:8080/realms/swiyu/protocol/openid-connect/token"
    );
    assert_eq!(
        models_url("http://kc", "r", "u-1"),
        "http://kc/admin/realms/r/clients/u-1/protocol-mappers/models"
    );
    assert_eq!(clients_url("http://kc", "r"), "http://kc/admin/realms/r/clients");
    assert_eq!(
        admin_token_body("prov", "s3cr=t&"),
        "grant_type=client_credentials&client_id=prov&client_secret=s3cr%3Dt%26"
    );
    assert_eq!(
        first_client_uuid(&vec![obj(vec![("id", s("u-1"))]), obj(vec![("id", s("u-2"))])]),
        Some("u-1".to_string())
    );
    assert_eq!(first_client_uuid(&vec![]), None);
}

#[test]
fn jwks_body_is_indexed_by_kid() {
    let body = br#"{"keys":[{"kid":"a","x":"1"},{"x":"no kid"},{"kid":"b","x":"2"}]}"#;
    let keys = keys_from_jwks_body(body).unwrap();
    let kids: Vec<&str> = keys.iter().map(|(k, _)| k.as_str()).collect();
    assert_eq!(kids.len(), 2);
    assert!(kids.contains(&"a") && kids.contains(&"b"));
    assert!(keys_from_jwks_body(b"not json").is_none());
    assert!(keys_from_jwks_body(br#"{"nokeys":[]}"#).is_none());
}

#[test]
fn later_key_with_same_kid_takes_effect() {
    let keys = index_keys(vec![
        obj(vec![("kid", s("k")), ("x", s("old"))]),
        obj(vec![("kid", s("k")), ("x", s("new"))]),
    ]);
    let cache = JwksCache::with_static_keys(keys, 0);
    let (jwk, stale) = cache.read_kid("k", 1).unwrap();
    assert_eq!(jwk.get_str("x"), Some("new"));
    assert!(!stale);
}

#[test]
fn cold_start_is_distinct_from_unknown_kid() {
    let mut cache = JwksCache::new("http://kc/certs".to_string(), 600_000, 30_000);
    assert_eq!(cache.lookup_step("k", 1_000), KeyStep::RefreshThenRetry);
    // The fetch failed: nothing cached, and no second fetch within the cooldown.
    cache.finish_refresh(None, 1_500);
    assert_eq!(cache.after_refresh("k").err(), Some(JwksError::Unavailable));
    assert_eq!(cache.lookup_step("k", 2_000), KeyStep::Fail(JwksError::Unavailable));
    // After the cooldown a fetch is due again; it brings other keys.
    assert_eq!(cache.lookup_step("k", 31_000), KeyStep::RefreshThenRetry);
    cache.finish_refresh(Some(index_keys(vec![obj(vec![("kid", s("other"))])])), 31_100);
    assert_eq!(cache.after_refresh("k").err(), Some(JwksError::UnknownKid));
    assert!(cache.after_refresh("other").is_ok());
}

#[test]
fn stale_hit_serves_the_key_and_claims_one_refresh() {
    let mut cache = JwksCache::new("http://kc/certs".to_string(), 600_000, 30_000);
    cache.finish_refresh(Some(index_keys(vec![obj(vec![("kid", s("k"))])])), 0);
    assert_eq!(cache.lookup_step("k", 10), KeyStep::Serve { refresh: false });
    assert_eq!(cache.lookup_step("k", 700_000), KeyStep::Serve { refresh: true });
    assert_eq!(cache.lookup_step("k", 700_001), KeyStep::Serve { refresh: false });
    // A failed refresh keeps the cached keys.
    cache.finish_refresh(None, 700_002);
    assert!(cache.after_refresh("k").is_ok());
    assert!(!cache.is_empty());
}

#[test]
fn one_fetch_per_cooldown_window() {
    let mut cache = JwksCache::new(String::new(), 600_000, 30_000);
    assert!(cache.begin_refresh(100));
    assert!(!cache.begin_refresh(100));
    assert!(!cache.begin_refresh(30_099));
    assert!(cache.begin_refresh(30_100));
}

#[test]
fn pages_fetch_one_extra_row() {
    assert_eq!(fetch_limit(25), 26);
    let page = finish_page(vec![1, 2, 3], 2);
    assert!(page.has_more);
    assert_eq!(page.items, vec![1, 2]);
    let page = finish_page(vec![1, 2], 2);
    assert!(!page.has_more);
    assert_eq!(page.items, vec![1, 2]);
    assert_eq!(require_affected(0), Err(PersistenceError::NotFound));
    assert_eq!(require_affected(1), Ok(()));
}
