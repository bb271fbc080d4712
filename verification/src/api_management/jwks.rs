//! The realm key set, cached with a resilience policy: serve stale keys on a
//! failed refresh, refresh at most once per cooldown window, and report a cold
//! start without keys apart from an unknown key id.
//!
//! Times are milliseconds of a monotonic clock, handed in by the caller, which
//! also performs the fetch between [`JwksCache::begin_refresh`] and
//! [`JwksCache::finish_refresh`].

use vstd::prelude::*;

use crate::json::{Json, json_decode, lookup, parse_json};
use crate::text::str_eq;

verus! {

/// Why a key-id lookup produced no key.
#[derive(Debug, PartialEq, Eq, Structural)]
pub enum JwksError {
    /// No keys are cached at all (a cold start with the key server down).
    Unavailable,
    /// Keys are cached, but none has this key id.
    UnknownKid,
}

/// The next step of a key lookup.
#[derive(Debug, PartialEq, Eq, Structural)]
pub enum KeyStep {
    /// The key is cached: use it. When `refresh` is set the cache is stale and
    /// the fetch slot was claimed, so the caller fetches the key set in the
    /// background of this request.
    Serve { refresh: bool },
    /// The key id is unknown and the fetch slot was claimed: the caller fetches
    /// the key set, applies it with [`JwksCache::finish_refresh`], and looks
    /// again with [`JwksCache::after_refresh`].
    RefreshThenRetry,
    /// No key can be had within this cooldown window.
    Fail(JwksError),
}

/// Milliseconds from `since` to `now`; zero if `now` is earlier (as
/// `Instant::elapsed` saturates).
pub open spec fn elapsed(since: u64, now: u64) -> int {
    if now >= since { now - since } else { 0 }
}

/// The cached key set of the realm.
pub struct JwksCache {
    /// Where the key set is fetched from.
    pub jwks_url: String,
    /// Age after which a cached key set is stale and a refresh is attempted.
    pub ttl_ms: u64,
    /// Minimum spacing between fetch attempts.
    pub cooldown_ms: u64,
    /// `(kid, jwk)` pairs; for a repeated key id the first pair is the one in
    /// effect.
    pub keys: Vec<(String, Json)>,
    /// When the current keys were fetched.
    pub fetched_at: Option<u64>,
    /// When a fetch was last attempted.
    pub last_attempt: Option<u64>,
}

impl JwksCache {
    /// The key with id `kid`, if cached.
    pub open spec fn key(&self, kid: Seq<char>) -> Option<Json> {
        lookup(self.keys@, kid)
    }

    /// The cached keys are older than the TTL, or were never fetched.
    pub open spec fn is_stale(&self, now: u64) -> bool {
        match self.fetched_at {
            None => true,
            Some(t) => elapsed(t, now) >= self.ttl_ms,
        }
    }

    /// A fetch may be attempted at `now`: none was attempted within the cooldown.
    pub open spec fn refresh_due(&self, now: u64) -> bool {
        match self.last_attempt {
            None => true,
            Some(t) => elapsed(t, now) >= self.cooldown_ms,
        }
    }

    /// An empty cache fetching from `jwks_url`.
    pub fn new(jwks_url: String, ttl_ms: u64, cooldown_ms: u64) -> (r: Self)
        ensures
            r.jwks_url == jwks_url,
            r.ttl_ms == ttl_ms,
            r.cooldown_ms == cooldown_ms,
            r.keys@.len() == 0,
            r.fetched_at is None,
            r.last_attempt is None,
    {
        JwksCache { jwks_url, ttl_ms, cooldown_ms, keys: Vec::new(), fetched_at: None, last_attempt: None }
    }

    /// A cache holding fixed keys, fetched at `now`, that never goes stale
    /// within ten years and never fetches.
    pub fn with_static_keys(keys: Vec<(String, Json)>, now: u64) -> (r: Self)
        ensures
            r.keys@ == keys@,
            r.fetched_at == Some(now),
            r.last_attempt is None,
            r.ttl_ms == 315_360_000_000u64,
            r.cooldown_ms == 0,
    {
        JwksCache {
            jwks_url: String::new(),
            ttl_ms: 315_360_000_000u64,
            cooldown_ms: 0,
            keys,
            fetched_at: Some(now),
            last_attempt: None,
        }
    }

    /// The key with id `kid` and whether the cache is stale at `now`.
    pub fn read_kid(&self, kid: &str, now: u64) -> (r: Option<(&Json, bool)>)
        ensures
            match r {
                Some((jwk, stale)) => self.key(kid@) == Some(*jwk) && stale == self.is_stale(now),
                None => self.key(kid@) is None,
            },
    {
        let mut i: usize = 0;
        assert(self.keys@.skip(0) =~= self.keys@);
        while i < self.keys.len()
            invariant
                i <= self.keys@.len(),
                lookup(self.keys@, kid@) == lookup(self.keys@.skip(i as int), kid@),
            decreases self.keys@.len() - i,
        {
            assert(self.keys@.skip(i as int).drop_first() =~= self.keys@.skip(i + 1));
            assert(self.keys@.skip(i as int)[0] == self.keys@[i as int]);
            if str_eq(self.keys[i].0.as_str(), kid) {
                let stale = match self.fetched_at {
                    None => true,
                    Some(t) => {
                        let age = if now >= t { now - t } else { 0 };
                        age >= self.ttl_ms
                    },
                };
                return Some((&self.keys[i].1, stale));
            }
            i = i + 1;
        }
        None
    }

    /// Whether no key is cached.
    pub fn is_empty(&self) -> (r: bool)
        ensures
            r == (self.keys@.len() == 0),
    {
        self.keys.len() == 0
    }

    /// Claims the fetch slot at `now`: `true` (and the attempt recorded) when a
    /// fetch is due, `false` with nothing changed when one was attempted within
    /// the cooldown. Concurrent callers thus trigger at most one fetch per window.
    pub fn begin_refresh(&mut self, now: u64) -> (r: bool)
        ensures
            r == old(self).refresh_due(now),
            final(self).last_attempt == (if r { Some(now) } else { old(self).last_attempt }),
            final(self).keys@ == old(self).keys@,
            final(self).fetched_at == old(self).fetched_at,
            final(self).ttl_ms == old(self).ttl_ms,
            final(self).cooldown_ms == old(self).cooldown_ms,
            final(self).jwks_url == old(self).jwks_url,
    {
        let due = match self.last_attempt {
            None => true,
            Some(t) => {
                let age = if now >= t { now - t } else { 0 };
                age >= self.cooldown_ms
            },
        };
        if due {
            self.last_attempt = Some(now);
        }
        due
    }

    /// Applies the outcome of a fetch at `now`: fetched keys replace the cache; a
    /// failed fetch keeps the cached keys, so a brief outage drops no key.
    pub fn finish_refresh(&mut self, fetched: Option<Vec<(String, Json)>>, now: u64)
        ensures
            match fetched {
                Some(ks) => final(self).keys@ == ks@ && final(self).fetched_at == Some(now),
                None => final(self).keys@ == old(self).keys@ && final(self).fetched_at == old(self).fetched_at,
            },
            final(self).last_attempt == old(self).last_attempt,
            final(self).ttl_ms == old(self).ttl_ms,
            final(self).cooldown_ms == old(self).cooldown_ms,
            final(self).jwks_url == old(self).jwks_url,
    {
        match fetched {
            Some(ks) => {
                self.keys = ks;
                self.fetched_at = Some(now);
            },
            None => {},
        }
    }

    /// Decides a lookup of `kid` at `now`. A cached key is served, and a stale
    /// cache claims a refresh for next time; an unknown key id (the key-rotation
    /// signal) claims a refresh and a second look; within the cooldown nothing
    /// is fetched and the lookup fails.
    pub fn lookup_step(&mut self, kid: &str, now: u64) -> (r: KeyStep)
        ensures
            match old(self).key(kid@) {
                Some(_) => r == (KeyStep::Serve { refresh: old(self).is_stale(now) && old(self).refresh_due(now) }),
                None => if old(self).refresh_due(now) {
                    r == KeyStep::RefreshThenRetry
                } else {
                    r == KeyStep::Fail(if old(self).keys@.len() == 0 {
                        JwksError::Unavailable
                    } else {
                        JwksError::UnknownKid
                    })
                },
            },
            final(self).last_attempt == (if (r == (KeyStep::Serve { refresh: true })) || r == KeyStep::RefreshThenRetry {
                Some(now)
            } else {
                old(self).last_attempt
            }),
            final(self).keys@ == old(self).keys@,
            final(self).fetched_at == old(self).fetched_at,
            final(self).ttl_ms == old(self).ttl_ms,
            final(self).cooldown_ms == old(self).cooldown_ms,
            final(self).jwks_url == old(self).jwks_url,
    {
        let stale = match self.read_kid(kid, now) {
            Some((_, stale)) => Some(stale),
            None => None,
        };
        match stale {
            Some(true) => {
                let claimed = self.begin_refresh(now);
                KeyStep::Serve { refresh: claimed }
            },
            Some(false) => KeyStep::Serve { refresh: false },
            None => {
                if self.begin_refresh(now) {
                    KeyStep::RefreshThenRetry
                } else {
                    KeyStep::Fail(self.miss_error())
                }
            },
        }
    }

    /// The second look after a refresh: the key, or why there is none.
    pub fn after_refresh(&self, kid: &str) -> (r: Result<&Json, JwksError>)
        ensures
            match self.key(kid@) {
                Some(j) => r == Ok::<&Json, JwksError>(&j),
                None => r == Err::<&Json, JwksError>(if self.keys@.len() == 0 {
                    JwksError::Unavailable
                } else {
                    JwksError::UnknownKid
                }),
            },
    {
        match self.read_kid(kid, 0) {
            Some((jwk, _)) => Ok(jwk),
            None => Err(self.miss_error()),
        }
    }

    /// Why a lookup that found no key failed: `Unavailable` exactly when no key
    /// is cached at all.
    pub fn miss_error(&self) -> (r: JwksError)
        ensures
            (r == JwksError::Unavailable) == (self.keys@.len() == 0),
    {
        if self.keys.len() == 0 {
            JwksError::Unavailable
        } else {
            JwksError::UnknownKid
        }
    }
}

/// The `(kid, key)` pairs of a key list, last key first, keeping only keys with
/// a string `kid`.
pub open spec fn kid_entries(keys: Seq<Json>) -> Seq<(Seq<char>, Json)>
    decreases keys.len(),
{
    if keys.len() == 0 {
        Seq::empty()
    } else {
        let last = keys.last();
        let rest = kid_entries(keys.drop_last());
        match last.str_field("kid"@) {
            Some(k) => seq![(k, last)] + rest,
            None => rest,
        }
    }
}

/// A list of `(String, Json)` pairs read as text and document.
pub open spec fn entries_view(es: Seq<(String, Json)>) -> Seq<(Seq<char>, Json)> {
    es.map_values(|e: (String, Json)| (e.0@, e.1))
}

/// Indexes a key list by key id. A later key with the same id takes effect over
/// an earlier one, as when the keys are collected into a map.
pub fn index_keys(keys: Vec<Json>) -> (r: Vec<(String, Json)>)
    ensures
        entries_view(r@) == kid_entries(keys@),
{
    let mut keys = keys;
    let ghost all = keys@;
    let mut out: Vec<(String, Json)> = Vec::new();
    while keys.len() > 0
        invariant
            keys@ == all.take(keys@.len() as int),
            keys@.len() <= all.len(),
            entries_view(out@) + kid_entries(keys@) == kid_entries(all),
        decreases keys@.len(),
    {
        let ghost before = keys@;
        let key = keys.pop().unwrap();
        proof {
            assert(keys@ =~= before.drop_last());
            assert(keys@ =~= all.take(keys@.len() as int));
        }
        let kid = match key.get_str("kid") {
            Some(k) => Some(k.to_owned()),
            None => None,
        };
        match kid {
            Some(k) => {
                let ghost out_before = out@;
                out.push((k, key));
                proof {
                    assert(entries_view(out@) =~= entries_view(out_before) + seq![(k@, key)]);
                }
            },
            None => {},
        }
    }
    proof {
        assert(kid_entries(keys@) =~= Seq::<(Seq<char>, Json)>::empty());
        assert(entries_view(out@) =~= entries_view(out@) + kid_entries(keys@));
    }
    out
}

/// The keys a key-set document `body` lists, indexed as [`index_keys`] does:
/// `None` unless `body` is a JSON object whose `keys` member is an array.
pub open spec fn jwks_body_keys(body: Seq<u8>) -> Option<Seq<(Seq<char>, Json)>> {
    match json_decode(body) {
        Some(doc) => match doc.field("keys"@) {
            Some(Json::Array(items)) => Some(kid_entries(items@)),
            _ => None,
        },
        None => None,
    }
}

/// Reads the keys of a fetched key-set document.
pub fn keys_from_jwks_body(body: &[u8]) -> (r: Option<Vec<(String, Json)>>)
    ensures
        match r {
            Some(ks) => jwks_body_keys(body@) == Some(entries_view(ks@)),
            None => jwks_body_keys(body@) is None,
        },
{
    let doc = match parse_json(body) {
        Some(d) => d,
        None => return None,
    };
    match doc.into_field("keys") {
        Some(Json::Array(items)) => Some(index_keys(items)),
        _ => None,
    }
}

/// At most one fetch per cooldown window: once an attempt is recorded at `t1`,
/// no fetch is due at any `t2` before the cooldown has passed.
pub proof fn lemma_one_fetch_per_cooldown(cache: JwksCache, t1: u64, t2: u64)
    requires
        cache.last_attempt == Some(t1),
        t1 <= t2,
        t2 < t1 + cache.cooldown_ms,
    ensures
        !cache.refresh_due(t2),
{
}

/// A fetch is due again once the cooldown has passed since the last attempt.
pub proof fn lemma_fetch_due_after_cooldown(cache: JwksCache, t1: u64, t2: u64)
    requires
        cache.last_attempt == Some(t1),
        t1 + cache.cooldown_ms <= t2,
    ensures
        cache.refresh_due(t2),
{
}

} // verus!
