//! In-flight logins, keyed by the OIDC `state` parameter.
//!
//! The PKCE verifier must never reach the browser, so the secrets of a login
//! stay here, server-side, between the login redirect and the callback. A
//! login is single-use: the callback consumes its entry.

use vstd::prelude::*;

use dashmap::DashMap;

verus! {

#[verifier::external_type_specification]
#[verifier::external_body]
#[verifier::reject_recursive_types(K)]
#[verifier::reject_recursive_types(V)]
#[verifier::reject_recursive_types(S)]
pub struct ExDashMap<K, V, S>(DashMap<K, V, S>);

/// Secrets kept for one in-flight login, retrieved at the callback.
#[derive(Debug)]
pub struct PendingLogin {
    pub nonce: String,
    pub pkce_verifier: String,
    pub return_to: String,
    /// When the login began, in milliseconds of a monotonic clock.
    pub created_at: u64,
}

/// The concurrent map that holds the pending logins.
pub type PendingMap = DashMap<String, PendingLogin>;

/// The entries of a map of pending logins, by the `state` they are kept under.
pub uninterp spec fn pending_entries(map: PendingMap) -> Map<Seq<char>, PendingLogin>;

/// `DashMap::new`: a map with no entries.
#[verifier::external_body]
fn new_pending_map() -> (r: PendingMap)
    ensures
        pending_entries(r) == no_logins(),
{
    DashMap::new()
}

/// `DashMap::insert`: the entry for `key` becomes `value`, replacing any
/// earlier one; the other entries stay.
#[verifier::external_body]
fn pending_map_insert(map: &mut PendingMap, key: String, value: PendingLogin)
    ensures
        pending_entries(*final(map)) == pending_entries(*old(map)).insert(key@, value),
{
    map.insert(key, value);
}

/// `DashMap::remove`: takes the entry for `key` out of the map and returns it
/// with its key, or returns `None` and changes nothing when there is none.
#[verifier::external_body]
fn pending_map_remove(map: &mut PendingMap, key: &str) -> (r: Option<(String, PendingLogin)>)
    ensures
        match r {
            Some(entry) => {
                &&& pending_entries(*old(map)).contains_key(key@)
                &&& entry.0@ == key@
                &&& entry.1 == pending_entries(*old(map))[key@]
            },
            None => !pending_entries(*old(map)).contains_key(key@),
        },
        pending_entries(*final(map)) == pending_entries(*old(map)).remove(key@),
{
    map.remove(key)
}

/// `DashMap::retain` with [`still_pending`] as the predicate: the entries for
/// which it holds stay, unchanged, and the others leave.
#[verifier::external_body]
fn pending_map_retain_fresh(map: &mut PendingMap, now: u64, ttl: u64)
    ensures
        pending_entries(*final(map)) == fresh_entries(pending_entries(*old(map)), now, ttl),
{
    map.retain(|_, pending| still_pending(now, pending.created_at, ttl));
}

/// A login begun at `created_at` is younger than `ttl` at `now`. A start after
/// `now` counts as no time elapsed.
pub open spec fn login_is_fresh(now: u64, created_at: u64, ttl: u64) -> bool {
    (if now >= created_at { now - created_at } else { 0 }) < ttl
}

/// Decides [`login_is_fresh`].
pub fn still_pending(now: u64, created_at: u64, ttl: u64) -> (r: bool)
    ensures
        r == login_is_fresh(now, created_at, ttl),
{
    let elapsed: u64 = if now >= created_at { now - created_at } else { 0 };
    elapsed < ttl
}

/// The entries of `m` whose login is still fresh at `now`.
pub open spec fn fresh_entries(m: Map<Seq<char>, PendingLogin>, now: u64, ttl: u64) -> Map<Seq<char>, PendingLogin> {
    Map::new(
        |k: Seq<char>| m.contains_key(k) && login_is_fresh(now, m[k].created_at, ttl),
        |k: Seq<char>| m[k],
    )
}

/// No login at all.
pub open spec fn no_logins() -> Map<Seq<char>, PendingLogin> {
    Map::empty()
}

/// What taking `state` out of `m` yields.
pub open spec fn taken(m: Map<Seq<char>, PendingLogin>, state: Seq<char>) -> Option<PendingLogin> {
    if m.contains_key(state) {
        Some(m[state])
    } else {
        None
    }
}

/// The in-flight logins, with TTL eviction.
pub struct PendingLogins {
    inner: PendingMap,
}

impl View for PendingLogins {
    type V = Map<Seq<char>, PendingLogin>;

    closed spec fn view(&self) -> Map<Seq<char>, PendingLogin> {
        pending_entries(self.inner)
    }
}

impl PendingLogins {
    /// No login in flight.
    pub fn new() -> (r: Self)
        ensures
            r@ == no_logins(),
    {
        PendingLogins { inner: new_pending_map() }
    }

    /// Keeps `pending` under `state`, replacing an earlier login under the same
    /// state.
    pub fn insert(&mut self, state: String, pending: PendingLogin)
        ensures
            final(self)@ == old(self)@.insert(state@, pending),
    {
        pending_map_insert(&mut self.inner, state, pending);
    }

    /// Removes and returns the pending login for `state`, if there is one. The
    /// entry is consumed: a second take of the same state finds nothing.
    pub fn take(&mut self, state: &str) -> (r: Option<PendingLogin>)
        ensures
            r == taken(old(self)@, state@),
            final(self)@ == old(self)@.remove(state@),
    {
        match pending_map_remove(&mut self.inner, state) {
            Some(entry) => Some(entry.1),
            None => None,
        }
    }

    /// Drops the logins that are `ttl` or older at `now`, so abandoned logins do
    /// not accumulate; the others stay as they were.
    pub fn sweep(&mut self, ttl: u64, now: u64)
        ensures
            final(self)@ == fresh_entries(old(self)@, now, ttl),
    {
        pending_map_retain_fresh(&mut self.inner, now, ttl);
    }
}

impl Default for PendingLogins {
    fn default() -> (r: Self)
        ensures
            r@ == no_logins(),
    {
        PendingLogins::new()
    }
}

/// A login is single-use: taking the state a login was kept under yields that
/// login, and taking it again yields nothing.
pub proof fn lemma_login_is_single_use(m: Map<Seq<char>, PendingLogin>, state: Seq<char>, pending: PendingLogin)
    ensures
        taken(m.insert(state, pending), state) == Some(pending),
        taken(m.insert(state, pending).remove(state), state) is None,
{
}

/// A sweep keeps exactly the fresh logins: each one left is fresh and unchanged,
/// and no fresh login is dropped.
pub proof fn lemma_sweep_keeps_exactly_fresh(m: Map<Seq<char>, PendingLogin>, now: u64, ttl: u64, state: Seq<char>)
    ensures
        fresh_entries(m, now, ttl).contains_key(state) <==> (m.contains_key(state) && login_is_fresh(
            now,
            m[state].created_at,
            ttl,
        )),
        fresh_entries(m, now, ttl).contains_key(state) ==> fresh_entries(m, now, ttl)[state] == m[state],
{
}

} // verus!
