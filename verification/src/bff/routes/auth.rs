//! Decisions of the auth routes: where a login may return to, how a failed
//! login is reported, which of the identity's accounts it may use, and the
//! session a completed login establishes.

use vstd::prelude::*;

use crate::bff::login::VerifiedUser;
use crate::bff::session::{SessionAccount, SessionData};
use crate::json::Json;
use crate::encoding::{url_with_params, url_with_query};
use crate::text::{pair, pairs_view, concat2, concat3, has_prefix, opt_string_view, opt_view, owned, starts_with, str_eq};

verus! {

/// Query of `GET /api/auth/login`.
#[derive(Debug)]
pub struct LoginQuery {
    pub return_to: Option<String>,
}

/// Query of `GET /api/auth/callback`. The realm sends `error` (and often
/// `error_description`) in place of `code` when the user denies consent or the
/// request is rejected.
#[derive(Debug)]
pub struct CallbackQuery {
    pub code: Option<String>,
    pub state: Option<String>,
    pub error: Option<String>,
    pub error_description: Option<String>,
}

/// Body of `POST /api/auth/select-account`.
#[derive(Debug)]
pub struct SelectAccountRequest {
    pub account_id: String,
}

/// Where a login returns to: the requested path when it is a same-origin path
/// (it starts with a single `/`, not `//`, which a browser reads as a
/// protocol-relative URL to another origin), else `/`.
pub open spec fn sanitized_return_to(raw: Option<Seq<char>>) -> Seq<char> {
    match raw {
        Some(path) => if has_prefix(path, "/"@) && !has_prefix(path, "//"@) {
            path
        } else {
            "/"@
        },
        None => "/"@,
    }
}

/// Computes [`sanitized_return_to`].
pub fn sanitize_return_to(raw: Option<&str>) -> (r: String)
    ensures
        r@ == sanitized_return_to(opt_view(raw)),
{
    match raw {
        Some(path) => {
            if starts_with(path, "/") && !starts_with(path, "//") {
                owned(path)
            } else {
                owned("/")
            }
        },
        None => owned("/"),
    }
}

/// Whatever was requested, a login returns to a same-origin path: one that
/// starts with `/` and not with `//`.
pub proof fn lemma_return_to_is_same_origin(raw: Option<Seq<char>>)
    ensures
        has_prefix(sanitized_return_to(raw), "/"@),
        !has_prefix(sanitized_return_to(raw), "//"@),
{
    reveal_strlit("/");
    reveal_strlit("//");
    let r = sanitized_return_to(raw);
    if r == "/"@ {
        assert(r.subrange(0, 1) =~= "/"@);
    }
}

/// Why a login did not establish a session, as reported to the login page.
#[derive(Debug, PartialEq, Eq, Structural)]
pub enum LoginFailure {
    /// The realm refused the request, or the login did not verify.
    Idp,
    /// The callback's `state` is missing, unknown, expired or already used.
    State,
    /// The identity could not be resolved, or the session not stored.
    Unavailable,
    /// The identity has no active account.
    NoAccess,
}

impl LoginFailure {
    /// The code the login page is given.
    pub open spec fn code_text(self) -> Seq<char> {
        match self {
            LoginFailure::Idp => "idp"@,
            LoginFailure::State => "state"@,
            LoginFailure::Unavailable => "unavailable"@,
            LoginFailure::NoAccess => "no_access"@,
        }
    }

    /// The code the login page is given.
    pub fn code(&self) -> (r: &'static str)
        ensures
            r@ == self.code_text(),
    {
        match self {
            LoginFailure::Idp => "idp",
            LoginFailure::State => "state",
            LoginFailure::Unavailable => "unavailable",
            LoginFailure::NoAccess => "no_access",
        }
    }
}

/// Where a failed login sends the browser: the login page with the failure code.
pub fn login_error_location(code: &str) -> (r: String)
    ensures
        r@ == "/login?error="@ + code@,
{
    concat2("/login?error=", code)
}

/// The authorization code and CSRF state of a callback: a realm error fails the
/// login as [`LoginFailure::Idp`]; a callback without both a code and a state is
/// no real flow and fails as [`LoginFailure::State`].
pub fn callback_params(query: CallbackQuery) -> (r: Result<(String, String), LoginFailure>)
    ensures
        query.error is Some ==> r == Err::<(String, String), LoginFailure>(LoginFailure::Idp),
        query.error is None ==> match (query.code, query.state) {
            (Some(code), Some(state)) => r == Ok::<(String, String), LoginFailure>((code, state)),
            _ => r == Err::<(String, String), LoginFailure>(LoginFailure::State),
        },
{
    if query.error.is_some() {
        return Err(LoginFailure::Idp);
    }
    match (query.code, query.state) {
        (Some(code), Some(state)) => Ok((code, state)),
        _ => Err(LoginFailure::State),
    }
}

/// The member `key` of `item` when it is a non-empty string.
pub open spec fn nonempty_str_field(item: Json, key: Seq<char>) -> Option<Seq<char>> {
    match item.str_field(key) {
        Some(s) => if s.len() > 0 {
            Some(s)
        } else {
            None
        },
        None => None,
    }
}

/// The present names of a pair, joined by one space; `None` when both are absent.
pub open spec fn joined_name(first: Option<Seq<char>>, last: Option<Seq<char>>) -> Option<Seq<char>> {
    match (first, last) {
        (Some(f), Some(l)) => Some(f + seq![' '] + l),
        (Some(f), None) => Some(f),
        (None, Some(l)) => Some(l),
        (None, None) => None,
    }
}

/// The label of a resolved account: the name the identity provider asserted,
/// else the name given at provisioning, else the account id, else empty.
pub open spec fn display_name_of(item: Json) -> Seq<char> {
    match joined_name(nonempty_str_field(item, "idp_first_name"@), nonempty_str_field(item, "idp_last_name"@)) {
        Some(name) => name,
        None => match joined_name(
            nonempty_str_field(item, "provisioning_first_name"@),
            nonempty_str_field(item, "provisioning_last_name"@),
        ) {
            Some(name) => name,
            None => match nonempty_str_field(item, "id"@) {
                Some(id) => id,
                None => seq![],
            },
        },
    }
}

/// A label names the person first name first: with both names the identity
/// provider asserted, it is the first name, a space and the last name, whatever
/// the provisioning names are.
pub proof fn lemma_label_from_idp_names(item: Json, first: Seq<char>, last: Seq<char>)
    requires
        item.str_field("idp_first_name"@) == Some(first),
        item.str_field("idp_last_name"@) == Some(last),
        first.len() > 0,
        last.len() > 0,
    ensures
        display_name_of(item) == first + " "@ + last,
{
    reveal_strlit(" ");
    assert(first + seq![' '] + last =~= first + " "@ + last);
}

/// Without names from the identity provider, the label is the provisioning
/// names, first name first: the first name, a space and the last name.
pub proof fn lemma_label_from_provisioning_names(item: Json, first: Seq<char>, last: Seq<char>)
    requires
        item.field("idp_first_name"@) is None,
        item.field("idp_last_name"@) is None,
        item.str_field("provisioning_first_name"@) == Some(first),
        item.str_field("provisioning_last_name"@) == Some(last),
        first.len() > 0,
        last.len() > 0,
    ensures
        display_name_of(item) == first + " "@ + last,
{
    reveal_strlit(" ");
    assert(first + seq![' '] + last =~= first + " "@ + last);
}

/// With a single provisioning name and no names from the identity provider,
/// the label is that name alone.
pub proof fn lemma_label_from_one_provisioning_name(item: Json, name: Seq<char>, first_present: bool)
    requires
        item.field("idp_first_name"@) is None,
        item.field("idp_last_name"@) is None,
        name.len() > 0,
        first_present ==> item.str_field("provisioning_first_name"@) == Some(name)
            && item.field("provisioning_last_name"@) is None,
        !first_present ==> item.str_field("provisioning_last_name"@) == Some(name)
            && item.field("provisioning_first_name"@) is None,
    ensures
        display_name_of(item) == name,
{
}

/// An account without any name is labelled by its id.
pub proof fn lemma_label_falls_back_to_id(item: Json, id: Seq<char>)
    requires
        item.field("idp_first_name"@) is None,
        item.field("idp_last_name"@) is None,
        item.field("provisioning_first_name"@) is None,
        item.field("provisioning_last_name"@) is None,
        item.str_field("id"@) == Some(id),
        id.len() > 0,
    ensures
        display_name_of(item) == id,
{
}

/// The member `key` of `item` when it is a non-empty string.
fn nonempty_field<'a>(item: &'a Json, key: &str) -> (r: Option<&'a str>)
    ensures
        opt_view(r) == nonempty_str_field(*item, key@),
{
    match item.get_str(key) {
        Some(s) => {
            if s.is_empty() {
                None
            } else {
                Some(s)
            }
        },
        None => None,
    }
}

/// Computes [`joined_name`].
fn join_names(first: Option<&str>, last: Option<&str>) -> (r: Option<String>)
    ensures
        opt_string_view(r) == joined_name(opt_view(first), opt_view(last)),
{
    proof {
        reveal_strlit(" ");
    }
    match (first, last) {
        (Some(f), Some(l)) => Some(concat3(f, " ", l)),
        (Some(f), None) => Some(owned(f)),
        (None, Some(l)) => Some(owned(l)),
        (None, None) => None,
    }
}

/// Computes [`display_name_of`].
pub fn display_name(item: &Json) -> (r: String)
    ensures
        r@ == display_name_of(*item),
{
    match join_names(nonempty_field(item, "idp_first_name"), nonempty_field(item, "idp_last_name")) {
        Some(name) => name,
        None => match join_names(
            nonempty_field(item, "provisioning_first_name"),
            nonempty_field(item, "provisioning_last_name"),
        ) {
            Some(name) => name,
            None => match nonempty_field(item, "id") {
                Some(id) => owned(id),
                None => String::new(),
            },
        },
    }
}

/// The fields of a session account: id, tenant id, tenant display name, label.
pub open spec fn account_view(a: SessionAccount) -> (Seq<char>, Seq<char>, Option<Seq<char>>, Seq<char>) {
    (a.id@, a.tenant_id@, opt_string_view(a.tenant_display_name), a.display_name@)
}

/// The fields of each account of a list, in order.
pub open spec fn accounts_view(s: Seq<SessionAccount>) -> Seq<(Seq<char>, Seq<char>, Option<Seq<char>>, Seq<char>)> {
    s.map_values(|a: SessionAccount| account_view(a))
}

/// The session account a resolved item gives: only an item whose `state` is
/// `active` and that has string `id` and `tenant_id` members gives one.
pub open spec fn resolved_account(item: Json) -> Option<(Seq<char>, Seq<char>, Option<Seq<char>>, Seq<char>)> {
    if item.str_field("state"@) == Some("active"@) && item.str_field("id"@) is Some && item.str_field(
        "tenant_id"@,
    ) is Some {
        Some(
            (
                item.str_field("id"@)->0,
                item.str_field("tenant_id"@)->0,
                item.str_field("tenant_display_name"@),
                display_name_of(item),
            ),
        )
    } else {
        None
    }
}

/// The accounts that the resolved items give, in order.
pub open spec fn active_of(items: Seq<Json>) -> Seq<(Seq<char>, Seq<char>, Option<Seq<char>>, Seq<char>)>
    decreases items.len(),
{
    if items.len() == 0 {
        seq![]
    } else {
        match resolved_account(items.last()) {
            Some(a) => active_of(items.drop_last()).push(a),
            None => active_of(items.drop_last()),
        }
    }
}

/// Only active accounts can be logged into: every account a resolve response
/// gives comes from an item whose `state` is `active`, with that item's `id`
/// and `tenant_id`.
pub proof fn lemma_session_accounts_are_active(items: Seq<Json>, i: int)
    requires
        0 <= i < active_of(items).len(),
    ensures
        exists|j: int|
            0 <= j < items.len() && #[trigger] items[j].str_field("state"@) == Some("active"@) && items[j].str_field(
                "id"@,
            ) == Some(active_of(items)[i].0) && items[j].str_field("tenant_id"@) == Some(active_of(items)[i].1),
    decreases items.len(),
{
    let rest = items.drop_last();
    let n = items.len() - 1;
    match resolved_account(items.last()) {
        Some(a) => {
            if i < active_of(rest).len() {
                lemma_session_accounts_are_active(rest, i);
                let j = choose|j: int|
                    0 <= j < rest.len() && #[trigger] rest[j].str_field("state"@) == Some("active"@) && rest[j].str_field(
                        "id"@,
                    ) == Some(active_of(rest)[i].0) && rest[j].str_field("tenant_id"@) == Some(active_of(rest)[i].1);
                assert(items[j] == rest[j]);
            } else {
                assert(items[n] == items.last());
            }
        },
        None => {
            lemma_session_accounts_are_active(rest, i);
            let j = choose|j: int|
                0 <= j < rest.len() && #[trigger] rest[j].str_field("state"@) == Some("active"@) && rest[j].str_field(
                    "id"@,
                ) == Some(active_of(rest)[i].0) && rest[j].str_field("tenant_id"@) == Some(active_of(rest)[i].1);
            assert(items[j] == rest[j]);
        },
    }
}

/// The `items` array of a resolve response; empty when there is none.
pub open spec fn resolved_items(resolved: Json) -> Seq<Json> {
    match resolved.field("items"@) {
        Some(Json::Array(items)) => items@,
        _ => seq![],
    }
}

/// The session account of one resolved item, per [`resolved_account`].
fn account_from(item: &Json) -> (r: Option<SessionAccount>)
    ensures
        match r {
            Some(a) => resolved_account(*item) == Some(account_view(a)),
            None => resolved_account(*item) is None,
        },
{
    let active = match item.get_str("state") {
        Some(s) => str_eq(s, "active"),
        None => false,
    };
    if !active {
        return None;
    }
    let id = match item.get_str("id") {
        Some(s) => owned(s),
        None => return None,
    };
    let tenant_id = match item.get_str("tenant_id") {
        Some(s) => owned(s),
        None => return None,
    };
    let tenant_display_name = match item.get_str("tenant_display_name") {
        Some(s) => Some(owned(s)),
        None => None,
    };
    Some(SessionAccount { id, tenant_id, tenant_display_name, display_name: display_name(item) })
}

/// The accounts of a resolve response that can be logged into: those of
/// [`active_of`] its items, in order.
pub fn active_accounts(resolved: &Json) -> (r: Vec<SessionAccount>)
    ensures
        accounts_view(r@) == active_of(resolved_items(*resolved)),
{
    let items = match resolved.get("items") {
        Some(Json::Array(items)) => items,
        _ => {
            let empty: Vec<SessionAccount> = Vec::new();
            proof {
                assert(accounts_view(empty@) =~= seq![]);
            }
            return empty;
        },
    };
    let mut out: Vec<SessionAccount> = Vec::new();
    let mut i: usize = 0;
    proof {
        assert(items@.take(0) =~= seq![]);
        assert(accounts_view(out@) =~= seq![]);
    }
    while i < items.len()
        invariant
            i <= items@.len(),
            resolved_items(*resolved) == items@,
            accounts_view(out@) == active_of(items@.take(i as int)),
        decreases items@.len() - i,
    {
        proof {
            assert(items@.take(i + 1).drop_last() =~= items@.take(i as int));
            assert(items@.take(i + 1).last() == items@[i as int]);
        }
        match account_from(&items[i]) {
            Some(a) => {
                let ghost before = out@;
                out.push(a);
                proof {
                    assert(accounts_view(out@) =~= accounts_view(before).push(account_view(a)));
                }
            },
            None => {},
        }
        i = i + 1;
    }
    proof {
        assert(items@.take(items@.len() as int) =~= items@);
    }
    out
}

/// `data` is the session a login of `verified` establishes at `now` when its
/// identity resolved to `resolved` with at least one active account: the
/// identity and the realm's tokens of the login, the active accounts in order,
/// and the first of them selected.
pub open spec fn session_established(data: SessionData, verified: VerifiedUser, resolved: Json, now: i64) -> bool {
    &&& data.iss == verified.iss
    &&& data.sub == verified.sub
    &&& data.kc_access_token == verified.access_token
    &&& data.kc_refresh_token@ == match verified.refresh_token {
        Some(t) => t@,
        None => Seq::<char>::empty(),
    }
    &&& data.kc_id_token == verified.id_token
    &&& data.kc_access_expiry_unix == verified.access_expiry_unix
    &&& data.logged_in_at_unix == now
    &&& accounts_view(data.accounts@) == active_of(resolved_items(resolved))
    &&& data.selected_account_id@ == active_of(resolved_items(resolved))[0].0
}

/// The session a completed login establishes, from the verified identity, the
/// accounts it resolved to, and the time of login. The first active account is
/// selected; an identity with no active account has no access.
pub fn establish_session(verified: VerifiedUser, resolved: &Json, now: i64) -> (r: Result<SessionData, LoginFailure>)
    ensures
        active_of(resolved_items(*resolved)).len() == 0 ==> r == Err::<SessionData, LoginFailure>(
            LoginFailure::NoAccess,
        ),
        active_of(resolved_items(*resolved)).len() > 0 ==> (r matches Ok(data) && session_established(
            data,
            verified,
            *resolved,
            now,
        )),
{
    let accounts = active_accounts(resolved);
    if accounts.len() == 0 {
        return Err(LoginFailure::NoAccess);
    }
    let selected_account_id = accounts[0].id.clone();
    proof {
        assert(accounts_view(accounts@)[0] == account_view(accounts@[0]));
    }
    let kc_refresh_token = match verified.refresh_token {
        Some(t) => t,
        None => String::new(),
    };
    Ok(SessionData {
        iss: verified.iss,
        sub: verified.sub,
        kc_access_token: verified.access_token,
        kc_refresh_token,
        kc_id_token: verified.id_token,
        kc_access_expiry_unix: verified.access_expiry_unix,
        logged_in_at_unix: now,
        accounts,
        selected_account_id,
    })
}

/// The query parameters of an RP-initiated logout: where the realm returns the
/// browser, and the `id_token` of the session as a hint when there is one.
pub open spec fn logout_params(post_logout: Seq<char>, id_token_hint: Option<Seq<char>>) -> Seq<(Seq<char>, Seq<char>)> {
    match id_token_hint {
        Some(hint) => seq![("post_logout_redirect_uri"@, post_logout), ("id_token_hint"@, hint)],
        None => seq![("post_logout_redirect_uri"@, post_logout)],
    }
}

/// Where a logout sends the browser: through the realm's end-session endpoint
/// with [`logout_params`] (single sign-out), or straight to `post_logout` when
/// the realm advertises no such endpoint or it is not a valid URL.
pub open spec fn logout_target(
    post_logout: Seq<char>,
    end_session_endpoint: Option<Seq<char>>,
    id_token_hint: Option<Seq<char>>,
) -> Seq<char> {
    match end_session_endpoint {
        Some(endpoint) => match url_with_query(endpoint, logout_params(post_logout, id_token_hint)) {
            Some(url) => url,
            None => post_logout,
        },
        None => post_logout,
    }
}

/// Computes [`logout_target`].
pub fn logout_location(post_logout: &str, end_session_endpoint: Option<&str>, id_token_hint: Option<&str>) -> (r: String)
    ensures
        r@ == logout_target(post_logout@, opt_view(end_session_endpoint), opt_view(id_token_hint)),
{
    let endpoint = match end_session_endpoint {
        Some(e) => e,
        None => return owned(post_logout),
    };
    let mut params: Vec<(String, String)> = Vec::new();
    params.push(pair("post_logout_redirect_uri", post_logout));
    match id_token_hint {
        Some(hint) => params.push(pair("id_token_hint", hint)),
        None => {},
    }
    proof {
        assert(pairs_view(params@) =~= logout_params(post_logout@, opt_view(id_token_hint)));
    }
    match url_with_params(endpoint, &params) {
        Some(url) => url,
        None => owned(post_logout),
    }
}

} // verus!
