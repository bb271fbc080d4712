//! The login callback as a sequence of decisions: each step takes what the
//! last piece of outside work returned and says what to do next, until the
//! browser is redirected. The caller performs the actions: taking the pending
//! login, completing the login at the realm, resolving the identity at the
//! management API, and storing the session.

use vstd::prelude::*;

use crate::bff::login::{LoginError, VerifiedUser};
use crate::bff::pending::PendingLogin;
use crate::bff::routes::auth::{
    active_of, establish_session, login_error_location, resolved_items, session_established, CallbackQuery,
    LoginFailure,
};
use crate::bff::session::SessionData;
use crate::json::Json;
use crate::text::owned;

verus! {

/// How far a callback has come.
#[derive(Debug)]
pub enum CallbackState {
    /// Nothing is done yet.
    Start,
    /// The callback's authorization code, while its pending login is taken.
    TakingPending { code: String },
    /// The login is being completed; `return_to` is where a successful login
    /// sends the browser.
    CompletingLogin { return_to: String },
    /// The verified user, while its identity is resolved to accounts.
    Resolving { verified: VerifiedUser, return_to: String },
    /// The established session is being stored.
    StoringSession { return_to: String },
    /// The callback has answered.
    Done,
}

/// What the last step's outside work returned.
#[derive(Debug)]
pub enum CallbackEvent {
    /// The callback request arrived with this query.
    Start(CallbackQuery),
    /// The pending login kept under the callback's `state`, if there was one.
    PendingTaken(Option<PendingLogin>),
    /// The outcome of completing the login at the realm.
    LoginCompleted(Result<VerifiedUser, LoginError>),
    /// The identity's resolution (`None` when the management API could not
    /// answer), and the time in seconds.
    Resolved { accounts: Option<Json>, now: i64 },
    /// Whether the session was stored.
    SessionStored(bool),
}

/// What the caller does next.
#[derive(Debug)]
pub enum CallbackAction {
    /// Take (and so consume) the pending login kept under `state`.
    TakePending { state: String },
    /// Exchange `code` and verify the login with the pending login's secrets.
    CompleteLogin { code: String, pending: PendingLogin },
    /// Resolve the identity `(iss, sub)` to its accounts, as the first party.
    Resolve { iss: String, sub: String },
    /// Store `data` as the browser's session.
    StoreSession { data: SessionData },
    /// Answer with a redirect to `location`; the callback is over.
    Redirect { location: String },
}

/// `a` redirects the browser to `location`.
pub open spec fn redirects_to(a: CallbackAction, location: Seq<char>) -> bool {
    a matches CallbackAction::Redirect { location: l } && l@ == location
}

/// Where a login that failed with `f` sends the browser.
pub open spec fn failure_location(f: LoginFailure) -> Seq<char> {
    "/login?error="@ + f.code_text()
}

/// The step ends the callback with the failure `f`.
pub open spec fn fails_with(r: (CallbackState, CallbackAction), f: LoginFailure) -> bool {
    r.0 is Done && redirects_to(r.1, failure_location(f))
}

fn fail(f: LoginFailure) -> (r: (CallbackState, CallbackAction))
    ensures
        fails_with(r, f),
{
    (CallbackState::Done, CallbackAction::Redirect { location: login_error_location(f.code()) })
}

/// One step of the login callback:
/// - a realm error fails as `idp`; a callback without both a code and a state
///   fails as `state`; otherwise the pending login under the state is taken;
/// - no pending login (unknown, expired or already used state) fails as
///   `state`; otherwise the login is completed with its code and secrets;
/// - a login that does not complete fails as `idp`; otherwise its identity is
///   resolved;
/// - a resolution that does not come back fails as `unavailable`; one without
///   an active account fails as `no_access`; otherwise the session
///   [`establish_session`] makes is stored;
/// - a session that is not stored fails as `unavailable`; once it is, the
///   browser goes to the pending login's `return_to`.
/// An event that does not belong to the state fails as `unavailable`.
pub fn callback_step(state: CallbackState, event: CallbackEvent) -> (r: (CallbackState, CallbackAction))
    ensures
        match (state, event) {
            (CallbackState::Start, CallbackEvent::Start(q)) => if q.error is Some {
                fails_with(r, LoginFailure::Idp)
            } else {
                match (q.code, q.state) {
                    (Some(c), Some(s)) => (r.0 matches CallbackState::TakingPending { code } && code == c) && (
                    r.1 matches CallbackAction::TakePending { state: st } && st == s),
                    _ => fails_with(r, LoginFailure::State),
                }
            },
            (CallbackState::TakingPending { code }, CallbackEvent::PendingTaken(p)) => match p {
                None => fails_with(r, LoginFailure::State),
                Some(p) => (r.0 matches CallbackState::CompletingLogin { return_to } && return_to@ == p.return_to@)
                    && (r.1 matches CallbackAction::CompleteLogin { code: c, pending } && c == code && pending == p),
            },
            (CallbackState::CompletingLogin { return_to }, CallbackEvent::LoginCompleted(res)) => match res {
                Err(_) => fails_with(r, LoginFailure::Idp),
                Ok(v) => (r.0 matches CallbackState::Resolving { verified, return_to: rt } && verified == v && rt
                    == return_to) && (r.1 matches CallbackAction::Resolve { iss, sub } && iss@ == v.iss@ && sub@
                    == v.sub@),
            },
            (CallbackState::Resolving { verified, return_to }, CallbackEvent::Resolved { accounts, now }) => match accounts {
                None => fails_with(r, LoginFailure::Unavailable),
                Some(j) => if active_of(resolved_items(j)).len() == 0 {
                    fails_with(r, LoginFailure::NoAccess)
                } else {
                    (r.0 matches CallbackState::StoringSession { return_to: rt } && rt == return_to) && (
                    r.1 matches CallbackAction::StoreSession { data } && session_established(data, verified, j, now))
                },
            },
            (CallbackState::StoringSession { return_to }, CallbackEvent::SessionStored(stored)) => if stored {
                r.0 is Done && redirects_to(r.1, return_to@)
            } else {
                fails_with(r, LoginFailure::Unavailable)
            },
            _ => fails_with(r, LoginFailure::Unavailable),
        },
{
    match (state, event) {
        (CallbackState::Start, CallbackEvent::Start(q)) => {
            if q.error.is_some() {
                return fail(LoginFailure::Idp);
            }
            match (q.code, q.state) {
                (Some(code), Some(st)) => (CallbackState::TakingPending { code }, CallbackAction::TakePending {
                    state: st,
                }),
                _ => fail(LoginFailure::State),
            }
        },
        (CallbackState::TakingPending { code }, CallbackEvent::PendingTaken(p)) => match p {
            None => fail(LoginFailure::State),
            Some(pending) => {
                let return_to = owned(pending.return_to.as_str());
                (CallbackState::CompletingLogin { return_to }, CallbackAction::CompleteLogin { code, pending })
            },
        },
        (CallbackState::CompletingLogin { return_to }, CallbackEvent::LoginCompleted(res)) => match res {
            Err(_) => fail(LoginFailure::Idp),
            Ok(verified) => {
                let iss = owned(verified.iss.as_str());
                let sub = owned(verified.sub.as_str());
                (CallbackState::Resolving { verified, return_to }, CallbackAction::Resolve { iss, sub })
            },
        },
        (CallbackState::Resolving { verified, return_to }, CallbackEvent::Resolved { accounts, now }) => match accounts {
            None => fail(LoginFailure::Unavailable),
            Some(j) => match establish_session(verified, &j, now) {
                Ok(data) => (CallbackState::StoringSession { return_to }, CallbackAction::StoreSession { data }),
                Err(f) => fail(f),
            },
        },
        (CallbackState::StoringSession { return_to }, CallbackEvent::SessionStored(stored)) => {
            if stored {
                (CallbackState::Done, CallbackAction::Redirect { location: return_to })
            } else {
                fail(LoginFailure::Unavailable)
            }
        },
        _ => fail(LoginFailure::Unavailable),
    }
}

} // verus!
