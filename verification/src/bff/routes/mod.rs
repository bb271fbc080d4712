//! Decisions of the back end's HTTP routes.

pub mod auth;
pub mod callback;
pub mod credentials;
pub mod me;

use vstd::prelude::*;

verus! {

/// The session cookie's name. The `__Host-` prefix requires a secure cookie,
/// so it is used only when the cookie is secure.
pub fn session_cookie_name(secure: bool) -> (r: &'static str)
    ensures
        r@ == (if secure { "__Host-swiyu_session"@ } else { "swiyu_session"@ }),
{
    if secure {
        "__Host-swiyu_session"
    } else {
        "swiyu_session"
    }
}

} // verus!
