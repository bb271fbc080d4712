//! `GET /api/me`: the current session as the single-page app sees it.

use vstd::prelude::*;

use crate::bff::session::{first_account, SessionAccount, SessionData};

verus! {

/// The logged-in federated identity.
#[derive(Debug)]
pub struct Identity {
    pub iss: String,
    pub sub: String,
}

/// The answer of `GET /api/me`.
#[derive(Debug)]
pub struct MeResponse {
    pub identity: Identity,
    /// The account the user acts as.
    pub selected_account: SessionAccount,
    /// Every active account of the identity, for the picker.
    pub accounts: Vec<SessionAccount>,
}

/// The session as `GET /api/me` reports it; `None` when its selection no longer
/// names one of its accounts, which is answered as not logged in.
pub fn me_response(data: SessionData) -> (r: Option<MeResponse>)
    ensures
        match r {
            Some(me) => {
                &&& first_account(data.accounts@, data.selected_account_id@) == Some(me.selected_account)
                &&& me.identity.iss == data.iss
                &&& me.identity.sub == data.sub
                &&& me.accounts == data.accounts
            },
            None => first_account(data.accounts@, data.selected_account_id@) is None,
        },
{
    let selected_account = match data.selected() {
        Some(account) => account.duplicate(),
        None => return None,
    };
    Some(MeResponse { identity: Identity { iss: data.iss, sub: data.sub }, selected_account, accounts: data.accounts })
}

} // verus!
