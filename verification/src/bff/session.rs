//! Server-side session state: the browser holds only an opaque session id.

use vstd::prelude::*;

use crate::bff::exchange::RefreshedUserToken;
use crate::text::str_eq;

verus! {

/// Key under which the session data is stored.
pub const SESSION_DATA_KEY: &'static str = "data";

/// One account the logged-in identity is linked to.
#[derive(Debug)]
pub struct SessionAccount {
    pub id: String,
    pub tenant_id: String,
    /// The owning tenant's display name, when it has one.
    pub tenant_display_name: Option<String>,
    /// Label for the account picker.
    pub display_name: String,
}

impl SessionAccount {
    /// A copy of the account.
    pub fn duplicate(&self) -> (r: Self)
        ensures
            r == *self,
    {
        SessionAccount {
            id: self.id.clone(),
            tenant_id: self.tenant_id.clone(),
            tenant_display_name: match &self.tenant_display_name {
                Some(n) => Some(n.clone()),
                None => None,
            },
            display_name: self.display_name.clone(),
        }
    }
}

/// The server-side session of a logged-in administrator.
#[derive(Debug)]
pub struct SessionData {
    /// The federated identity established at login.
    pub iss: String,
    pub sub: String,
    /// The user's realm tokens; never sent to the browser.
    pub kc_access_token: String,
    pub kc_refresh_token: String,
    pub kc_id_token: String,
    pub kc_access_expiry_unix: i64,
    /// Login time, for the absolute session lifetime.
    pub logged_in_at_unix: i64,
    /// The active accounts the identity resolves to.
    pub accounts: Vec<SessionAccount>,
    /// The id of the selected account.
    pub selected_account_id: String,
}

/// The first account with id `id`.
pub open spec fn first_account(accounts: Seq<SessionAccount>, id: Seq<char>) -> Option<SessionAccount>
    decreases accounts.len(),
{
    if accounts.len() == 0 {
        None
    } else if accounts[0].id@ == id {
        Some(accounts[0])
    } else {
        first_account(accounts.drop_first(), id)
    }
}

/// Position of the first account with id `id`.
fn position(accounts: &Vec<SessionAccount>, id: &str) -> (r: Option<usize>)
    ensures
        match r {
            Some(i) => i < accounts@.len() && first_account(accounts@, id@) == Some(accounts@[i as int]),
            None => first_account(accounts@, id@) is None,
        },
        r is None <==> forall|j: int| 0 <= j < accounts@.len() ==> (#[trigger] accounts@[j]).id@ != id@,
{
    let mut i: usize = 0;
    assert(accounts@.skip(0) =~= accounts@);
    while i < accounts.len()
        invariant
            i <= accounts@.len(),
            forall|j: int| 0 <= j < i ==> (#[trigger] accounts@[j]).id@ != id@,
            first_account(accounts@, id@) == first_account(accounts@.skip(i as int), id@),
        decreases accounts@.len() - i,
    {
        assert(accounts@.skip(i as int).drop_first() =~= accounts@.skip(i + 1));
        assert(accounts@.skip(i as int)[0] == accounts@[i as int]);
        if str_eq(accounts[i].id.as_str(), id) {
            return Some(i);
        }
        i = i + 1;
    }
    None
}

/// A reference option read as the account it points to.
pub open spec fn deref_account(o: Option<&SessionAccount>) -> Option<SessionAccount> {
    match o {
        Some(a) => Some(*a),
        None => None,
    }
}

/// After a successful switch, the selection resolves to the account the switch
/// returned: the first account with the requested id.
pub proof fn lemma_select_then_selected(accounts: Seq<SessionAccount>, id: Seq<char>)
    requires
        first_account(accounts, id) is Some,
    ensures
        first_account(accounts, id)->0.id@ == id,
    decreases accounts.len(),
{
    if accounts[0].id@ != id {
        lemma_select_then_selected(accounts.drop_first(), id);
    }
}

/// What a switch writes, a read gives back: once `select_account` switched to
/// `id` (and returned an account), `selected` yields exactly the account the
/// switch returned, and that account has the requested id.
pub proof fn lemma_switch_then_read(before: SessionData, after: SessionData, id: Seq<char>, returned: Option<SessionAccount>)
    requires
        returned == first_account(before.accounts@, id),
        returned is Some,
        after.selected_account_id@ == id,
        after.accounts == before.accounts,
    ensures
        first_account(after.accounts@, after.selected_account_id@) == returned,
        returned->0.id@ == id,
{
    lemma_select_then_selected(before.accounts@, id);
}

impl SessionData {
    /// The selected account: the first account whose id is the selection, if
    /// the selection still names one.
    pub fn selected(&self) -> (r: Option<&SessionAccount>)
        ensures
            crate::bff::session::deref_account(r) == first_account(self.accounts@, self.selected_account_id@),
            r is None <==> forall|j: int| 0 <= j < self.accounts@.len()
                ==> (#[trigger] self.accounts@[j]).id@ != self.selected_account_id@,
    {
        match position(&self.accounts, self.selected_account_id.as_str()) {
            Some(i) => Some(&self.accounts[i]),
            None => None,
        }
    }

    /// Switches the selection to `account_id` and returns the newly selected
    /// account; an id that is not one of the session's accounts is refused and
    /// changes nothing.
    pub fn select_account(&mut self, account_id: &str) -> (r: Option<SessionAccount>)
        ensures
            r == first_account(old(self).accounts@, account_id@),
            match r {
                Some(a) => final(self).selected_account_id@ == account_id@ && a.id@ == account_id@,
                None => *final(self) == *old(self),
            },
            final(self).accounts == old(self).accounts,
            final(self).iss == old(self).iss,
            final(self).sub == old(self).sub,
            final(self).kc_access_token == old(self).kc_access_token,
            final(self).kc_refresh_token == old(self).kc_refresh_token,
            final(self).kc_id_token == old(self).kc_id_token,
            final(self).kc_access_expiry_unix == old(self).kc_access_expiry_unix,
            final(self).logged_in_at_unix == old(self).logged_in_at_unix,
    {
        match position(&self.accounts, account_id) {
            Some(i) => {
                proof {
                    lemma_select_then_selected(self.accounts@, account_id@);
                }
                self.selected_account_id = account_id.to_owned();
                Some(self.accounts[i].duplicate())
            },
            None => None,
        }
    }
}

impl SessionData {
    /// The session is within its absolute lifetime at `now`: fewer than
    /// `absolute_timeout_secs` seconds have passed since login.
    pub open spec fn live_at(&self, now: i64, absolute_timeout_secs: i64) -> bool {
        now - self.logged_in_at_unix < absolute_timeout_secs
    }

    /// Decides [`SessionData::live_at`].
    pub fn is_live(&self, now: i64, absolute_timeout_secs: i64) -> (r: bool)
        ensures
            r == self.live_at(now, absolute_timeout_secs),
    {
        (now as i128) - (self.logged_in_at_unix as i128) < (absolute_timeout_secs as i128)
    }

    /// The guarded routes are open to this session at `now`: it is live and its
    /// selection names one of its accounts.
    pub fn admits(&self, now: i64, absolute_timeout_secs: i64) -> (r: bool)
        ensures
            r == (self.live_at(now, absolute_timeout_secs) && first_account(self.accounts@, self.selected_account_id@) is Some),
    {
        self.is_live(now, absolute_timeout_secs) && self.selected().is_some()
    }

    /// The user's access token has reached its expiry at `now` and must be
    /// refreshed before it is exchanged.
    pub fn needs_refresh(&self, now: i64) -> (r: bool)
        ensures
            r == (now >= self.kc_access_expiry_unix),
    {
        now >= self.kc_access_expiry_unix
    }

    /// Takes over the tokens of a refresh; everything else stays.
    pub fn apply_refresh(&mut self, refreshed: RefreshedUserToken)
        ensures
            final(self).kc_access_token == refreshed.access_token,
            final(self).kc_refresh_token == refreshed.refresh_token,
            final(self).kc_access_expiry_unix == refreshed.access_expiry_unix,
            final(self).iss == old(self).iss,
            final(self).sub == old(self).sub,
            final(self).kc_id_token == old(self).kc_id_token,
            final(self).logged_in_at_unix == old(self).logged_in_at_unix,
            final(self).accounts == old(self).accounts,
            final(self).selected_account_id == old(self).selected_account_id,
    {
        self.kc_access_token = refreshed.access_token;
        self.kc_refresh_token = refreshed.refresh_token;
        self.kc_access_expiry_unix = refreshed.access_expiry_unix;
    }
}

} // verus!
