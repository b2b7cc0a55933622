//! Logging in with a username and a password.

use crate::cache::Cache;
use crate::password::{argon2_verifies, verify};
use crate::payload::{Account, Credentials};
use crate::session::{self, logged_in, Connected};
use vstd::prelude::*;

verus! {

/// The account that the credentials log in to: the one found under their
/// username, if Argon2 accepts their password against its hash. This is the
/// slow step, to be run without holding the session store's lock.
pub fn authorized_account(credentials: &Credentials, account: Option<&Account>) -> (r: Option<u128>)
    ensures
        match account {
            None => r is None,
            Some(a) => if argon2_verifies(a.password_hash@, credentials.password@) {
                r == Some(a.account_id)
            } else {
                r is None
            },
        },
{
    if let Some(account) = account {
        if verify(credentials.password.as_str(), account.password_hash.as_str()) {
            return Some(account.account_id);
        }
    }
    None
}

/// Logs in the account that the credentials were checked for: its new
/// session, or the refusal of credentials that were not accepted.
pub fn open_session(authorized: Option<u128>, sessions: &mut Cache<Connected>) -> (r: Result<
    Connected,
    String,
>)
    requires
        old(sessions).wf(),
    ensures
        final(sessions).wf(),
        final(sessions).latest() >= old(sessions).latest(),
        match authorized {
            Some(id) => r matches Ok(s) && s.account_id == id && final(sessions)@ == logged_in(
                old(sessions)@,
                s,
                final(sessions).latest(),
            ),
            None => {
                &&& r matches Err(message) && message@ == "invalid credentials"@
                &&& final(sessions)@ == old(sessions)@
            },
        },
{
    match authorized {
        Some(id) => Ok(session::login(sessions, id)),
        None => Err("invalid credentials".to_owned()),
    }
}

/// Checks the credentials against the account found under their username, if
/// any, and on success logs the account in and returns its new session, to
/// be put in the cookie.
pub fn login(credentials: &Credentials, account: Option<&Account>, sessions: &mut Cache<Connected>) -> (r:
    Result<Connected, String>)
    requires
        old(sessions).wf(),
    ensures
        final(sessions).wf(),
        final(sessions).latest() >= old(sessions).latest(),
        match r {
            Ok(s) => account matches Some(a) && argon2_verifies(
                a.password_hash@,
                credentials.password@,
            ) && s.account_id == a.account_id && final(sessions)@ == logged_in(
                old(sessions)@,
                s,
                final(sessions).latest(),
            ),
            Err(message) => message@ == "invalid credentials"@ && final(sessions)@ == old(
                sessions,
            )@,
        },
        account is None ==> r is Err,
        account matches Some(a) ==> (r is Ok <==> argon2_verifies(
            a.password_hash@,
            credentials.password@,
        )),
{
    let authorized = authorized_account(credentials, account);
    open_session(authorized, sessions)
}

} // verus!
