//! Cookie sessions.
//!
//! A login stores a `Connected` session in the session store under the
//! account's id, and the same session goes to the client in a cookie. A
//! request is authenticated in two steps: first its cookie is checked against
//! the store, then, only if the session matches, against the account table,
//! since an account can be deleted while a session for it is still live. The
//! store's lock is only held during the first step; the account lookup
//! happens outside of it. A second login for an account replaces its session,
//! and so invalidates every cookie issued before it.

use crate::cache::{is_live, live_value, Cache, CacheItem, Contents};
use crate::ids::{hyphenated, hyphenated_text, random_id};
use vstd::prelude::*;

verus! {

/// How long a session lasts: one day, in milliseconds.
pub const SESSION_LIFETIME: u64 = 86_400_000;

/// An authenticated session: the account it belongs to and a random session
/// identifier that changes at each login.
#[derive(Clone, Copy, PartialEq, Eq, Structural, Debug)]
pub struct Connected {
    /// account identifier in the database
    pub account_id: u128,
    /// unique session identifier
    pub session_id: u128,
}

/// The user must not be logged in to use the given route.
#[derive(Clone, Copy, PartialEq, Eq, Structural, Debug)]
pub struct Unconnected;

/// The user may or may not be logged in to use the given route.
#[derive(Clone, Copy, PartialEq, Eq, Structural, Debug)]
pub struct IsConnected(pub Option<Connected>);

/// Why a request is not granted.
#[derive(Clone, Copy, PartialEq, Eq, Structural, Debug)]
pub enum AuthError {
    /// The route is for anonymous users and the request holds a valid session.
    AlreadyAuthenticated,
    /// No session: no cookie, or no live session stored for its account.
    NotLoggedIn,
    /// The cookie's session was replaced, or its account no longer exists.
    InvalidSession,
    /// The cookie does not decode into a session.
    Malformed,
}

/// The session cookie of a request, once its text has been decoded.
#[derive(Clone, Copy, PartialEq, Eq, Structural, Debug)]
pub enum SessionCookie {
    Missing,
    Malformed,
    Present(Connected),
}

/// Where an authentication stands once the cookie has been checked against
/// the session store.
#[derive(Clone, Copy, PartialEq, Eq, Structural, Debug)]
pub enum Authentication {
    /// Decided: the request is not authenticated, for the given reason.
    Refused(AuthError),
    /// The session matches the store. It is granted only once its account is
    /// known to exist.
    AwaitingAccount(Connected),
}

/// The store key of an account's session.
pub open spec fn session_key(account_id: u128) -> Seq<char> {
    hyphenated(account_id)
}

/// The session store after `session` was stored at `now`.
pub open spec fn logged_in(m: Contents<Connected>, session: Connected, now: u64) -> Contents<
    Connected,
> {
    m.insert(
        session_key(session.account_id),
        CacheItem { value: session, creation: now, lifetime: SESSION_LIFETIME },
    )
}

/// What checking `cookie` against the session store at time `now` decides.
pub open spec fn store_check(m: Contents<Connected>, cookie: SessionCookie, now: u64) -> Authentication {
    match cookie {
        SessionCookie::Missing => Authentication::Refused(AuthError::NotLoggedIn),
        SessionCookie::Malformed => Authentication::Refused(AuthError::Malformed),
        SessionCookie::Present(s) => match live_value(m, session_key(s.account_id), now) {
            None => Authentication::Refused(AuthError::NotLoggedIn),
            Some(stored) => if stored.session_id == s.session_id {
                Authentication::AwaitingAccount(s)
            } else {
                Authentication::Refused(AuthError::InvalidSession)
            },
        },
    }
}

/// What the store holds after the check: a session found expired is removed.
pub open spec fn store_after_check(m: Contents<Connected>, cookie: SessionCookie, now: u64) -> Contents<
    Connected,
> {
    match cookie {
        SessionCookie::Present(s) => if is_live(m, session_key(s.account_id), now) {
            m
        } else {
            m.remove(session_key(s.account_id))
        },
        _ => m,
    }
}

/// The end of an authentication, given whether the session's account exists.
pub open spec fn conclusion(step: Authentication, account_exists: bool) -> Result<Connected, AuthError> {
    match step {
        Authentication::Refused(e) => Err(e),
        Authentication::AwaitingAccount(s) => if account_exists {
            Ok(s)
        } else {
            Err(AuthError::InvalidSession)
        },
    }
}

/// Authentication of `cookie` against the session store at time `now`, where
/// `account_exists` tells whether the cookie's account is still in the account
/// table.
pub open spec fn authentication(
    m: Contents<Connected>,
    cookie: SessionCookie,
    now: u64,
    account_exists: bool,
) -> Result<Connected, AuthError> {
    conclusion(store_check(m, cookie, now), account_exists)
}

/// The anonymous-only guard: passes without a cookie; refuses a valid session
/// as already authenticated, and any other cookie as an invalid session.
pub open spec fn anonymous_guard(cookie: SessionCookie, outcome: Result<Connected, AuthError>) -> Result<
    Unconnected,
    AuthError,
> {
    match cookie {
        SessionCookie::Missing => Ok(Unconnected),
        _ => match outcome {
            Ok(_) => Err(AuthError::AlreadyAuthenticated),
            Err(_) => Err(AuthError::InvalidSession),
        },
    }
}

/// The text key of an account's session.
fn session_key_text(account_id: u128) -> (r: String)
    ensures
        r@ == session_key(account_id),
        forall|other: u128| #[trigger] session_key(other) == r@ ==> other == account_id,
{
    hyphenated_text(account_id)
}

impl Connected {
    /// Create a new connected session for the given user, with a fresh random
    /// session identifier.
    pub fn new(account_id: u128) -> (r: Self)
        ensures
            r.account_id == account_id,
    {
        Connected { account_id, session_id: random_id() }
    }
}

/// Stores `session` at time `now`, replacing any session of its account.
pub fn login_at(sessions: &mut Cache<Connected>, session: Connected, now: u64)
    requires
        old(sessions).wf(),
    ensures
        final(sessions).wf(),
        final(sessions).latest() == old(sessions).latest(),
        final(sessions)@ == logged_in(old(sessions)@, session, now),
{
    let key = session_key_text(session.account_id);
    let _ = sessions.set_at(key.as_str(), session, SESSION_LIFETIME, now);
    assert(final(sessions)@ =~= logged_in(old(sessions)@, session, now));
}

/// Logs `account_id` in: creates a fresh session, stores it in place of any
/// earlier one of the account, and returns it for the cookie.
pub fn login(sessions: &mut Cache<Connected>, account_id: u128) -> (r: Connected)
    requires
        old(sessions).wf(),
    ensures
        r.account_id == account_id,
        final(sessions).wf(),
        final(sessions).latest() >= old(sessions).latest(),
        final(sessions)@ == logged_in(old(sessions)@, r, final(sessions).latest()),
{
    let session = Connected::new(account_id);
    let key = session_key_text(account_id);
    let _ = sessions.set(key.as_str(), session, SESSION_LIFETIME);
    assert(sessions@ =~= logged_in(old(sessions)@, session, sessions.latest()));
    session
}

/// Logs `account_id` out: removes its session, if any. The sessions of other
/// accounts stay as they were.
pub fn logout(sessions: &mut Cache<Connected>, account_id: u128)
    requires
        old(sessions).wf(),
    ensures
        final(sessions).wf(),
        final(sessions).latest() >= old(sessions).latest(),
        final(sessions)@ == old(sessions)@.remove(session_key(account_id)),
        forall|other: u128|
            other != account_id ==> (final(sessions)@.contains_key(#[trigger] session_key(other))
                == old(sessions)@.contains_key(session_key(other)) && final(sessions)@[session_key(
                other,
            )] == old(sessions)@[session_key(other)]),
{
    let key = session_key_text(account_id);
    let _ = sessions.del(key.as_str());
    assert forall|other: u128| other != account_id implies #[trigger] session_key(other)
        != session_key(account_id) by {
        assert(session_key(other) == key@ ==> other == account_id);
    }
}

/// Checks `cookie` against the session store at time `now`.
pub fn authenticate_at(sessions: &mut Cache<Connected>, cookie: &SessionCookie, now: u64) -> (r:
    Authentication)
    requires
        old(sessions).wf(),
    ensures
        final(sessions).wf(),
        final(sessions).latest() == old(sessions).latest(),
        r == store_check(old(sessions)@, *cookie, now),
        final(sessions)@ == store_after_check(old(sessions)@, *cookie, now),
{
    match cookie {
        SessionCookie::Missing => Authentication::Refused(AuthError::NotLoggedIn),
        SessionCookie::Malformed => Authentication::Refused(AuthError::Malformed),
        SessionCookie::Present(session) => {
            let key = session_key_text(session.account_id);
            match sessions.get_at(key.as_str(), now) {
                None => Authentication::Refused(AuthError::NotLoggedIn),
                Some(stored) => {
                    if stored.session_id == session.session_id {
                        Authentication::AwaitingAccount(*session)
                    } else {
                        Authentication::Refused(AuthError::InvalidSession)
                    }
                },
            }
        },
    }
}

/// Checks `cookie` against the session store.
pub fn authenticate(sessions: &mut Cache<Connected>, cookie: &SessionCookie) -> (r: Authentication)
    requires
        old(sessions).wf(),
    ensures
        final(sessions).wf(),
        final(sessions).latest() >= old(sessions).latest(),
        r == store_check(old(sessions)@, *cookie, final(sessions).latest()),
        final(sessions)@ == store_after_check(old(sessions)@, *cookie, final(sessions).latest()),
{
    match cookie {
        SessionCookie::Present(session) => {
            let key = session_key_text(session.account_id);
            match sessions.get(key.as_str()) {
                None => Authentication::Refused(AuthError::NotLoggedIn),
                Some(stored) => {
                    if stored.session_id == session.session_id {
                        Authentication::AwaitingAccount(*session)
                    } else {
                        Authentication::Refused(AuthError::InvalidSession)
                    }
                },
            }
        },
        SessionCookie::Missing => Authentication::Refused(AuthError::NotLoggedIn),
        SessionCookie::Malformed => Authentication::Refused(AuthError::Malformed),
    }
}

impl Authentication {
    /// Ends the authentication, given whether the session's account still
    /// exists: a session for a deleted account is refused.
    pub fn conclude(self, account_exists: bool) -> (r: Result<Connected, AuthError>)
        ensures
            r == conclusion(self, account_exists),
    {
        match self {
            Authentication::Refused(e) => Err(e),
            Authentication::AwaitingAccount(s) => {
                if account_exists {
                    Ok(s)
                } else {
                    Err(AuthError::InvalidSession)
                }
            },
        }
    }
}

impl Unconnected {
    /// The anonymous-only guard, given the request's cookie and the outcome of
    /// its authentication (which does not matter without a cookie).
    pub fn from_authentication(cookie: &SessionCookie, outcome: &Result<Connected, AuthError>) -> (r:
        Result<Unconnected, AuthError>)
        ensures
            r == anonymous_guard(*cookie, *outcome),
    {
        match cookie {
            SessionCookie::Missing => Ok(Unconnected),
            _ => match outcome {
                Ok(_) => Err(AuthError::AlreadyAuthenticated),
                Err(_) => Err(AuthError::InvalidSession),
            },
        }
    }
}

impl IsConnected {
    /// The optional guard: never refuses; holds the session when the
    /// authentication succeeded.
    pub fn from_authentication(outcome: &Result<Connected, AuthError>) -> (r: IsConnected)
        ensures
            r.0 == match *outcome {
                Ok(s) => Some(s),
                Err(_) => None::<Connected>,
            },
    {
        match outcome {
            Ok(s) => IsConnected(Some(*s)),
            Err(_) => IsConnected(None),
        }
    }
}

/// Session round trip: right after a login, and for the whole session
/// lifetime, the login's own session authenticates, as long as its account
/// exists; the check leaves the store as it was.
pub proof fn lemma_login_then_authenticate(
    m: Contents<Connected>,
    session: Connected,
    login_time: u64,
    now: u64,
)
    requires
        now <= login_time + SESSION_LIFETIME,
    ensures
        authentication(logged_in(m, session, login_time), SessionCookie::Present(session), now, true)
            == Ok::<Connected, AuthError>(session),
        store_after_check(logged_in(m, session, login_time), SessionCookie::Present(session), now)
            == logged_in(m, session, login_time),
{
}

/// Without a cookie a request is not logged in; with a cookie whose session
/// identifier differs from the live stored one, it holds an invalid session,
/// whatever the account table says.
pub proof fn lemma_authentication_failures(
    m: Contents<Connected>,
    cookie: Connected,
    now: u64,
    account_exists: bool,
)
    ensures
        authentication(m, SessionCookie::Missing, now, account_exists) == Err::<Connected, AuthError>(
            AuthError::NotLoggedIn,
        ),
        is_live(m, session_key(cookie.account_id), now) && m[session_key(
            cookie.account_id,
        )].value.session_id != cookie.session_id ==> authentication(
            m,
            SessionCookie::Present(cookie),
            now,
            account_exists,
        ) == Err::<Connected, AuthError>(AuthError::InvalidSession),
{
}

/// A second login of the same account, with another session identifier,
/// makes the first login's cookie an invalid session while the second session
/// lives.
pub proof fn lemma_second_login_supersedes(
    m: Contents<Connected>,
    first: Connected,
    second: Connected,
    first_time: u64,
    second_time: u64,
    now: u64,
    account_exists: bool,
)
    requires
        first.account_id == second.account_id,
        first.session_id != second.session_id,
        now <= second_time + SESSION_LIFETIME,
    ensures
        authentication(
            logged_in(logged_in(m, first, first_time), second, second_time),
            SessionCookie::Present(first),
            now,
            account_exists,
        ) == Err::<Connected, AuthError>(AuthError::InvalidSession),
{
}

/// After a logout, the account's cookies are not logged in any more.
pub proof fn lemma_logout_then_authenticate(
    m: Contents<Connected>,
    cookie: Connected,
    now: u64,
    account_exists: bool,
)
    ensures
        authentication(
            m.remove(session_key(cookie.account_id)),
            SessionCookie::Present(cookie),
            now,
            account_exists,
        ) == Err::<Connected, AuthError>(AuthError::NotLoggedIn),
{
}

/// A login replaces whatever an earlier login of the same account stored:
/// only the latest session remains.
pub proof fn lemma_login_replaces(
    m: Contents<Connected>,
    first: Connected,
    second: Connected,
    first_time: u64,
    second_time: u64,
)
    requires
        first.account_id == second.account_id,
    ensures
        logged_in(logged_in(m, first, first_time), second, second_time) == logged_in(
            m,
            second,
            second_time,
        ),
        logged_in(m, second, second_time)[session_key(second.account_id)].value == second,
{
    assert(logged_in(logged_in(m, first, first_time), second, second_time) =~= logged_in(
        m,
        second,
        second_time,
    ));
}

} // verus!
