//! Single-use tokens.
//!
//! A token hands a payload from one request to a later one. It is kept in an
//! expiring store under the key `"<purpose>:<token>"`, and redeeming it
//! removes it: since each store operation is atomic, at most one redemption of
//! a token ever succeeds. A token that was never issued, was already redeemed
//! or has expired is refused in the same way.

use crate::cache::{is_live, live_value, set_post, Cache, Contents};
use crate::ids::{hyphenated, hyphenated_text, random_id};
use vstd::prelude::*;
use vstd::string::StringExecFns;

verus! {

/// Purpose of the tokens that confirm a registration.
pub const REGISTRATION: &'static str = "registration_token";

/// Purpose of the tokens that allow a password reset.
pub const PASSWORD_RESET: &'static str = "reset_token";

/// Purpose of the tokens that confirm a new email address.
pub const EMAIL_CHANGE: &'static str = "email_token";

/// One-time token for user registration, password and email reset.
#[derive(Clone, Copy, PartialEq, Eq, Structural, Debug)]
pub struct Token {
    pub token: u128,
}

/// The token is unknown, was already used, or has expired.
#[derive(Clone, Copy, PartialEq, Eq, Structural, Debug)]
pub struct InvalidToken;

/// The store key of `token` for `purpose`.
pub open spec fn token_key(purpose: Seq<char>, token: u128) -> Seq<char> {
    purpose + seq![':'] + hyphenated(token)
}

/// What redeeming the token under `key` gives at time `now`.
pub open spec fn redeem_outcome<P>(m: Contents<P>, key: Seq<char>, now: u64) -> Result<P, InvalidToken> {
    match live_value(m, key, now) {
        Some(p) => Ok(p),
        None => Err(InvalidToken),
    }
}

impl Token {
    /// A fresh random token.
    pub fn new() -> Token {
        Token { token: random_id() }
    }

    /// The token as text, the way it is shown to users.
    pub fn to_string(&self) -> (r: String)
        ensures
            r@ == hyphenated(self.token),
    {
        hyphenated_text(self.token)
    }

    /// The key under which the token is stored for `purpose`.
    pub fn key(&self, purpose: &str) -> (r: String)
        ensures
            r@ == token_key(purpose@, self.token),
    {
        let mut key = purpose.to_owned();
        key.append(":");
        proof {
            reveal_strlit(":");
        }
        let text = self.to_string();
        key.append(text.as_str());
        assert(key@ =~= token_key(purpose@, self.token));
        key
    }
}

/// Stores `payload` under a fresh token for `purpose`, valid for `lifetime`
/// milliseconds, and returns the token.
pub fn issue<P: Clone>(store: &mut Cache<P>, purpose: &str, payload: P, lifetime: u64) -> (r: Token)
    requires
        old(store).wf(),
    ensures
        final(store).wf(),
        final(store).latest() >= old(store).latest(),
        set_post(
            old(store)@,
            final(store)@,
            token_key(purpose@, r.token),
            payload,
            lifetime,
            final(store).latest(),
        ),
{
    let token = Token::new();
    let key = token.key(purpose);
    let _ = store.set(key.as_str(), payload, lifetime);
    token
}

/// Redeems `token` for `purpose` at time `now`: removes it, and returns its
/// payload if it was live.
pub fn redeem_at<P: Clone>(store: &mut Cache<P>, purpose: &str, token: &Token, now: u64) -> (r:
    Result<P, InvalidToken>)
    requires
        old(store).wf(),
    ensures
        final(store).wf(),
        final(store).latest() == old(store).latest(),
        final(store)@ == old(store)@.remove(token_key(purpose@, token.token)),
        r == redeem_outcome(old(store)@, token_key(purpose@, token.token), now),
{
    let key = token.key(purpose);
    match store.del_at(key.as_str(), now) {
        Some(payload) => Ok(payload),
        None => Err(InvalidToken),
    }
}

/// Redeems `token` for `purpose`: removes it, and returns its payload if it
/// had not expired.
pub fn redeem<P: Clone>(store: &mut Cache<P>, purpose: &str, token: &Token) -> (r: Result<
    P,
    InvalidToken,
>)
    requires
        old(store).wf(),
    ensures
        final(store).wf(),
        final(store).latest() >= old(store).latest(),
        final(store)@ == old(store)@.remove(token_key(purpose@, token.token)),
        r == redeem_outcome(old(store)@, token_key(purpose@, token.token), final(store).latest()),
{
    let key = token.key(purpose);
    match store.del(key.as_str()) {
        Some(payload) => Ok(payload),
        None => Err(InvalidToken),
    }
}

/// Outcomes of redeeming the token under `key` again and again, at the given
/// times, starting from contents `m`: the order in which the store's lock
/// admits concurrent callers.
pub open spec fn redemptions<P>(m: Contents<P>, key: Seq<char>, times: Seq<u64>) -> Seq<
    Result<P, InvalidToken>,
>
    decreases times.len(),
{
    if times.len() == 0 {
        Seq::empty()
    } else {
        seq![redeem_outcome(m, key, times[0])] + redemptions(m.remove(key), key, times.drop_first())
    }
}

/// Of any number of redemptions of a token that is live when the first of
/// them runs, exactly that first one gets the payload and every later one is
/// refused.
pub proof fn lemma_redeem_exactly_once<P>(m: Contents<P>, key: Seq<char>, times: Seq<u64>)
    requires
        times.len() >= 1,
        is_live(m, key, times[0]),
    ensures
        redemptions(m, key, times).len() == times.len(),
        redemptions(m, key, times)[0] == Ok::<P, InvalidToken>(m[key].value),
        forall|i: int|
            1 <= i < times.len() ==> #[trigger] redemptions(m, key, times)[i] == Err::<P, InvalidToken>(
                InvalidToken,
            ),
{
    lemma_redeem_after_removal(m.remove(key), key, times.drop_first());
    assert forall|i: int| 1 <= i < times.len() implies #[trigger] redemptions(m, key, times)[i]
        == Err::<P, InvalidToken>(InvalidToken) by {
        assert(redemptions(m, key, times)[i] == redemptions(m.remove(key), key, times.drop_first())[i
            - 1]);
    }
}

/// A call of `redeem` or `redeem_at` is one step of `redemptions`: its result,
/// followed by the redemptions from the contents it leaves, are the
/// redemptions from the contents it started from.
pub proof fn lemma_redeem_call_is_step<P>(
    before: Contents<P>,
    after: Contents<P>,
    key: Seq<char>,
    now: u64,
    r: Result<P, InvalidToken>,
    later: Seq<u64>,
)
    requires
        after == before.remove(key),
        r == redeem_outcome(before, key, now),
    ensures
        redemptions(before, key, seq![now] + later) == seq![r] + redemptions(after, key, later),
{
    assert((seq![now] + later).drop_first() =~= later);
}

/// Once the key is gone, every redemption is refused.
proof fn lemma_redeem_after_removal<P>(m: Contents<P>, key: Seq<char>, times: Seq<u64>)
    requires
        !m.contains_key(key),
    ensures
        redemptions(m, key, times).len() == times.len(),
        forall|i: int|
            0 <= i < times.len() ==> #[trigger] redemptions(m, key, times)[i] == Err::<P, InvalidToken>(
                InvalidToken,
            ),
    decreases times.len(),
{
    if times.len() > 0 {
        lemma_redeem_after_removal(m.remove(key), key, times.drop_first());
        assert(m.remove(key) =~= m);
        assert forall|i: int| 0 <= i < times.len() implies #[trigger] redemptions(m, key, times)[i]
            == Err::<P, InvalidToken>(InvalidToken) by {
            if i > 0 {
                assert(redemptions(m, key, times)[i] == redemptions(m.remove(key), key, times.drop_first())[i
                    - 1]);
            }
        }
    }
}

} // verus!
