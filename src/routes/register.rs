//! Registering a new account: the request is checked, then a registration
//! token is issued for the pending account and mailed to its address.
//!
//! Each step takes the answer of the previous outside action and says what
//! to do next; the caller runs the database queries and sends the mail.

use crate::cache::{set_post, Cache};
use crate::payload::NewUser;
use crate::result::{fails_with, ApiResult};
use crate::routes::{quote, quote_text};
use crate::token::{issue, token_key, Token, REGISTRATION};
use crate::validation::{email, email_problem, password, password_problem, username, username_problem, Patterns};
use vstd::prelude::*;

verus! {

/// Time during which the registration token can be used: 5 minutes.
pub const REGISTRATION_TOKEN_LIFETIME: u64 = 300_000;

/// What registering needs next.
pub enum Step {
    /// Whether an account already has the username.
    CheckUsername,
    /// Whether an account already has the email address.
    CheckEmail,
    /// The token, mailed to the new user.
    SendMail(Token),
    /// Nothing: answer the request.
    Respond(ApiResult<Token>),
}

/// The first of the problems, in order.
pub open spec fn first_problem(
    a: Option<Seq<char>>,
    b: Option<Seq<char>>,
    c: Option<Seq<char>>,
) -> Option<Seq<char>> {
    if a is Some {
        a
    } else if b is Some {
        b
    } else {
        c
    }
}

/// What is wrong with a registration, its fields checked in the order
/// username, password, email.
pub open spec fn registration_problem(user: NewUser) -> Option<Seq<char>> {
    first_problem(
        username_problem(user.username@),
        password_problem(user.password@),
        email_problem(user.email@),
    )
}

/// Checks the registration's fields.
pub fn start(patterns: &Patterns, user: &NewUser) -> (r: Step)
    requires
        patterns.wf(),
    ensures
        match registration_problem(*user) {
            Some(message) => r matches Step::Respond(answer) && fails_with(answer, 400, message),
            None => r is CheckUsername,
        },
{
    if let Err(message) = username(patterns, user.username.as_str()) {
        return Step::Respond(ApiResult::Failure { status: 400, message });
    }
    if let Err(message) = password(patterns, user.password.as_str()) {
        return Step::Respond(ApiResult::Failure { status: 400, message });
    }
    if let Err(message) = email(patterns, user.email.as_str()) {
        return Step::Respond(ApiResult::Failure { status: 400, message });
    }
    Step::CheckUsername
}

/// Goes on once it is known whether the username is taken.
pub fn on_username(user: &NewUser, taken: bool) -> (r: Step)
    ensures
        taken ==> (r matches Step::Respond(answer) && fails_with(
            answer,
            409,
            quote("username "@, user.username@, " is already taken"@),
        )),
        !taken ==> r is CheckEmail,
{
    if taken {
        let message = quote_text("username ", user.username.as_str(), " is already taken");
        return Step::Respond(ApiResult::Failure { status: 409, message });
    }
    Step::CheckEmail
}

/// Goes on once it is known whether the email address is taken: if it is
/// free, the pending registration is stored under a fresh token.
pub fn on_email(new_users: &mut Cache<NewUser>, user: NewUser, taken: bool) -> (r: Step)
    requires
        old(new_users).wf(),
    ensures
        final(new_users).wf(),
        final(new_users).latest() >= old(new_users).latest(),
        taken ==> (r matches Step::Respond(answer) && fails_with(
            answer,
            409,
            quote("email "@, user.email@, " is already taken"@),
        ) && final(new_users)@ == old(new_users)@),
        !taken ==> (r matches Step::SendMail(token) && set_post(
            old(new_users)@,
            final(new_users)@,
            token_key(REGISTRATION@, token.token),
            user,
            REGISTRATION_TOKEN_LIFETIME,
            final(new_users).latest(),
        )),
{
    if taken {
        let message = quote_text("email ", user.email.as_str(), " is already taken");
        return Step::Respond(ApiResult::Failure { status: 409, message });
    }
    let token = issue(new_users, REGISTRATION, user, REGISTRATION_TOKEN_LIFETIME);
    Step::SendMail(token)
}

/// Answers once the mail was sent, or failed to be.
pub fn on_mail(token: Token, sent: bool) -> (r: ApiResult<Token>)
    ensures
        sent ==> r == (ApiResult::Success { status: 201, payload: token }),
        !sent ==> fails_with(r, 500, "Failed to send registration email"@),
{
    if sent {
        ApiResult::Success { status: 201, payload: token }
    } else {
        ApiResult::Failure { status: 500, message: "Failed to send registration email".to_owned() }
    }
}

} // verus!
