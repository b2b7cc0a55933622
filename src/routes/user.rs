//! Changing the logged-in user's account. A new email address is only
//! confirmed through a token mailed to it; the other changes are stored at
//! once by the caller.

use crate::cache::{set_post, Cache};
use crate::payload::{DefaultResponse, Email, UserChanges};
use crate::result::{fails_with, succeeds_with, ApiResult};
use crate::token::{issue, token_key, Token, EMAIL_CHANGE};
use crate::validation::{email, email_problem, password, password_problem, username, username_problem, Patterns};
use vstd::prelude::*;

verus! {

/// Time during which the email token can be used: 5 minutes.
pub const EMAIL_TOKEN_LIFETIME: u64 = 300_000;

/// What is wrong with a change of account, if anything: nothing to change,
/// or the first field, in the order username, password, email, that is
/// given and refused.
pub open spec fn changes_problem(c: UserChanges) -> Option<Seq<char>> {
    if c.username is None && c.password is None && c.email is None && c.email_notifications is None {
        Some("empty payload"@)
    } else if c.username is Some && username_problem(c.username->0@) is Some {
        username_problem(c.username->0@)
    } else if c.password is Some && password_problem(c.password->0@) is Some {
        password_problem(c.password->0@)
    } else if c.email is Some && email_problem(c.email->0@) is Some {
        email_problem(c.email->0@)
    } else {
        None
    }
}

/// Checks a change of account.
pub fn check(patterns: &Patterns, changes: &UserChanges) -> (r: Result<(), ApiResult<DefaultResponse>>)
    requires
        patterns.wf(),
    ensures
        match changes_problem(*changes) {
            None => r is Ok,
            Some(message) => r matches Err(answer) && fails_with(answer, 400, message),
        },
{
    if changes.username.is_none() && changes.password.is_none() && changes.email.is_none()
        && changes.email_notifications.is_none() {
        return Err(ApiResult::Failure { status: 400, message: "empty payload".to_owned() });
    }
    if let Some(name) = &changes.username {
        if let Err(message) = username(patterns, name.as_str()) {
            return Err(ApiResult::Failure { status: 400, message });
        }
    }
    if let Some(text) = &changes.password {
        if let Err(message) = password(patterns, text.as_str()) {
            return Err(ApiResult::Failure { status: 400, message });
        }
    }
    if let Some(address) = &changes.email {
        if let Err(message) = email(patterns, address.as_str()) {
            return Err(ApiResult::Failure { status: 400, message });
        }
    }
    Ok(())
}

/// Stores a new address pending confirmation under a fresh token, to be
/// mailed to it.
pub fn request_email_change(new_emails: &mut Cache<Email>, address: &str) -> (r: Token)
    requires
        old(new_emails).wf(),
    ensures
        final(new_emails).wf(),
        final(new_emails).latest() >= old(new_emails).latest(),
        final(new_emails)@[token_key(EMAIL_CHANGE@, r.token)].value.email@ == address@,
        set_post(
            old(new_emails)@,
            final(new_emails)@,
            token_key(EMAIL_CHANGE@, r.token),
            final(new_emails)@[token_key(EMAIL_CHANGE@, r.token)].value,
            EMAIL_TOKEN_LIFETIME,
            final(new_emails).latest(),
        ),
{
    let pending = Email { email: address.to_owned() };
    let token = issue(new_emails, EMAIL_CHANGE, pending, EMAIL_TOKEN_LIFETIME);
    token
}

/// The changes that are stored at once: all but the new address, which is
/// only stored once its mailed token is redeemed.
pub fn stored_changes(changes: &UserChanges) -> (r: UserChanges)
    ensures
        r.username == changes.username,
        r.password == changes.password,
        r.email is None,
        r.email_notifications == changes.email_notifications,
{
    UserChanges {
        username: changes.username.clone(),
        password: changes.password.clone(),
        email: None,
        email_notifications: changes.email_notifications,
    }
}

/// Answers once the other changes were stored, or failed to be.
pub fn respond(updated: bool) -> (r: ApiResult<DefaultResponse>)
    ensures
        updated ==> succeeds_with(r, 200, "User account successfully updated!"@),
        !updated ==> fails_with(r, 409, "Failed to update user account."@),
{
    if updated {
        ApiResult::Success {
            status: 200,
            payload: DefaultResponse { response: "User account successfully updated!".to_owned() },
        }
    } else {
        ApiResult::Failure { status: 409, message: "Failed to update user account.".to_owned() }
    }
}

} // verus!
