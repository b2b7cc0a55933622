//! Confirming a registration: its token is redeemed, the caller creates the
//! account and logs it in.

use crate::cache::Cache;
use crate::ids::{hyphenated, hyphenated_text};
use crate::payload::{DefaultResponse, NewUser};
use crate::result::{fails_with, succeeds_with, ApiResult};
use crate::routes::{quote, quote_text};
use crate::token::{redeem, redeem_outcome, token_key, Token, REGISTRATION};
use vstd::prelude::*;

verus! {

/// Redeems the registration token: the pending registration, or the answer
/// to an invalid token.
pub fn redeem_registration(new_users: &mut Cache<NewUser>, token: &Token) -> (r: Result<
    NewUser,
    ApiResult<DefaultResponse>,
>)
    requires
        old(new_users).wf(),
    ensures
        final(new_users).wf(),
        final(new_users).latest() >= old(new_users).latest(),
        final(new_users)@ == old(new_users)@.remove(token_key(REGISTRATION@, token.token)),
        match redeem_outcome(
            old(new_users)@,
            token_key(REGISTRATION@, token.token),
            final(new_users).latest(),
        ) {
            Ok(user) => r == Ok::<NewUser, ApiResult<DefaultResponse>>(user),
            Err(_) => r matches Err(answer) && fails_with(
                answer,
                400,
                quote("invalid registration token "@, hyphenated(token.token), ""@),
            ),
        },
{
    match redeem(new_users, REGISTRATION, token) {
        Ok(user) => Ok(user),
        Err(_) => {
            let text = hyphenated_text(token.token);
            let message = quote_text("invalid registration token ", text.as_str(), "");
            Err(ApiResult::Failure { status: 400, message })
        },
    }
}

/// Answers once the account was created and logged in (`Ok(true)`), created
/// but not logged in (`Ok(false)`), or refused with a status (`Err`).
pub fn respond(username: &str, outcome: Result<bool, u16>) -> (r: ApiResult<DefaultResponse>)
    ensures
        outcome == Ok::<bool, u16>(true) ==> succeeds_with(
            r,
            201,
            quote("Great success! New user account "@, username@, " has been created!"@),
        ),
        outcome == Ok::<bool, u16>(false) ==> succeeds_with(
            r,
            201,
            "account created, but could not log in"@,
        ),
        (outcome matches Err(status) ==> fails_with(r, status, "could not create new user account"@)),
{
    match outcome {
        Ok(true) => {
            let response = quote_text(
                "Great success! New user account ",
                username,
                " has been created!",
            );
            ApiResult::Success { status: 201, payload: DefaultResponse { response } }
        },
        Ok(false) => ApiResult::Success {
            status: 201,
            payload: DefaultResponse { response: "account created, but could not log in".to_owned() },
        },
        Err(status) => ApiResult::Failure {
            status,
            message: "could not create new user account".to_owned(),
        },
    }
}

} // verus!
