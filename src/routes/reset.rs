//! Resetting a forgotten password: a reset token is mailed for the account
//! of an address, and later redeemed with the new password.

use crate::cache::{set_post, Cache};
use crate::ids::{hyphenated, hyphenated_text};
use crate::payload::{Account, DefaultResponse, PasswordReset, Request};
use crate::result::{fails_with, succeeds_with, ApiResult};
use crate::routes::{quote, quote_text};
use crate::token::{issue, redeem, redeem_outcome, token_key, Token, PASSWORD_RESET};
use crate::validation::{password, password_problem, Patterns};
use vstd::prelude::*;

verus! {

/// Time during which the reset can be used: 5 minutes.
pub const RESET_TOKEN_LIFETIME: u64 = 300_000;

/// The answer to every reset request, whether the address is known or not.
pub const RESET_REQUESTED: &'static str = "Your request has been processed. Check your email for further instructions.";

/// Handles a reset request for the account found under the given address, if
/// any: its reset token, to be mailed. The answer is `requested()` either way,
/// so that it tells nothing of which addresses are known.
pub fn request(reset_requests: &mut Cache<Request>, account: Option<&Account>) -> (r: Option<Token>)
    requires
        old(reset_requests).wf(),
    ensures
        final(reset_requests).wf(),
        final(reset_requests).latest() >= old(reset_requests).latest(),
        match account {
            None => r is None && final(reset_requests)@ == old(reset_requests)@,
            Some(a) => r matches Some(token) && set_post(
                old(reset_requests)@,
                final(reset_requests)@,
                token_key(PASSWORD_RESET@, token.token),
                Request { account_id: a.account_id },
                RESET_TOKEN_LIFETIME,
                final(reset_requests).latest(),
            ),
        },
{
    match account {
        None => None,
        Some(a) => {
            let pending = Request { account_id: a.account_id };
            Some(issue(reset_requests, PASSWORD_RESET, pending, RESET_TOKEN_LIFETIME))
        },
    }
}

/// The answer to a reset request.
pub fn requested() -> (r: ApiResult<DefaultResponse>)
    ensures
        succeeds_with(r, 200, RESET_REQUESTED@),
{
    ApiResult::Success { status: 200, payload: DefaultResponse { response: RESET_REQUESTED.to_owned() } }
}

/// Checks the new password, then redeems the reset token: the account whose
/// password is to be reset, or the answer. A refused password leaves the
/// token unused.
pub fn redeem_reset(
    patterns: &Patterns,
    reset_requests: &mut Cache<Request>,
    reset: &PasswordReset,
) -> (r: Result<Request, ApiResult<DefaultResponse>>)
    requires
        patterns.wf(),
        old(reset_requests).wf(),
    ensures
        final(reset_requests).wf(),
        final(reset_requests).latest() >= old(reset_requests).latest(),
        match password_problem(reset.password@) {
            Some(message) => final(reset_requests)@ == old(reset_requests)@ && (r matches Err(answer)
                && fails_with(answer, 400, message)),
            None => final(reset_requests)@ == old(reset_requests)@.remove(
                token_key(PASSWORD_RESET@, reset.reset_token),
            ) && match redeem_outcome(
                old(reset_requests)@,
                token_key(PASSWORD_RESET@, reset.reset_token),
                final(reset_requests).latest(),
            ) {
                Ok(request) => r == Ok::<Request, ApiResult<DefaultResponse>>(request),
                Err(_) => r matches Err(answer) && fails_with(
                    answer,
                    400,
                    quote("invalid reset token "@, hyphenated(reset.reset_token), ""@),
                ),
            },
        },
{
    if let Err(message) = password(patterns, reset.password.as_str()) {
        return Err(ApiResult::Failure { status: 400, message });
    }
    let token = Token { token: reset.reset_token };
    match redeem(reset_requests, PASSWORD_RESET, &token) {
        Ok(request) => Ok(request),
        Err(_) => {
            let text = hyphenated_text(reset.reset_token);
            let message = quote_text("invalid reset token ", text.as_str(), "");
            Err(ApiResult::Failure { status: 400, message })
        },
    }
}

/// Answers once the password was updated, or failed to be.
pub fn respond(updated: bool) -> (r: ApiResult<DefaultResponse>)
    ensures
        updated ==> succeeds_with(r, 200, "Password successfully reset!"@),
        !updated ==> fails_with(r, 500, "Failed to reset password."@),
{
    if updated {
        ApiResult::Success {
            status: 200,
            payload: DefaultResponse { response: "Password successfully reset!".to_owned() },
        }
    } else {
        ApiResult::Failure { status: 500, message: "Failed to reset password.".to_owned() }
    }
}

} // verus!
