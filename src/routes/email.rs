//! Confirming a new email address: its token is redeemed, the caller stores
//! the address.

use crate::cache::Cache;
use crate::ids::{hyphenated, hyphenated_text};
use crate::payload::{DefaultResponse, Email};
use crate::result::{fails_with, succeeds_with, ApiResult};
use crate::routes::{quote, quote_text};
use crate::token::{redeem, redeem_outcome, token_key, Token, EMAIL_CHANGE};
use vstd::prelude::*;

verus! {

/// Redeems the email token: the new address, or the answer to an invalid
/// token.
pub fn redeem_email(new_emails: &mut Cache<Email>, token: &Token) -> (r: Result<
    Email,
    ApiResult<DefaultResponse>,
>)
    requires
        old(new_emails).wf(),
    ensures
        final(new_emails).wf(),
        final(new_emails).latest() >= old(new_emails).latest(),
        final(new_emails)@ == old(new_emails)@.remove(token_key(EMAIL_CHANGE@, token.token)),
        match redeem_outcome(
            old(new_emails)@,
            token_key(EMAIL_CHANGE@, token.token),
            final(new_emails).latest(),
        ) {
            Ok(email) => r == Ok::<Email, ApiResult<DefaultResponse>>(email),
            Err(_) => r matches Err(answer) && fails_with(
                answer,
                400,
                quote("invalid email token "@, hyphenated(token.token), ""@),
            ),
        },
{
    match redeem(new_emails, EMAIL_CHANGE, token) {
        Ok(email) => Ok(email),
        Err(_) => {
            let text = hyphenated_text(token.token);
            let message = quote_text("invalid email token ", text.as_str(), "");
            Err(ApiResult::Failure { status: 400, message })
        },
    }
}

/// Answers once the account's address was updated, or failed to be.
pub fn respond(updated: bool) -> (r: ApiResult<DefaultResponse>)
    ensures
        updated ==> succeeds_with(r, 200, "Email updated successfully."@),
        !updated ==> fails_with(r, 500, "Failed to update email."@),
{
    if updated {
        ApiResult::Success {
            status: 200,
            payload: DefaultResponse { response: "Email updated successfully.".to_owned() },
        }
    } else {
        ApiResult::Failure { status: 500, message: "Failed to update email.".to_owned() }
    }
}

} // verus!
