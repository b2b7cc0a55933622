//! Logging out.

use crate::cache::Cache;
use crate::payload::DefaultResponse;
use crate::result::ApiResult;
use crate::session::{logout, session_key, Connected, IsConnected};
use vstd::prelude::*;

verus! {

/// Log out of the application: the session of a logged-in request is removed
/// from the store. It always succeeds; removing the cookie is left to the
/// caller.
pub fn post(sessions: &mut Cache<Connected>, is_connected: &IsConnected) -> (r: ApiResult<
    DefaultResponse,
>)
    requires
        old(sessions).wf(),
    ensures
        final(sessions).wf(),
        final(sessions).latest() >= old(sessions).latest(),
        final(sessions)@ == match is_connected.0 {
            Some(s) => old(sessions)@.remove(session_key(s.account_id)),
            None => old(sessions)@,
        },
        r matches ApiResult::Success { status, payload } && status == 200 && payload.response@
            == "logged out"@,
{
    if let Some(sess) = is_connected.0 {
        logout(sessions, sess.account_id);
    }
    ApiResult::Success {
        status: 200,
        payload: DefaultResponse { response: "logged out".to_owned() },
    }
}

} // verus!
