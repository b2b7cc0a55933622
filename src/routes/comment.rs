//! Echo of a comment request.

use crate::ids::{hyphenated, hyphenated_text};
use crate::payload::PictureComment;
use crate::session::Connected;
use vstd::prelude::*;
use vstd::string::StringExecFns;

verus! {

/// Describes the comment that `sess` puts on a picture.
pub fn put(picture_comment: &PictureComment, sess: &Connected) -> (r: String)
    ensures
        r@ == "PUT comment '"@ + picture_comment.comment@ + "' on picture "@ + hyphenated(
            picture_comment.picture_id,
        ) + " as "@ + hyphenated(sess.account_id) + "\n"@,
{
    let mut text = "PUT comment '".to_owned();
    text.append(picture_comment.comment.as_str());
    text.append("' on picture ");
    let picture = hyphenated_text(picture_comment.picture_id);
    text.append(picture.as_str());
    text.append(" as ");
    let account = hyphenated_text(sess.account_id);
    text.append(account.as_str());
    text.append("\n");
    text
}

} // verus!
