//! Pictures: their checks and the answers of their routes. Decoding,
//! watermarking and storing the image, and the queries, are the caller's.

use crate::ids::{hyphenated, hyphenated_text};
use crate::payload::{Comment, DbComment, DbPicture, DefaultResponse, Picture, picture_of};
use crate::result::{fails_with, succeeds_with, ApiResult};
use crate::routes::{quote, quote_text};
use vstd::prelude::*;
use vstd::string::StringExecFns;

verus! {

/// Checks that an uploaded picture can hold a superposable of `side` pixels.
pub fn check_size(width: u32, height: u32, side: u32) -> (r: Result<(), String>)
    ensures
        width >= side && height >= side ==> r is Ok,
        !(width >= side && height >= side) ==> (r matches Err(m) && m@ == "user picture too small"@),
{
    if width < side || height < side {
        return Err("user picture too small".to_owned());
    }
    Ok(())
}

/// Row of the picture at which the superposable goes: flush with its bottom.
pub fn superposable_row(height: u32, side: u32) -> (r: u32)
    requires
        height >= side,
    ensures
        r == height - side,
{
    height - side
}

/// The pictures of a page, from their rows; `None` for an empty page.
pub fn pictures_page(rows: &Vec<DbPicture>) -> (r: Option<Vec<Picture>>)
    ensures
        rows@.len() == 0 ==> r is None,
        rows@.len() > 0 ==> (r matches Some(v) && v@.len() == rows@.len() && forall|i: int|
            0 <= i < rows@.len() ==> #[trigger] v@[i] == picture_of(&rows@[i])),
{
    if rows.len() == 0 {
        return None;
    }
    let mut pictures: Vec<Picture> = Vec::new();
    let mut i: usize = 0;
    while i < rows.len()
        invariant
            i <= rows@.len(),
            pictures@.len() == i,
            forall|j: int| 0 <= j < i ==> #[trigger] pictures@[j] == picture_of(&rows@[j]),
        decreases rows@.len() - i,
    {
        pictures.push(Picture::from(&rows[i]));
        i = i + 1;
    }
    Some(pictures)
}

/// The comment that a row describes.
pub open spec fn comment_of(row: &DbComment) -> Comment {
    Comment {
        picture_id: row.picture_id,
        account_id: row.account_id,
        creation_ts: row.creation_ts,
        content: row.content,
        author: row.author,
    }
}

/// The comments of a picture, from their rows.
pub fn comments(rows: &Vec<DbComment>) -> (r: Vec<Comment>)
    ensures
        r@.len() == rows@.len(),
        forall|i: int| 0 <= i < rows@.len() ==> #[trigger] r@[i] == comment_of(&rows@[i]),
{
    let mut comments: Vec<Comment> = Vec::new();
    let mut i: usize = 0;
    while i < rows.len()
        invariant
            i <= rows@.len(),
            comments@.len() == i,
            forall|j: int| 0 <= j < i ==> #[trigger] comments@[j] == comment_of(&rows@[j]),
        decreases rows@.len() - i,
    {
        let row = &rows[i];
        comments.push(
            Comment {
                picture_id: row.picture_id,
                account_id: row.account_id,
                creation_ts: row.creation_ts,
                content: row.content.clone(),
                author: row.author.clone(),
            },
        );
        i = i + 1;
    }
    comments
}

/// Goes on once the picture's row was deleted (with the number of rows
/// deleted) or failed to be: `Ok` when its file is to be removed next.
pub fn on_deleted(picture_id: u128, deleted: Result<u64, ()>) -> (r: Result<(), ApiResult<DefaultResponse>>)
    ensures
        deleted is Err ==> (r matches Err(answer) && fails_with(
            answer,
            500,
            quote("failed to delete "@, hyphenated(picture_id), " picture"@),
        )),
        deleted == Ok::<u64, ()>(0) ==> (r matches Err(answer) && fails_with(
            answer,
            400,
            quote("could not find "@, hyphenated(picture_id), " picture for current user"@),
        )),
        (deleted matches Ok(n) && n > 0) ==> r is Ok,
{
    match deleted {
        Err(_) => {
            let id = hyphenated_text(picture_id);
            let message = quote_text("failed to delete ", id.as_str(), " picture");
            Err(ApiResult::Failure { status: 500, message })
        },
        Ok(0) => {
            let id = hyphenated_text(picture_id);
            let message = quote_text("could not find ", id.as_str(), " picture for current user");
            Err(ApiResult::Failure { status: 400, message })
        },
        Ok(_) => Ok(()),
    }
}

/// Answers once the picture's file was removed, or failed to be.
pub fn on_file_removed(picture_id: u128, removed: bool) -> (r: ApiResult<DefaultResponse>)
    ensures
        removed ==> succeeds_with(
            r,
            200,
            quote("picture "@, hyphenated(picture_id), " successfully deleted"@),
        ),
        !removed ==> fails_with(
            r,
            500,
            quote("could not remove "@, hyphenated(picture_id), " picture file"@),
        ),
{
    let id = hyphenated_text(picture_id);
    if removed {
        let response = quote_text("picture ", id.as_str(), " successfully deleted");
        ApiResult::Success { status: 200, payload: DefaultResponse { response } }
    } else {
        let message = quote_text("could not remove ", id.as_str(), " picture file");
        ApiResult::Failure { status: 500, message }
    }
}

/// Answers once a like (or, with `like` false, a dislike) was stored, or
/// refused.
pub fn on_like_set(picture_id: u128, like: bool, stored: bool) -> (r: ApiResult<DefaultResponse>)
    ensures
        stored ==> succeeds_with(
            r,
            201,
            (if like {
                "like"@
            } else {
                "dislike"@
            }) + quote(" on picture "@, hyphenated(picture_id), " successfully set"@),
        ),
        !stored ==> fails_with(r, 400, "invalid picture id"@),
{
    if !stored {
        return ApiResult::Failure { status: 400, message: "invalid picture id".to_owned() };
    }
    let id = hyphenated_text(picture_id);
    let action = if like {
        "like"
    } else {
        "dislike"
    };
    let mut response = action.to_owned();
    let rest = quote_text(" on picture ", id.as_str(), " successfully set");
    response.append(rest.as_str());
    ApiResult::Success { status: 201, payload: DefaultResponse { response } }
}

/// Answers once a like was removed, or refused.
pub fn on_like_unset(picture_id: u128, removed: bool) -> (r: ApiResult<DefaultResponse>)
    ensures
        removed ==> succeeds_with(
            r,
            200,
            quote("like on picture "@, hyphenated(picture_id), " successfully unset"@),
        ),
        !removed ==> fails_with(r, 400, "invalid picture id"@),
{
    if !removed {
        return ApiResult::Failure { status: 400, message: "invalid picture id".to_owned() };
    }
    let id = hyphenated_text(picture_id);
    let response = quote_text("like on picture ", id.as_str(), " successfully unset");
    ApiResult::Success { status: 200, payload: DefaultResponse { response } }
}

/// Answers once a comment was stored (the stored comment) or refused.
pub fn on_commented(stored: Option<Comment>) -> (r: ApiResult<Comment>)
    ensures
        match stored {
            Some(c) => r == (ApiResult::Success { status: 201, payload: c }),
            None => fails_with(r, 400, "invalid picture id"@),
        },
{
    match stored {
        Some(comment) => ApiResult::Success { status: 201, payload: comment },
        None => ApiResult::Failure { status: 400, message: "invalid picture id".to_owned() },
    }
}

} // verus!
