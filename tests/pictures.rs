use camagru_api::payload::{Comment, DbComment, DbPicture, DefaultResponse, Superposable};
use camagru_api::result::ApiResult;
use camagru_api::routes::picture::{
    check_size, comments, on_commented, on_deleted, on_file_removed, on_like_set, on_like_unset,
    pictures_page, superposable_row,
};

fn text(r: ApiResult<DefaultResponse>) -> (u16, String) {
    match r {
        ApiResult::Success { status, payload } => (status, payload.response),
        ApiResult::Failure { status, message } => (status, message),
    }
}

fn row(id: u128) -> DbPicture {
    DbPicture {
        picture_id: id,
        account_id: 9,
        superposable: Superposable::Sad,
        creation_ts: 10,
        author: "someone".to_string(),
        like_count: 1,
        dislike_count: 0,
        comment_count: 2,
        liked: None,
        disliked: None,
    }
}

#[test]
fn picture_size() {
    assert_eq!(check_size(200, 200, 200), Ok(()));
    assert_eq!(check_size(199, 400, 200), Err("user picture too small".to_string()));
    assert_eq!(check_size(400, 199, 200), Err("user picture too small".to_string()));
    assert_eq!(superposable_row(480, 200), 280);
}

#[test]
fn picture_pages() {
    assert!(pictures_page(&vec![]).is_none());
    let page = pictures_page(&vec![row(1), row(2)]).unwrap();
    assert_eq!(page.len(), 2);
    assert_eq!((page[0].picture_id, page[1].picture_id), (1, 2));
    assert_eq!(page[1].author, "someone");
}

#[test]
fn comment_rows() {
    let rows = vec![DbComment {
        picture_id: 1,
        account_id: 2,
        creation_ts: 3,
        content: "nice".to_string(),
        author: "someone".to_string(),
    }];
    let out = comments(&rows);
    assert_eq!(out.len(), 1);
    assert_eq!((out[0].picture_id, out[0].account_id, out[0].creation_ts), (1, 2, 3));
    assert_eq!((out[0].content.as_str(), out[0].author.as_str()), ("nice", "someone"));
    assert!(comments(&vec![]).is_empty());
}

#[test]
fn picture_deletion_answers() {
    match on_deleted(1, Err(())) {
        Err(answer) => assert_eq!(
            text(answer),
            (500, "failed to delete '00000000-0000-0000-0000-000000000001' picture".to_string())
        ),
        Ok(()) => panic!("expected an answer"),
    }
    match on_deleted(1, Ok(0)) {
        Err(answer) => assert_eq!(
            text(answer),
            (
                400,
                "could not find '00000000-0000-0000-0000-000000000001' picture for current user"
                    .to_string()
            )
        ),
        Ok(()) => panic!("expected an answer"),
    }
    assert!(on_deleted(1, Ok(1)).is_ok());
    assert_eq!(
        text(on_file_removed(1, true)),
        (200, "picture '00000000-0000-0000-0000-000000000001' successfully deleted".to_string())
    );
    assert_eq!(
        text(on_file_removed(1, false)),
        (500, "could not remove '00000000-0000-0000-0000-000000000001' picture file".to_string())
    );
}

#[test]
fn like_answers() {
    assert_eq!(
        text(on_like_set(1, true, true)),
        (201, "like on picture '00000000-0000-0000-0000-000000000001' successfully set".to_string())
    );
    assert_eq!(
        text(on_like_set(1, false, true)),
        (
            201,
            "dislike on picture '00000000-0000-0000-0000-000000000001' successfully set".to_string()
        )
    );
    assert_eq!(text(on_like_set(1, true, false)), (400, "invalid picture id".to_string()));
    assert_eq!(
        text(on_like_unset(1, true)),
        (200, "like on picture '00000000-0000-0000-0000-000000000001' successfully unset".to_string())
    );
    assert_eq!(text(on_like_unset(1, false)), (400, "invalid picture id".to_string()));
}

#[test]
fn comment_answers() {
    let comment = Comment {
        picture_id: 1,
        account_id: 2,
        creation_ts: 3,
        content: "nice".to_string(),
        author: "someone".to_string(),
    };
    match on_commented(Some(comment)) {
        ApiResult::Success { status, payload } => {
            assert_eq!(status, 201);
            assert_eq!(payload.content, "nice");
        }
        ApiResult::Failure { .. } => panic!("expected a success"),
    }
    match on_commented(None) {
        ApiResult::Failure { status, message } => {
            assert_eq!((status, message.as_str()), (400, "invalid picture id"))
        }
        ApiResult::Success { .. } => panic!("expected a failure"),
    }
}
