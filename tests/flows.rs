use camagru_api::cache::Cache;
use camagru_api::payload::{
    normalize, pictures_filter, Account, DbPicture, Email, NewUser, PasswordReset, Picture,
    Request, Superposable, UserChanges,
};
use camagru_api::result::ApiResult;
use camagru_api::routes::{confirm, email, link, register, reset, superposables, user, Cors};
use camagru_api::token::{redeem, Token, EMAIL_CHANGE, PASSWORD_RESET, REGISTRATION};
use camagru_api::validation::Patterns;

fn user_data(name: &str, pw: &str, mail: &str) -> NewUser {
    NewUser { username: name.to_string(), password: pw.to_string(), email: mail.to_string() }
}

fn failure<T>(r: ApiResult<T>) -> (u16, String) {
    match r {
        ApiResult::Failure { status, message } => (status, message),
        ApiResult::Success { .. } => panic!("expected a failure"),
    }
}

fn success_text(r: ApiResult<camagru_api::payload::DefaultResponse>) -> (u16, String) {
    match r {
        ApiResult::Success { status, payload } => (status, payload.response),
        ApiResult::Failure { .. } => panic!("expected a success"),
    }
}

#[test]
fn registration_checks_fields_in_order() {
    let p = Patterns::new().unwrap();
    match register::start(&p, &user_data("abc", "weak", "nope")) {
        register::Step::Respond(answer) => assert_eq!(
            failure(answer),
            (400, "username must be a word of 6 to 64 characters long".to_string())
        ),
        _ => panic!("expected an answer"),
    }
    match register::start(&p, &user_data("someone", "weak", "nope")) {
        register::Step::Respond(answer) => assert_eq!(
            failure(answer),
            (400, "password must contain at least one upper case letter".to_string())
        ),
        _ => panic!("expected an answer"),
    }
    match register::start(&p, &user_data("someone", "Secret-42", "nope")) {
        register::Step::Respond(answer) => {
            assert_eq!(failure(answer), (400, "invalid email format".to_string()))
        }
        _ => panic!("expected an answer"),
    }
    assert!(matches!(
        register::start(&p, &user_data("someone", "Secret-42", "a@b.c")),
        register::Step::CheckUsername
    ));
}

#[test]
fn registration_conflicts_and_token() {
    let u = user_data("someone", "Secret-42", "a@b.c");
    match register::on_username(&u, true) {
        register::Step::Respond(answer) => assert_eq!(
            failure(answer),
            (409, "username 'someone' is already taken".to_string())
        ),
        _ => panic!("expected an answer"),
    }
    assert!(matches!(register::on_username(&u, false), register::Step::CheckEmail));
    let mut new_users: Cache<NewUser> = Cache::new();
    match register::on_email(&mut new_users, u.clone(), true) {
        register::Step::Respond(answer) => {
            assert_eq!(failure(answer), (409, "email 'a@b.c' is already taken".to_string()))
        }
        _ => panic!("expected an answer"),
    }
    let token = match register::on_email(&mut new_users, u, false) {
        register::Step::SendMail(token) => token,
        _ => panic!("expected a token"),
    };
    assert!(new_users.contains(&token.key(REGISTRATION)));
    match register::on_mail(token, true) {
        ApiResult::Success { status, payload } => {
            assert_eq!(status, 201);
            assert_eq!(payload, token);
        }
        ApiResult::Failure { .. } => panic!("expected a success"),
    }
    assert_eq!(
        failure(register::on_mail(token, false)),
        (500, "Failed to send registration email".to_string())
    );
    let pending = confirm::redeem_registration(&mut new_users, &token).ok().unwrap();
    assert_eq!(pending.username, "someone");
}

#[test]
fn confirmation_refuses_unknown_tokens() {
    let mut new_users: Cache<NewUser> = Cache::new();
    let token = Token { token: 1 };
    match confirm::redeem_registration(&mut new_users, &token) {
        Err(answer) => assert_eq!(
            failure(answer),
            (400, "invalid registration token '00000000-0000-0000-0000-000000000001'".to_string())
        ),
        Ok(_) => panic!("expected a refusal"),
    }
}

#[test]
fn confirmation_answers() {
    assert_eq!(
        success_text(confirm::respond("someone", Ok(true))),
        (201, "Great success! New user account 'someone' has been created!".to_string())
    );
    assert_eq!(
        success_text(confirm::respond("someone", Ok(false))),
        (201, "account created, but could not log in".to_string())
    );
    assert_eq!(
        failure(confirm::respond("someone", Err(409))),
        (409, "could not create new user account".to_string())
    );
}

#[test]
fn password_reset_flow() {
    let p = Patterns::new().unwrap();
    let mut requests: Cache<Request> = Cache::new();
    assert!(reset::request(&mut requests, None).is_none());
    let account = Account {
        account_id: 11,
        email: "a@b.c".to_string(),
        username: "someone".to_string(),
        password_hash: String::new(),
        email_notifications: false,
    };
    let token = reset::request(&mut requests, Some(&account)).unwrap();
    assert_eq!(
        success_text(reset::requested()),
        (
            200,
            "Your request has been processed. Check your email for further instructions."
                .to_string()
        )
    );
    let weak = PasswordReset { reset_token: token.token, password: "weak".to_string() };
    match reset::redeem_reset(&p, &mut requests, &weak) {
        Err(answer) => assert_eq!(failure(answer).0, 400),
        Ok(_) => panic!("expected a refusal"),
    }
    let good = PasswordReset { reset_token: token.token, password: "Secret-42".to_string() };
    assert_eq!(reset::redeem_reset(&p, &mut requests, &good).ok(), Some(Request { account_id: 11 }));
    match reset::redeem_reset(&p, &mut requests, &good) {
        Err(answer) => assert_eq!(
            failure(answer).1,
            format!("invalid reset token '{}'", token.to_string())
        ),
        Ok(_) => panic!("a reset token is single-use"),
    }
    assert_eq!(success_text(reset::respond(true)), (200, "Password successfully reset!".to_string()));
    assert_eq!(failure(reset::respond(false)), (500, "Failed to reset password.".to_string()));
}

#[test]
fn email_change_flow() {
    let p = Patterns::new().unwrap();
    let empty = UserChanges { username: None, password: None, email: None, email_notifications: None };
    match user::check(&p, &empty) {
        Err(answer) => assert_eq!(failure(answer), (400, "empty payload".to_string())),
        Ok(_) => panic!("expected a refusal"),
    }
    let bad = UserChanges {
        username: None,
        password: None,
        email: Some("nope".to_string()),
        email_notifications: Some(true),
    };
    match user::check(&p, &bad) {
        Err(answer) => assert_eq!(failure(answer), (400, "invalid email format".to_string())),
        Ok(_) => panic!("expected a refusal"),
    }
    let fine = UserChanges {
        username: Some("someone".to_string()),
        password: None,
        email: Some("new@b.c".to_string()),
        email_notifications: None,
    };
    assert!(user::check(&p, &fine).is_ok());
    let mut new_emails: Cache<Email> = Cache::new();
    let token = user::request_email_change(&mut new_emails, "new@b.c");
    assert_eq!(email::redeem_email(&mut new_emails, &token).ok().unwrap().email, "new@b.c");
    assert!(email::redeem_email(&mut new_emails, &token).is_err());
    assert!(redeem(&mut new_emails, PASSWORD_RESET, &token).is_err());
    assert_eq!(success_text(email::respond(true)), (200, "Email updated successfully.".to_string()));
    assert_eq!(failure(email::respond(false)), (500, "Failed to update email.".to_string()));
    assert_eq!(
        success_text(user::respond(true)),
        (200, "User account successfully updated!".to_string())
    );
    assert_eq!(failure(user::respond(false)), (409, "Failed to update user account.".to_string()));
}

#[test]
fn links_carry_the_token() {
    let token = Token { token: 0x67e5_5044_10b1_426f_9247_bb68_0e5f_e0c8 };
    assert_eq!(
        link("https://front", "reset.html", &token),
        "https://front/reset.html?token=67e55044-10b1-426f-9247-bb680e5fe0c8"
    );
}

#[test]
fn cors_headers() {
    let headers = Cors.headers("https://front");
    assert_eq!(headers.len(), 4);
    assert_eq!(headers[0], ("Access-Control-Allow-Origin".to_string(), "https://front".to_string()));
    assert_eq!(
        headers[1],
        ("Access-Control-Allow-Methods".to_string(), "GET, POST, PUT, DELETE".to_string())
    );
    assert_eq!(headers[2], ("Access-Control-Allow-Headers".to_string(), "Content-Type".to_string()));
    assert_eq!(headers[3], ("Access-Control-Allow-Credentials".to_string(), "true".to_string()));
}

#[test]
fn superposable_names() {
    assert_eq!(
        superposables(),
        vec!["chic", "cry", "honk", "rage", "sad", "smirk", "stoned", "sweat"]
    );
    assert_eq!(Superposable::from_param("honk"), Ok(Superposable::Honk));
    assert_eq!(Superposable::from_param("Honk"), Err("Honk".to_string()));
    assert_eq!(Superposable::Sweat.name(), "sweat");
}

#[test]
fn picture_filter_is_sorted_and_deduplicated() {
    let filter = vec![Superposable::Sad, Superposable::Chic, Superposable::Sad, Superposable::Honk];
    assert_eq!(
        normalize(&filter),
        vec![Superposable::Chic, Superposable::Honk, Superposable::Sad]
    );
    assert_eq!(normalize(&vec![]), vec![]);
    assert_eq!(pictures_filter(0, &filter), None);
    assert_eq!(pictures_filter(3, &vec![Superposable::Cry]), Some(vec![Superposable::Cry]));
}

#[test]
fn picture_from_row() {
    let row = DbPicture {
        picture_id: 1,
        account_id: 2,
        superposable: Superposable::Rage,
        creation_ts: 1_700_000_000,
        author: "someone".to_string(),
        like_count: 3,
        dislike_count: 4,
        comment_count: 5,
        liked: Some(true),
        disliked: Some(false),
    };
    let picture = Picture::from(&row);
    assert_eq!(picture.picture_id, 1);
    assert_eq!(picture.account_id, 2);
    assert_eq!(picture.superposable, Superposable::Rage);
    assert_eq!(picture.creation_ts, 1_700_000_000);
    assert_eq!(picture.author, "someone");
    assert_eq!((picture.like_count, picture.dislike_count, picture.comment_count), (3, 4, 5));
    assert_eq!((picture.liked, picture.disliked), (Some(true), Some(false)));
}

#[test]
fn address_changes_wait_for_their_token() {
    let changes = UserChanges {
        username: Some("someone".to_string()),
        password: Some("Secret-42".to_string()),
        email: Some("new@b.c".to_string()),
        email_notifications: Some(false),
    };
    let now = user::stored_changes(&changes);
    assert_eq!(now.username, Some("someone".to_string()));
    assert_eq!(now.password, Some("Secret-42".to_string()));
    assert_eq!(now.email, None);
    assert_eq!(now.email_notifications, Some(false));
}
