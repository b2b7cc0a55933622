use camagru_api::cache::Cache;
use camagru_api::password::{hash, hash_with_salt, hashed, verified, verify};
use camagru_api::payload::{Account, Credentials, PictureComment};
use camagru_api::result::{
    bad_request, forbidden, internal_error, not_found, unauthorized, unprocessable_entity,
    ApiError, ApiResult,
};
use camagru_api::routes::comment::put;
use camagru_api::routes::login::{authorized_account, login, open_session};
use camagru_api::routes::logout::post;
use camagru_api::routes::options;
use camagru_api::session::{Connected, IsConnected};
use camagru_api::validation::{email, password, username, Patterns};

fn patterns() -> Patterns {
    Patterns::new().unwrap()
}

#[test]
fn usernames() {
    let p = patterns();
    assert_eq!(username(&p, "john_doe"), Ok(()));
    assert_eq!(username(&p, "abcdef"), Ok(()));
    assert_eq!(
        username(&p, "abcde"),
        Err("username must be a word of 6 to 64 characters long".to_string())
    );
    assert!(username(&p, &"a".repeat(64)).is_ok());
    assert!(username(&p, &"a".repeat(65)).is_err());
    assert!(username(&p, "john doe").is_err());
}

#[test]
fn passwords_report_first_missing_rule() {
    let p = patterns();
    assert_eq!(password(&p, "Abcdef1!"), Ok(()));
    assert_eq!(
        password(&p, "ABCDEF1!"),
        Err("password must contain at least one lower case letter".to_string())
    );
    assert_eq!(
        password(&p, "abcdef1!"),
        Err("password must contain at least one upper case letter".to_string())
    );
    assert_eq!(
        password(&p, "Abcdefg!"),
        Err("password must contain at least one digit".to_string())
    );
    assert_eq!(
        password(&p, "Abcdefg1"),
        Err("password must contain at least one special character".to_string())
    );
    assert_eq!(
        password(&p, "Ab1!"),
        Err("password must be at least eight characters long".to_string())
    );
}

#[test]
fn emails() {
    let p = patterns();
    assert_eq!(email(&p, "someone@example.com"), Ok(()));
    assert_eq!(email(&p, "someone"), Err("invalid email format".to_string()));
    assert!(email(&p, "a b@example.com").is_err());
    let long = format!("{}@example.com", "a".repeat(245));
    assert_eq!(long.len(), 257);
    assert!(email(&p, &long).is_err());
    let longest = format!("{}@example.com", "a".repeat(244));
    assert!(email(&p, &longest).is_ok());
}

#[test]
fn password_hash_round_trip() {
    let encoded = hash("Secret-42").unwrap();
    assert_ne!(encoded, "Secret-42");
    assert!(verify("Secret-42", &encoded));
    assert!(!verify("secret-42", &encoded));
    assert!(!verify("Secret-42", "not a hash"));
}

#[test]
fn random_salts_differ() {
    let a = hash("Secret-42").unwrap();
    let b = hash("Secret-42").unwrap();
    assert_ne!(a, b);
    assert!(verify("Secret-42", &b));
}

#[test]
fn argon2_outcomes() {
    assert_eq!(hashed(Ok("$argon2i$x".to_string())), Some("$argon2i$x".to_string()));
    assert_eq!(hashed(Err(argon2::Error::SaltTooShort)), None);
    assert!(verified(Ok(true)));
    assert!(!verified(Ok(false)));
    assert!(!verified(Err(argon2::Error::DecodingFail)));
}

#[test]
fn salted_hash_is_deterministic() {
    let salt = [7u8; 16];
    let a = hash_with_salt("pw", &salt).unwrap();
    let b = hash_with_salt("pw", &salt).unwrap();
    assert_eq!(a, b);
    assert!(a.starts_with("$argon2"));
}

#[test]
fn credentials_log_in() {
    let mut sessions: Cache<Connected> = Cache::new();
    let account = Account {
        account_id: 3,
        email: "a@b.c".to_string(),
        username: "someone".to_string(),
        password_hash: hash("Secret-42").unwrap(),
        email_notifications: true,
    };
    let good = Credentials { username: "someone".to_string(), password: "Secret-42".to_string() };
    let bad = Credentials { username: "someone".to_string(), password: "nope".to_string() };
    assert_eq!(login(&bad, Some(&account), &mut sessions), Err("invalid credentials".to_string()));
    assert_eq!(login(&good, None, &mut sessions), Err("invalid credentials".to_string()));
    let session = login(&good, Some(&account), &mut sessions).unwrap();
    assert_eq!(session.account_id, 3);
    assert_eq!(sessions.get("00000000-0000-0000-0000-000000000003"), Some(session));
}

#[test]
fn logout_route_removes_session() {
    let mut sessions: Cache<Connected> = Cache::new();
    let session = camagru_api::session::login(&mut sessions, 9);
    match post(&mut sessions, &IsConnected(None)) {
        ApiResult::Success { status, payload } => {
            assert_eq!(status, 200);
            assert_eq!(payload.response, "logged out");
        }
        ApiResult::Failure { .. } => panic!("logout never fails"),
    }
    assert!(sessions.contains("00000000-0000-0000-0000-000000000009"));
    post(&mut sessions, &IsConnected(Some(session)));
    assert!(!sessions.contains("00000000-0000-0000-0000-000000000009"));
}

#[test]
fn comment_echo() {
    let comment = PictureComment { picture_id: 1, comment: "nice".to_string() };
    let sess = Connected { account_id: 2, session_id: 0 };
    assert_eq!(
        put(&comment, &sess),
        "PUT comment 'nice' on picture 00000000-0000-0000-0000-000000000001 as 00000000-0000-0000-0000-000000000002\n"
    );
}

fn fields(e: &ApiError) -> (u16, &str, &str, &str, &str) {
    (e.status, &e.error, &e.message, &e.method, &e.path)
}

#[test]
fn api_errors() {
    options();
    assert_eq!(
        fields(&camagru_api::result::default(418, "I'm a teapot", "GET", "/x")),
        (418, "I'm a teapot", "unexepected error", "GET", "/x")
    );
    assert_eq!(
        fields(&bad_request("POST", "/user")),
        (400, "Bad Request", "invalid request", "POST", "/user")
    );
    assert_eq!(
        fields(&unauthorized("GET", "/user")),
        (401, "Unauthorized", "user must be logged in to execute this request", "GET", "/user")
    );
    assert_eq!(
        fields(&forbidden("GET", "/")),
        (403, "Forbidden", "this request is not allowed", "GET", "/")
    );
    assert_eq!(
        fields(&not_found("GET", "/nope")),
        (404, "Not Found", "requested resource does not exist", "GET", "/nope")
    );
    assert_eq!(
        fields(&unprocessable_entity("PUT", "/user")).2,
        "the request cannot be processed because the payload is ill-formed"
    );
    assert_eq!(
        fields(&internal_error("GET", "/")),
        (500, "Internal Server Error", "Ooooooops.... Looks like we messed up, sorry :)", "GET", "/")
    );
}

#[test]
fn second_credential_login_replaces_first() {
    let mut sessions: Cache<Connected> = Cache::new();
    let account = Account {
        account_id: 4,
        email: "a@b.c".to_string(),
        username: "someone".to_string(),
        password_hash: hash("Secret-42").unwrap(),
        email_notifications: false,
    };
    let creds = Credentials { username: "someone".to_string(), password: "Secret-42".to_string() };
    let first = login(&creds, Some(&account), &mut sessions).unwrap();
    let second = login(&creds, Some(&account), &mut sessions).unwrap();
    assert_eq!(first.account_id, second.account_id);
    assert_ne!(first.session_id, second.session_id);
    assert_eq!(sessions.get("00000000-0000-0000-0000-000000000004"), Some(second));
}

#[test]
fn malformed_hash_refuses_login() {
    let mut sessions: Cache<Connected> = Cache::new();
    let account = Account {
        account_id: 5,
        email: "a@b.c".to_string(),
        username: "someone".to_string(),
        password_hash: "garbage".to_string(),
        email_notifications: false,
    };
    let creds = Credentials { username: "someone".to_string(), password: "Secret-42".to_string() };
    assert_eq!(login(&creds, Some(&account), &mut sessions), Err("invalid credentials".to_string()));
    assert!(!sessions.contains("00000000-0000-0000-0000-000000000005"));
}

#[test]
fn credential_check_then_session() {
    let account = Account {
        account_id: 6,
        email: "a@b.c".to_string(),
        username: "someone".to_string(),
        password_hash: hash("Secret-42").unwrap(),
        email_notifications: false,
    };
    let good = Credentials { username: "someone".to_string(), password: "Secret-42".to_string() };
    let bad = Credentials { username: "someone".to_string(), password: "secret-42".to_string() };
    assert_eq!(authorized_account(&good, Some(&account)), Some(6));
    assert_eq!(authorized_account(&bad, Some(&account)), None);
    assert_eq!(authorized_account(&good, None), None);
    let mut sessions: Cache<Connected> = Cache::new();
    assert_eq!(open_session(None, &mut sessions), Err("invalid credentials".to_string()));
    let session = open_session(Some(6), &mut sessions).unwrap();
    assert_eq!(session.account_id, 6);
    assert_eq!(sessions.get("00000000-0000-0000-0000-000000000006"), Some(session));
}
