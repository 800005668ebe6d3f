use perekladach::auth::{HashError, Password};
use perekladach::database::token::Token;
use perekladach::database::user::{User, Username};
use perekladach::database::{DeleteError, InsertError, SelectError};
use perekladach::routes::{
    authenticate, authorize, creation_response, credentials_verdict, issue_token,
    listing_response, login_response, logout_response, project_response, select_response,
    signup_record, Status,
};

fn user_with_hash(hash: String) -> User {
    User { id: 7, username: Username::try_from("reader".to_owned()).ok().unwrap(), password_hash: hash }
}

#[test]
fn status_codes() {
    assert_eq!(Status::Success.code(), 200);
    assert_eq!(Status::Created.code(), 201);
    assert_eq!(Status::BadRequest.code(), 400);
    assert_eq!(Status::NotFound.code(), 404);
    assert_eq!(Status::InternalServerError.code(), 500);
}

#[test]
fn creation_answers() {
    assert!(matches!(creation_response(Ok(())), Ok(Status::Created)));
    let dup = creation_response(Err(InsertError::UniqueViolation("dup".to_owned())));
    assert!(matches!(dup, Err(e) if e.status == Status::BadRequest && e.message == "dup"));
    let other = creation_response(Err(InsertError::Other("down".to_owned())));
    assert!(matches!(other, Err(e) if e.status == Status::InternalServerError));
}

#[test]
fn missing_project_is_not_found() {
    let r = select_response::<u32>(Err(SelectError::NoDataFound("none".to_owned())), Status::NotFound);
    assert!(matches!(r, Err(e) if e.status == Status::NotFound && e.message == "none"));
    let r = select_response::<u32>(Err(SelectError::Other("down".to_owned())), Status::NotFound);
    assert!(matches!(r, Err(e) if e.status == Status::InternalServerError));
    assert!(matches!(select_response(Ok(3u32), Status::NotFound), Ok(3)));
}

#[test]
fn listing_failures_are_server_errors() {
    let r = listing_response::<u32>(Err(SelectError::NoDataFound("none".to_owned())));
    assert!(matches!(r, Err(e) if e.status == Status::InternalServerError && e.message == "data not found"));
    let r = listing_response::<u32>(Err(SelectError::Other("down".to_owned())));
    assert!(matches!(r, Err(e) if e.status == Status::InternalServerError && e.message == "down"));
    assert!(matches!(listing_response(Ok(vec![1u32, 2])), Ok(v) if v == vec![1, 2]));
}

#[test]
fn unknown_token_is_bad_request() {
    let r = authorize(Err(SelectError::NoDataFound("no token".to_owned())));
    assert!(matches!(r, Err(e) if e.status == Status::BadRequest));
    let r = authorize(Err(SelectError::Other("down".to_owned())));
    assert!(matches!(r, Err(e) if e.status == Status::InternalServerError));
    let r = authorize(Ok(Token { token: "t".to_owned(), user_id: 3 }));
    assert!(matches!(r, Ok(t) if t.user_id == 3 && t.token == "t"));
}

#[test]
fn logout_answers() {
    assert!(matches!(logout_response(Ok(())), Ok(Status::Success)));
    let r = logout_response(Err(DeleteError::Other("down".to_owned())));
    assert!(matches!(r, Err(e) if e.status == Status::InternalServerError));
}

#[test]
fn verdicts() {
    assert!(matches!(credentials_verdict(5, Ok(true)), Ok(5)));
    let r = credentials_verdict(5, Ok(false));
    assert!(matches!(r, Err(e) if e.status == Status::BadRequest && e.message == "invalid credentials"));
    let r = credentials_verdict(5, Err(HashError { message: "bad".to_owned() }));
    assert!(matches!(r, Err(e) if e.status == Status::InternalServerError && e.message == "bad"));
}

#[test]
fn login_with_right_and_wrong_passwords() {
    let password = Password::try_from("correct horse".to_owned()).unwrap();
    let hash = password.compute_hash().ok().unwrap();
    assert!(matches!(authenticate(&password, Ok(user_with_hash(hash.clone()))), Ok(7)));

    let wrong = Password::try_from("battery staple".to_owned()).unwrap();
    let r = authenticate(&wrong, Ok(user_with_hash(hash)));
    assert!(matches!(r, Err(e) if e.status == Status::BadRequest));

    let r = authenticate(&password, Ok(user_with_hash("garbage".to_owned())));
    assert!(matches!(r, Err(e) if e.status == Status::InternalServerError));

    let r = authenticate(&password, Err(SelectError::NoDataFound("no user".to_owned())));
    assert!(matches!(r, Err(e) if e.status == Status::BadRequest && e.message == "no user"));
}

#[test]
fn tokens_for_users() {
    let token = issue_token(11);
    assert_eq!(token.user_id, 11);
    assert_eq!(token.token.len(), 40);
    let answer = login_response(token.clone(), Ok(()));
    assert!(matches!(answer, Ok(r) if r.token == token.token));
    let r = login_response(token, Err(InsertError::UniqueViolation("dup".to_owned())));
    assert!(matches!(r, Err(e) if e.status == Status::BadRequest));
}

#[test]
fn signup_hashes_the_password() {
    let password = Password::try_from("correct horse".to_owned()).unwrap();
    let username = Username::try_from("reader".to_owned()).ok().unwrap();
    let record = signup_record(username, &password).ok().unwrap();
    assert_eq!(record.username.inner(), "reader");
    assert_ne!(record.password_hash, "correct horse");
    assert_eq!(password.matches_hash(&record.password_hash).ok(), Some(true));
}

#[test]
fn project_read_answers() {
    let r = project_response::<u32>(Err(SelectError::NoDataFound("none".to_owned())));
    assert!(matches!(r, Err(e) if e.status == Status::NotFound && e.message == "none"));
    let r = project_response::<u32>(Err(SelectError::Other("down".to_owned())));
    assert!(matches!(r, Err(e) if e.status == Status::InternalServerError && e.message == "down"));
    assert!(matches!(project_response(Ok(7u32)), Ok(7)));
}

#[test]
fn signup_always_gives_a_record() {
    let password = Password::try_from("12345678".to_owned()).unwrap();
    let username = Username::try_from("a".to_owned()).ok().unwrap();
    assert!(signup_record(username, &password).is_ok());
}

#[test]
fn signup_then_wrong_password_is_bad_request() {
    let password = Password::try_from("correct horse".to_owned()).unwrap();
    let username = Username::try_from("reader".to_owned()).ok().unwrap();
    let record = signup_record(username, &password).ok().unwrap();
    let other = Password::try_from("battery staple".to_owned()).unwrap();
    let r = authenticate(&other, Ok(user_with_hash(record.password_hash.clone())));
    assert!(matches!(r, Err(e) if e.status == Status::BadRequest && e.message == "invalid credentials"));
    let r = authenticate(&password, Ok(user_with_hash(record.password_hash)));
    assert!(r.is_ok());
}
