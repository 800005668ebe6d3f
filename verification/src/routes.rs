use vstd::prelude::*;
use crate::auth::{
    argon2_verifies, argon2id_phc, base64_standard, gen_auth_token, is_base64_char,
    phc_is_well_formed, HashError, Password, HASH_M_COST, HASH_OUTPUT_LEN, HASH_P_COST, HASH_T_COST,
};
use crate::database::token::Token;
use crate::database::user::{InsertableUser, User, Username};
use crate::database::{DeleteError, InsertError, SelectError};

verus! {

/// The HTTP statuses the service answers with.
#[derive(Debug, Clone, Copy, PartialEq, Eq, Structural)]
pub enum Status {
    Success,
    Created,
    BadRequest,
    NotFound,
    InternalServerError,
}

/// The numeric code of a status.
pub open spec fn status_code(s: Status) -> u16 {
    match s {
        Status::Success => 200,
        Status::Created => 201,
        Status::BadRequest => 400,
        Status::NotFound => 404,
        Status::InternalServerError => 500,
    }
}

impl Status {
    /// The numeric HTTP code of the status.
    pub fn code(&self) -> (c: u16)
        ensures
            c == status_code(*self),
    {
        match self {
            Status::Success => 200,
            Status::Created => 201,
            Status::BadRequest => 400,
            Status::NotFound => 404,
            Status::InternalServerError => 500,
        }
    }
}

/// A refused request: the status it is answered with and the text of the
/// answer.
pub struct HttpError {
    pub status: Status,
    pub message: String,
}

/// The answer to a successful login.
pub struct Response {
    pub token: String,
}

/// A failed write: a duplicate is the client's fault, anything else the
/// server's.
pub fn insert_error_response(err: InsertError) -> (res: HttpError)
    ensures
        err matches InsertError::UniqueViolation(m) ==> res.status == Status::BadRequest
            && res.message == m,
        err matches InsertError::Other(m) ==> res.status == Status::InternalServerError
            && res.message == m,
{
    match err {
        InsertError::UniqueViolation(m) => HttpError { status: Status::BadRequest, message: m },
        InsertError::Other(m) => HttpError { status: Status::InternalServerError, message: m },
    }
}

/// The answer to a request that creates a resource (a user, a project, a
/// chapter): `Created` when the write succeeded, otherwise the answer to the
/// failed write.
pub fn creation_response(written: Result<(), InsertError>) -> (res: Result<Status, HttpError>)
    ensures
        written is Ok ==> res == Ok::<Status, HttpError>(Status::Created),
        written matches Err(InsertError::UniqueViolation(m)) ==> (res matches Err(e) && e.status
            == Status::BadRequest && e.message == m),
        written matches Err(InsertError::Other(m)) ==> (res matches Err(e) && e.status
            == Status::InternalServerError && e.message == m),
{
    match written {
        Ok(()) => Ok(Status::Created),
        Err(err) => Err(insert_error_response(err)),
    }
}

/// A read whose missing row is answered with `missing` (`NotFound` for a
/// project, `BadRequest` for credentials and tokens); any other failure is
/// the server's.
pub fn select_response<T>(read: Result<T, SelectError>, missing: Status) -> (res: Result<
    T,
    HttpError,
>)
    ensures
        read matches Ok(v) ==> (res matches Ok(w) && w == v),
        read matches Err(SelectError::NoDataFound(m)) ==> (res matches Err(e) && e.status == missing
            && e.message == m),
        read matches Err(SelectError::Other(m)) ==> (res matches Err(e) && e.status
            == Status::InternalServerError && e.message == m),
{
    match read {
        Ok(v) => Ok(v),
        Err(SelectError::NoDataFound(m)) => Err(HttpError { status: missing, message: m }),
        Err(SelectError::Other(m)) => Err(
            HttpError { status: Status::InternalServerError, message: m },
        ),
    }
}

/// The answer to a request for one project: the project when it was read, a
/// not-found when no project has that slug, and the server's failure
/// otherwise.
pub fn project_response<T>(read: Result<T, SelectError>) -> (res: Result<T, HttpError>)
    ensures
        read matches Ok(v) ==> (res matches Ok(w) && w == v),
        read matches Err(SelectError::NoDataFound(m)) ==> (res matches Err(e) && e.status
            == Status::NotFound && e.message == m),
        read matches Err(SelectError::Other(m)) ==> (res matches Err(e) && e.status
            == Status::InternalServerError && e.message == m),
{
    select_response(read, Status::NotFound)
}

/// A read where every failure, a missing row included, is the server's (the
/// list of chapters); the answer carries the read error's description.
pub fn listing_response<T>(read: Result<T, SelectError>) -> (res: Result<T, HttpError>)
    ensures
        read matches Ok(v) ==> (res matches Ok(w) && w == v),
        read matches Err(SelectError::NoDataFound(_)) ==> (res matches Err(e) && e.status
            == Status::InternalServerError && e.message@ == "data not found"@),
        read matches Err(SelectError::Other(m)) ==> (res matches Err(e) && e.status
            == Status::InternalServerError && e.message@ == m@),
{
    match read {
        Ok(v) => Ok(v),
        Err(err) => Err(HttpError { status: Status::InternalServerError, message: err.to_string() }),
    }
}

/// The bearer-token check in front of the protected routes: a known token
/// lets the request through with it, an unknown one is a bad request, and
/// any other failure is the server's.
pub fn authorize(lookup: Result<Token, SelectError>) -> (res: Result<Token, HttpError>)
    ensures
        lookup matches Ok(t) ==> (res matches Ok(u) && u == t),
        lookup matches Err(SelectError::NoDataFound(m)) ==> (res matches Err(e) && e.status
            == Status::BadRequest && e.message == m),
        lookup matches Err(SelectError::Other(m)) ==> (res matches Err(e) && e.status
            == Status::InternalServerError && e.message == m),
{
    select_response(lookup, Status::BadRequest)
}

/// The answer to a logout: `Ok` once the token is deleted, otherwise the
/// server's failure.
pub fn logout_response(deleted: Result<(), DeleteError>) -> (res: Result<Status, HttpError>)
    ensures
        deleted is Ok ==> res == Ok::<Status, HttpError>(Status::Success),
        deleted matches Err(DeleteError::Other(m)) ==> (res matches Err(e) && e.status
            == Status::InternalServerError && e.message == m),
{
    match deleted {
        Ok(()) => Ok(Status::Success),
        Err(DeleteError::Other(m)) => Err(
            HttpError { status: Status::InternalServerError, message: m },
        ),
    }
}

/// The text of the answer to a wrong password.
pub open spec fn invalid_credentials_message() -> Seq<char> {
    "invalid credentials"@
}

/// The login decision once the stored hash has been checked: the user's id
/// when the password verified, a bad request when it did not, and the
/// server's failure when the stored hash could not be read.
pub fn credentials_verdict(user_id: u32, verification: Result<bool, HashError>) -> (res: Result<
    u32,
    HttpError,
>)
    ensures
        verification == Ok::<bool, HashError>(true) ==> res == Ok::<u32, HttpError>(user_id),
        verification == Ok::<bool, HashError>(false) ==> (res matches Err(e) && e.status
            == Status::BadRequest && e.message@ == invalid_credentials_message()),
        verification matches Err(h) ==> (res matches Err(e) && e.status
            == Status::InternalServerError && e.message == h.message),
{
    match verification {
        Ok(true) => Ok(user_id),
        Ok(false) => Err(
            HttpError { status: Status::BadRequest, message: "invalid credentials".to_owned() },
        ),
        Err(h) => Err(HttpError { status: Status::InternalServerError, message: h.message }),
    }
}

/// The first half of a login: the user looked up by name must exist (else a
/// bad request), its stored hash must be readable (else the server's
/// failure), and the password must verify against it (else a bad request).
/// Gives the user's id.
pub fn authenticate(password: &Password, lookup: Result<User, SelectError>) -> (res: Result<
    u32,
    HttpError,
>)
    ensures
        lookup matches Err(SelectError::NoDataFound(m)) ==> (res matches Err(e) && e.status
            == Status::BadRequest && e.message == m),
        lookup matches Err(SelectError::Other(m)) ==> (res matches Err(e) && e.status
            == Status::InternalServerError && e.message == m),
        lookup matches Ok(user) ==> {
            &&& !phc_is_well_formed(user.password_hash@) ==> (res matches Err(e) && e.status
                == Status::InternalServerError)
            &&& phc_is_well_formed(user.password_hash@) && argon2_verifies(
                password@,
                user.password_hash@,
            ) ==> res == Ok::<u32, HttpError>(user.id)
            &&& phc_is_well_formed(user.password_hash@) && !argon2_verifies(
                password@,
                user.password_hash@,
            ) ==> (res matches Err(e) && e.status == Status::BadRequest && e.message@
                == invalid_credentials_message())
            &&& (exists|salt: Seq<char>|
                #[trigger] argon2id_phc(
                    password@,
                    salt,
                    HASH_M_COST,
                    HASH_T_COST,
                    HASH_P_COST,
                    HASH_OUTPUT_LEN,
                ) == Some(user.password_hash@)) ==> res == Ok::<u32, HttpError>(user.id)
        },
{
    let user = select_response(lookup, Status::BadRequest)?;
    let verification = password.matches_hash(user.password_hash.as_str());
    credentials_verdict(user.id, verification)
}

/// A fresh token for the user `user_id`: forty Base64 characters.
pub fn issue_token(user_id: u32) -> (token: Token)
    ensures
        token.user_id == user_id,
        token.token@.len() == 40,
        exists|bytes: Seq<u8>| bytes.len() == 30 && token.token@ == base64_standard(bytes),
        forall|i: int|
            0 <= i < token.token@.len() ==> is_base64_char(#[trigger] token.token@[i]),
{
    Token { token: gen_auth_token(), user_id }
}

/// The second half of a login: once the new token is stored, it is the
/// answer; a failed write is answered as such.
pub fn login_response(token: Token, stored: Result<(), InsertError>) -> (res: Result<
    Response,
    HttpError,
>)
    ensures
        stored is Ok ==> (res matches Ok(r) && r.token == token.token),
        stored matches Err(InsertError::UniqueViolation(m)) ==> (res matches Err(e) && e.status
            == Status::BadRequest && e.message == m),
        stored matches Err(InsertError::Other(m)) ==> (res matches Err(e) && e.status
            == Status::InternalServerError && e.message == m),
{
    match stored {
        Ok(()) => Ok(Response { token: token.token }),
        Err(err) => Err(insert_error_response(err)),
    }
}

/// The first half of a signup: the record to store, with the password
/// hashed under a fresh salt. Hashing a valid password does not fail, so the
/// record is always there (were the hasher to fail, the answer would be the
/// server's failure).
pub fn signup_record(username: Username, password: &Password) -> (res: Result<
    InsertableUser,
    HttpError,
>)
    ensures
        res is Ok,
        res matches Ok(record) ==> phc_is_well_formed(record.password_hash@),
        res matches Ok(record) ==> record.username == username && exists|salt: Seq<char>|
            #[trigger] argon2id_phc(
                password@,
                salt,
                HASH_M_COST,
                HASH_T_COST,
                HASH_P_COST,
                HASH_OUTPUT_LEN,
            ) == Some(record.password_hash@),
        res matches Err(e) ==> e.status == Status::InternalServerError,
{
    match password.compute_hash() {
        Ok(password_hash) => Ok(InsertableUser { username, password_hash }),
        Err(h) => Err(HttpError { status: Status::InternalServerError, message: h.message }),
    }
}

} // verus!
